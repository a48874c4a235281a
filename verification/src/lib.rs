//! Resolution of links found in posts to downloadable media, the decisions of
//! the download pipeline, and the naming of the files it produces.
//!
//! The library decides and computes; it neither fetches nor writes. A
//! program around it performs what a decision asks for and hands the
//! outcome back.
//!
//! - [`structs`] holds the data of a post and its classification into a
//!   media type.
//! - [`resolve`] turns a post of each media type into download tasks.
//! - [`manifest`] selects the best representations of a streaming manifest.
//! - [`download`] holds the settings of a run and names the files.
//! - [`schedule`] counts the outcomes, decides what is fetched, and bounds
//!   the number of posts that are worked on at once.
//! - [`process`] decides what is done with a fetched file.
//! - [`subreddit`] builds the listing requests of a feed.
//! - [`links`], [`table`], [`integer`], [`text`], [`utils`] and [`errors`]
//!   serve the others.

pub mod download;
pub mod errors;
pub mod integer;
pub mod links;
pub mod manifest;
pub mod process;
pub mod resolve;
pub mod schedule;
pub mod structs;
pub mod subreddit;
pub mod table;
pub mod text;
pub mod utils;
