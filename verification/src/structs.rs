//! The data that a listing delivers about posts, and the answers of the media
//! hosts that the resolvers read.

use crate::download::{MediaType, GIF, GIFV, JPEG, JPG, MP4, PNG};
use crate::links::{
    host_of_link, link_host, link_path, link_prefix, normalized_link, path_of_link,
};
use crate::text::{chars_of, contains, contains_chars, has_at, occurs_at, text_of};
use crate::table::Table;
use crate::utils::{has_extension, has_extension_spec};
use std::ops::Add;
use vstd::prelude::*;

verus! {

/// The answer of a listing endpoint.
#[derive(Debug)]
pub struct Listing {
    /// The kind of object this is. eg: Comment, Account, Subreddit, etc.
    pub kind: String,
    /// Contains the data for the children of the listing.
    pub data: ListingData,
}

/// The first listing of the answer to a request for a single post: the
/// comments that follow it are left out.
#[derive(Debug)]
pub struct SingleListing(pub Listing);

/// The contents of a call to a 'listing' endpoint.
#[derive(Debug)]
pub struct ListingData {
    /// A modhash generated for this request.
    pub modhash: Option<String>,
    pub before: Option<String>,
    pub after: Option<String>,
    pub children: Vec<Post>,
    pub dist: i32,
}

/// One post of a listing.
#[derive(Debug, Clone)]
pub struct Post {
    /// The kind of object this is. eg: Comment, Account, Subreddit, etc.
    pub kind: String,
    /// Contains data about this particular post
    pub data: PostData,
}

/// Represents all types of link posts and self posts.
#[derive(Debug, Clone)]
pub struct PostData {
    pub subreddit: String,
    /// The ID of the post in base-36 form, as used in links.
    pub id: String,
    /// The overall points score of this post, as shown on the upvote counter.
    pub score: i64,
    /// The URL to the link thumbnail.
    pub thumbnail: Option<String>,
    /// The ID of the subreddit where this was posted, including the leading `t5_`.
    pub subreddit_id: String,
    /// True if the logged-in user has saved this submission.
    pub saved: bool,
    /// The permanent, long link for this submission.
    pub permalink: String,
    /// The full 'Thing ID', consisting of a 'kind' and a base-36 identifier.
    pub name: String,
    /// The linked URL, if this is a link post.
    pub url: Option<String>,
    /// The title of the post.
    pub title: Option<String>,
    /// Media metadata, by media id.
    pub media_metadata: Option<Table<MediaMetadata>>,
    /// Gallery metadata
    pub gallery_data: Option<GalleryItems>,
    /// Is post a video?
    pub is_video: Option<bool>,
    /// Media info
    pub media: Option<PostMedia>,
    pub is_self: bool,
}

/// What a post tells of one of its media items.
#[derive(Debug, Clone)]
pub struct MediaMetadata {
    pub status: String,
    pub e: String,
    /// The declared MIME type of the item.
    pub m: String,
    pub id: String,
}

/// The embedded media of a post.
#[derive(Debug, Clone)]
pub struct PostMedia {
    pub reddit_video: Option<RedditVideo>,
}

/// A native video: its fallback URL and the URL of its manifest.
#[derive(Debug, Clone)]
pub struct RedditVideo {
    pub fallback_url: String,
    pub is_gif: bool,
    pub dash_url: String,
}

/// The gallery of a post.
#[derive(Debug, Clone)]
pub struct GalleryItems {
    /// Representation containing a list of gallery items
    pub items: Vec<GalleryItem>,
}

/// One item of a gallery.
#[derive(Debug, Clone)]
pub struct GalleryItem {
    /// The media id, from which the URL of the item is built
    pub media_id: String,
    /// Unique numerical ID for the specific media item
    pub id: i64,
}

/// The two forms of an animated image at a host that serves both.
#[derive(Debug, Clone)]
pub struct GfyItem {
    pub gif_url: String,
    pub mp4_url: String,
}

/// The answer of the external video host to the lookup of a video.
#[derive(Debug, Clone)]
pub struct StreamableApiResponse {
    /// The files of the video, by the name of their container format.
    pub files: Table<StreamableFile>,
}

/// One file of a video at the external video host.
#[derive(Debug, Clone)]
pub struct StreamableFile {
    pub url: Option<String>,
}

/// The answer of the token-gated host to a request for a token.
#[derive(Debug, Clone)]
pub struct TokenResponse {
    pub token: String,
    pub addr: String,
    pub agent: String,
    pub session: String,
    pub rtfm: String,
}

/// The URLs of an item of the token-gated host, by quality.
#[derive(Debug, Clone)]
pub struct MediaInfo {
    pub sd: String,
    pub hd: String,
}

/// An item of the token-gated host.
#[derive(Debug, Clone)]
pub struct InnerGif {
    pub id: String,
    pub urls: MediaInfo,
}

/// The answer of the token-gated host to the lookup of an item.
#[derive(Debug, Clone)]
pub struct RedGif {
    pub gif: InnerGif,
}

/// The counts of one part of a run.
#[derive(Debug, Copy, Clone, PartialEq, Eq, Structural)]
pub struct Summary {
    /// Number of media downloaded
    pub media_downloaded: i32,
    /// Number of media skipping downloading
    pub media_skipped: i32,
    /// Number of media supported present and parsable
    pub media_supported: i32,
}

impl Summary {
    /// The three sums of `self + rhs` fit the counters.
    pub open spec fn can_add(self, rhs: Summary) -> bool {
        &&& i32::MIN <= self.media_supported + rhs.media_supported <= i32::MAX
        &&& i32::MIN <= self.media_downloaded + rhs.media_downloaded <= i32::MAX
        &&& i32::MIN <= self.media_skipped + rhs.media_skipped <= i32::MAX
    }

    /// The summary that counts what `self` and `rhs` count together.
    pub open spec fn sum(self, rhs: Summary) -> Summary {
        Summary {
            media_supported: (self.media_supported + rhs.media_supported) as i32,
            media_downloaded: (self.media_downloaded + rhs.media_downloaded) as i32,
            media_skipped: (self.media_skipped + rhs.media_skipped) as i32,
        }
    }
}

impl vstd::std_specs::ops::AddSpecImpl for Summary {
    open spec fn obeys_add_spec() -> bool {
        true
    }

    open spec fn add_req(self, rhs: Summary) -> bool {
        self.can_add(rhs)
    }

    open spec fn add_spec(self, rhs: Summary) -> Summary {
        self.sum(rhs)
    }
}

impl Add for Summary {
    type Output = Self;

    /// Adds the counters one by one.
    fn add(self, rhs: Self) -> (total: Self::Output) {
        Self {
            media_supported: self.media_supported + rhs.media_supported,
            media_downloaded: self.media_downloaded + rhs.media_downloaded,
            media_skipped: self.media_skipped + rhs.media_skipped,
        }
    }
}

/// The signature of the primary image host.
pub const REDDIT_IMAGE_SUBDOMAIN: &'static str = "i.redd.it";

/// The signature of the native video host.
pub const REDDIT_VIDEO_SUBDOMAIN: &'static str = "v.redd.it";

/// The signature of the third-party image host.
pub const IMGUR_DOMAIN: &'static str = "imgur.com";

/// What the path of an album of the third-party image host begins with.
pub const IMGUR_ALBUM_PATH: &'static str = "/a/";

/// The signature of the media host of the third-party image host.
pub const IMGUR_SUBDOMAIN: &'static str = "i.imgur.com";

/// The signature of the token-gated host.
pub const REDGIFS_DOMAIN: &'static str = "redgifs.com";

/// The signature of the animated-image host.
pub const GIPHY_DOMAIN: &'static str = "giphy.com";

/// The signature of the external video host.
pub const STREAMABLE_DOMAIN: &'static str = "streamable.com";

/// The path ends in the extension of a still image.
pub open spec fn is_still_image(path: Seq<char>) -> bool {
    has_extension_spec(path, seq![JPG, PNG, JPEG])
}

/// The path ends in the extension of an animated image or of a video.
pub open spec fn is_animation(path: Seq<char>) -> bool {
    has_extension_spec(path, seq![GIFV, GIF, MP4])
}

/// The path is that of an album: it begins with the segment `a`.
pub open spec fn is_album_path(path: Seq<char>) -> bool {
    occurs_at(path, IMGUR_ALBUM_PATH@, 0)
}

/// The media type of a URL with this host and this path: the first site
/// signature, in this order, that the host holds; within a site the path
/// tells an album by its first segment and the kind of file by its
/// extension. Nothing but the host decides the site. `has_media` says
/// whether the post carries media data.
pub open spec fn classify_link_spec(
    host: Seq<char>,
    path: Seq<char>,
    has_media: bool,
) -> MediaType {
    if contains(host, REDDIT_IMAGE_SUBDOMAIN@) && is_still_image(path) {
        MediaType::RedditImage
    } else if contains(host, REDDIT_IMAGE_SUBDOMAIN@) && has_extension_spec(path, seq![GIF]) {
        MediaType::RedditGif
    } else if contains(host, REDDIT_VIDEO_SUBDOMAIN@) {
        if has_media {
            MediaType::RedditVideo
        } else {
            MediaType::Unsupported
        }
    } else if contains(host, REDGIFS_DOMAIN@) {
        MediaType::RedGif
    } else if contains(host, GIPHY_DOMAIN@) {
        MediaType::GiphyGif
    } else if contains(host, IMGUR_DOMAIN@) && is_album_path(path) {
        MediaType::ImgurAlbum
    } else if contains(host, IMGUR_DOMAIN@) && !contains(host, IMGUR_SUBDOMAIN@) {
        MediaType::ImgurUnknown
    } else if contains(host, IMGUR_DOMAIN@) && is_animation(path) {
        MediaType::ImgurGif
    } else if contains(host, IMGUR_DOMAIN@) && is_still_image(path) {
        MediaType::ImgurImage
    } else if contains(host, STREAMABLE_DOMAIN@) {
        MediaType::StreamableVideo
    } else {
        MediaType::Unsupported
    }
}

/// The media type of a post: a gallery where it carries gallery metadata,
/// else what the host and the path of its normalized URL say, and
/// unsupported without a URL that has a host.
pub open spec fn classify(
    host: Option<Seq<char>>,
    path: Option<Seq<char>>,
    has_gallery: bool,
    has_media: bool,
) -> MediaType {
    if has_gallery {
        MediaType::Gallery
    } else if host is Some && path is Some {
        classify_link_spec(host->0, path->0, has_media)
    } else {
        MediaType::Unsupported
    }
}

/// The host holds none of the site signatures.
pub open spec fn is_unknown_site(host: Seq<char>) -> bool {
    &&& !contains(host, REDDIT_IMAGE_SUBDOMAIN@)
    &&& !contains(host, REDDIT_VIDEO_SUBDOMAIN@)
    &&& !contains(host, REDGIFS_DOMAIN@)
    &&& !contains(host, GIPHY_DOMAIN@)
    &&& !contains(host, IMGUR_DOMAIN@)
    &&& !contains(host, STREAMABLE_DOMAIN@)
}

fn holds(text: &Vec<char>, signature: &str) -> (found: bool)
    ensures
        found == contains(text@, signature@),
{
    let needle = chars_of(signature);
    contains_chars(text, &needle)
}

/// Determines the media type of a URL from its host and from what stands
/// after the host up to the end of the path.
pub fn classify_link(host: &str, path: &str, has_media: bool) -> (kind: MediaType)
    ensures
        kind == classify_link_spec(host@, path@, has_media),
{
    let chars = chars_of(host);
    let still_image = [JPG, PNG, JPEG];
    let animation = [GIFV, GIF, MP4];
    let gif = [GIF];
    assert(still_image@ =~= seq![JPG, PNG, JPEG]);
    assert(animation@ =~= seq![GIFV, GIF, MP4]);
    assert(gif@ =~= seq![GIF]);
    if holds(&chars, REDDIT_IMAGE_SUBDOMAIN) {
        if has_extension(path, still_image.as_slice()) {
            return MediaType::RedditImage;
        } else if has_extension(path, gif.as_slice()) {
            return MediaType::RedditGif;
        }
    }
    if holds(&chars, REDDIT_VIDEO_SUBDOMAIN) {
        if has_media {
            return MediaType::RedditVideo;
        } else {
            return MediaType::Unsupported;
        }
    }
    if holds(&chars, REDGIFS_DOMAIN) {
        return MediaType::RedGif;
    }
    if holds(&chars, GIPHY_DOMAIN) {
        return MediaType::GiphyGif;
    }
    if holds(&chars, IMGUR_DOMAIN) {
        if has_at(&chars_of(path), &chars_of(IMGUR_ALBUM_PATH), 0) {
            return MediaType::ImgurAlbum;
        }
        if holds(&chars, IMGUR_SUBDOMAIN) {
            if has_extension(path, animation.as_slice()) {
                return MediaType::ImgurGif;
            } else if has_extension(path, still_image.as_slice()) {
                return MediaType::ImgurImage;
            }
        } else {
            return MediaType::ImgurUnknown;
        }
    }
    if holds(&chars, STREAMABLE_DOMAIN) {
        return MediaType::StreamableVideo;
    }
    MediaType::Unsupported
}

impl Post {
    /// The normalized URL of the post: its URL up to the end of the path,
    /// without a trailing slash. `None` where the post has no URL or its URL
    /// does not parse.
    pub open spec fn url_spec(&self) -> Option<Seq<char>> {
        match self.data.url {
            Some(raw) => link_prefix(raw@),
            None => None,
        }
    }

    /// The post carries gallery items and the metadata of their media.
    pub open spec fn has_gallery(&self) -> bool {
        self.data.gallery_data is Some && self.data.media_metadata is Some
    }

    /// The host of the normalized URL of the post.
    pub open spec fn host_spec(&self) -> Option<Seq<char>> {
        match self.url_spec() {
            Some(url) => link_host(url),
            None => None,
        }
    }

    /// What stands after the host in the normalized URL of the post, up to
    /// the end of the path.
    pub open spec fn path_spec(&self) -> Option<Seq<char>> {
        match self.url_spec() {
            Some(url) => link_path(url),
            None => None,
        }
    }

    /// The media type of the post.
    pub open spec fn type_spec(&self) -> MediaType {
        classify(self.host_spec(), self.path_spec(), self.has_gallery(), self.data.media is Some)
    }

    /// The post is a link post with more than `upvotes` points.
    pub open spec fn is_candidate_spec(&self, upvotes: i64) -> bool {
        self.data.url is Some && !self.data.is_self && self.data.score > upvotes
    }

    /// Says whether the media of the post is looked for: it is for a link
    /// post with more than `upvotes` points.
    pub fn is_candidate(&self, upvotes: i64) -> (wanted: bool)
        ensures
            wanted == self.is_candidate_spec(upvotes),
    {
        self.data.url.is_some() && !self.data.is_self && self.data.score > upvotes
    }

    /// The title of the post, and the empty title where it has none.
    pub fn title_or_empty(&self) -> (title: String)
        ensures
            title@ == match self.data.title {
                Some(t) => t@,
                None => Seq::empty(),
            },
    {
        match &self.data.title {
            Some(t) => t.clone(),
            None => String::new(),
        }
    }

    /// The normalized URL of the post.
    pub fn get_url(&self) -> (url: Option<String>)
        ensures
            text_of(url) == self.url_spec(),
    {
        match &self.data.url {
            Some(raw) => normalized_link(raw.as_str()),
            None => None,
        }
    }

    /// Determines the media type of the post.
    pub fn get_type(&self) -> (kind: MediaType)
        ensures
            kind == self.type_spec(),
    {
        if self.data.gallery_data.is_some() && self.data.media_metadata.is_some() {
            return MediaType::Gallery;
        }
        let url = match self.get_url() {
            Some(u) => u,
            None => return MediaType::Unsupported,
        };
        let host = host_of_link(url.as_str());
        let path = path_of_link(url.as_str());
        match (&host, &path) {
            (Some(h), Some(p)) => classify_link(h.as_str(), p.as_str(), self.data.media.is_some()),
            _ => MediaType::Unsupported,
        }
    }
}

} // verus!
