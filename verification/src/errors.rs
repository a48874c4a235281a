//! The errors of a run and of the resolution of a post.

use crate::text::push_text;
use crate::text::string_of;
use vstd::prelude::*;

verus! {

broadcast use vstd::string::group_string_axioms;

/// What can go wrong in a run. A variant that stands for a failure of the
/// network, the file system or a parser carries no detail of it.
#[derive(Debug, Clone, PartialEq, Eq)]
pub enum GertError {
    EnvVarNotPresent,
    ReqwestError,
    CouldNotCreateDirectory,
    CouldNotSaveImageError(String),
    CouldNotCreateImageError(String, String),
    TokioJoinError,
    ParsingIntError,
    TryFromIntError,
    DataDirNotFound,
    IoError,
    UrlError,
    UrlNotFound(String),
    ToStringConversionError,
    FromStringConversionError,
    JsonParseError(String),
    FfmpegError(String),
    ZipError,
    /// The host answered with its placeholder for removed media.
    ImgurRemovedError,
}

/// Why a post could not be resolved to download tasks.
#[derive(Debug, Clone, Copy, PartialEq, Eq, Structural)]
pub enum ResolveError {
    /// The post has no URL, or its URL does not parse.
    UnsupportedUrl,
    /// The post has no title.
    MissingTitle,
    /// The post has no gallery items or no media metadata.
    MissingGallery,
    /// The post has no media data.
    MissingMedia,
    /// The media data of the post holds no video with a fallback URL.
    MissingFallback,
    /// The manifest names no video representation.
    NoVideoInManifest,
    /// No bearer token is at hand for the token-gated host.
    MissingToken,
    /// Neither probe of the image type succeeded.
    UnknownImageType,
    /// The host's file map has no usable entry for the video container.
    NoVideoFile,
}

impl GertError {
    /// The message of the error.
    pub open spec fn message_spec(self) -> Seq<char> {
        match self {
            GertError::EnvVarNotPresent => "Missing environment variable"@,
            GertError::ReqwestError => "Unable to process request"@,
            GertError::CouldNotCreateDirectory => "Could not create directory"@,
            GertError::CouldNotSaveImageError(name) => "Could not save image `"@ + name@
                + "` to filesystem"@,
            GertError::CouldNotCreateImageError(name, source) => "Could not create image `"@
                + name@ + "` from `"@ + source@ + "`"@,
            GertError::TokioJoinError => "Unable to join tasks"@,
            GertError::ParsingIntError => "Could not save string to int"@,
            GertError::TryFromIntError => "Could not save usize to int"@,
            GertError::DataDirNotFound => "Data directory not found, please check if it exists"@,
            GertError::IoError => "Could not create or save image"@,
            GertError::UrlError => "Unable to parse URL"@,
            GertError::UrlNotFound(url) => "Could not reach URL `"@ + url@ + "`"@,
            GertError::ToStringConversionError => "Could not convert to string"@,
            GertError::FromStringConversionError => "Could not convert from string"@,
            GertError::JsonParseError(source) => "Error parsing JSON from "@ + source@,
            GertError::FfmpegError(detail) => "Ffmpeg error "@ + detail@,
            GertError::ZipError => "Error unzipping file"@,
            GertError::ImgurRemovedError => "Media has been removed from imgur"@,
        }
    }

    /// The message of the error, as a reader sees it.
    pub fn message(&self) -> (text: String)
        ensures
            text@ == self.message_spec(),
    {
        let mut out: Vec<char> = Vec::new();
        match self {
            GertError::EnvVarNotPresent => push_text(&mut out, "Missing environment variable"),
            GertError::ReqwestError => push_text(&mut out, "Unable to process request"),
            GertError::CouldNotCreateDirectory => push_text(&mut out, "Could not create directory"),
            GertError::CouldNotSaveImageError(name) => {
                push_text(&mut out, "Could not save image `");
                push_text(&mut out, name.as_str());
                push_text(&mut out, "` to filesystem");
            },
            GertError::CouldNotCreateImageError(name, source) => {
                push_text(&mut out, "Could not create image `");
                push_text(&mut out, name.as_str());
                push_text(&mut out, "` from `");
                push_text(&mut out, source.as_str());
                push_text(&mut out, "`");
            },
            GertError::TokioJoinError => push_text(&mut out, "Unable to join tasks"),
            GertError::ParsingIntError => push_text(&mut out, "Could not save string to int"),
            GertError::TryFromIntError => push_text(&mut out, "Could not save usize to int"),
            GertError::DataDirNotFound => push_text(
                &mut out,
                "Data directory not found, please check if it exists",
            ),
            GertError::IoError => push_text(&mut out, "Could not create or save image"),
            GertError::UrlError => push_text(&mut out, "Unable to parse URL"),
            GertError::UrlNotFound(url) => {
                push_text(&mut out, "Could not reach URL `");
                push_text(&mut out, url.as_str());
                push_text(&mut out, "`");
            },
            GertError::ToStringConversionError => push_text(
                &mut out,
                "Could not convert to string",
            ),
            GertError::FromStringConversionError => push_text(
                &mut out,
                "Could not convert from string",
            ),
            GertError::JsonParseError(source) => {
                push_text(&mut out, "Error parsing JSON from ");
                push_text(&mut out, source.as_str());
            },
            GertError::FfmpegError(detail) => {
                push_text(&mut out, "Ffmpeg error ");
                push_text(&mut out, detail.as_str());
            },
            GertError::ZipError => push_text(&mut out, "Error unzipping file"),
            GertError::ImgurRemovedError => push_text(
                &mut out,
                "Media has been removed from imgur",
            ),
        }
        assert(out@ =~= self.message_spec());
        string_of(&out)
    }
}

impl ResolveError {
    /// The message of the error.
    pub open spec fn message_spec(self) -> Seq<char> {
        match self {
            ResolveError::UnsupportedUrl => "Unsupported URL"@,
            ResolveError::MissingTitle => "No title found"@,
            ResolveError::MissingGallery => "No gallery data found"@,
            ResolveError::MissingMedia => "No media data found"@,
            ResolveError::MissingFallback => "No fallback url found in reddit video"@,
            ResolveError::NoVideoInManifest => "Could not find video in MPD"@,
            ResolveError::MissingToken => "No Redgif token found"@,
            ResolveError::UnknownImageType => "Cannot determine imgur image type"@,
            ResolveError::NoVideoFile => "No mp4 file found in streamable API response"@,
        }
    }

    /// The message of the error, as a reader sees it.
    pub fn message(&self) -> (text: String)
        ensures
            text@ == self.message_spec(),
    {
        let mut out: Vec<char> = Vec::new();
        match self {
            ResolveError::UnsupportedUrl => push_text(&mut out, "Unsupported URL"),
            ResolveError::MissingTitle => push_text(&mut out, "No title found"),
            ResolveError::MissingGallery => push_text(&mut out, "No gallery data found"),
            ResolveError::MissingMedia => push_text(&mut out, "No media data found"),
            ResolveError::MissingFallback => push_text(
                &mut out,
                "No fallback url found in reddit video",
            ),
            ResolveError::NoVideoInManifest => push_text(&mut out, "Could not find video in MPD"),
            ResolveError::MissingToken => push_text(&mut out, "No Redgif token found"),
            ResolveError::UnknownImageType => push_text(
                &mut out,
                "Cannot determine imgur image type",
            ),
            ResolveError::NoVideoFile => push_text(
                &mut out,
                "No mp4 file found in streamable API response",
            ),
        }
        assert(out@ =~= self.message_spec());
        string_of(&out)
    }
}

} // verus!
