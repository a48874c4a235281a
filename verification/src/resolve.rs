//! The resolvers: one for each media type, from a post to its download tasks.

use crate::download::{
    task_for, tasks_model, DownloadTask, TaskModel, GIF, GIFV, JPG, MP4, PNG, ZIP,
};
use crate::errors::ResolveError;
use crate::links::{host_of_link, link_host, link_path, path_of_link};
use crate::structs::{
    MediaMetadata, Post, RedGif, StreamableApiResponse, REDDIT_IMAGE_SUBDOMAIN,
};
use crate::table::Table;
use crate::text::{
    before_last_segment, before_last_segment_chars, chars_of, contains, contains_chars,
    last_segment, last_segment_chars, push_text, replace_all, replace_chars, same_text, string_of,
};
use crate::utils::{contains_any, contains_any_spec};
use vstd::prelude::*;

verus! {

broadcast use vstd::string::group_string_axioms;

/// The API of the token-gated host.
pub const REDGIFS_API_PREFIX: &'static str = "https://api.redgifs.com/v2";

/// The media host of the animated-image host that rebuilt URLs point at.
pub const GIPHY_MEDIA_SUBDOMAIN: &'static str = "media.giphy.com";

/// A numbered media host of the animated-image host.
pub const GIPHY_MEDIA_SUBDOMAIN_0: &'static str = "media0.giphy.com";

/// A numbered media host of the animated-image host.
pub const GIPHY_MEDIA_SUBDOMAIN_1: &'static str = "media1.giphy.com";

/// A numbered media host of the animated-image host.
pub const GIPHY_MEDIA_SUBDOMAIN_2: &'static str = "media2.giphy.com";

/// A numbered media host of the animated-image host.
pub const GIPHY_MEDIA_SUBDOMAIN_3: &'static str = "media3.giphy.com";

/// A numbered media host of the animated-image host.
pub const GIPHY_MEDIA_SUBDOMAIN_4: &'static str = "media4.giphy.com";

/// The video lookup of the external video host.
pub const STREAMABLE_API: &'static str = "https://api.streamable.com/videos";

/// The model of what a resolver returns for one task.
pub open spec fn task_result(r: Result<DownloadTask, ResolveError>) -> Result<
    TaskModel,
    ResolveError,
> {
    match r {
        Ok(task) => Ok(task@),
        Err(e) => Err(e),
    }
}

/// The model of what a resolver returns for several tasks.
pub open spec fn tasks_result(r: Result<Vec<DownloadTask>, ResolveError>) -> Result<
    Seq<TaskModel>,
    ResolveError,
> {
    match r {
        Ok(tasks) => Ok(tasks_model(tasks@)),
        Err(e) => Err(e),
    }
}

/// The one task of a post whose media is at `url`, of the extension that
/// stands after the last dot of `url`.
pub open spec fn direct_task(post: Post, url: Option<Seq<char>>) -> Result<
    TaskModel,
    ResolveError,
> {
    match url {
        None => Err(ResolveError::UnsupportedUrl),
        Some(u) => if post.data.title is None {
            Err(ResolveError::MissingTitle)
        } else {
            Ok(task_for(post, u, last_segment(u, '.'), None))
        },
    }
}

fn direct(post: &Post, url: Option<&String>) -> (r: Result<DownloadTask, ResolveError>)
    ensures
        task_result(r) == direct_task(
            *post,
            match url {
                Some(u) => Some(u@),
                None => None,
            },
        ),
{
    match url {
        None => Err(ResolveError::UnsupportedUrl),
        Some(u) => {
            if post.data.title.is_none() {
                return Err(ResolveError::MissingTitle);
            }
            let chars = chars_of(u.as_str());
            let extension = string_of(&last_segment_chars(&chars, '.'));
            Ok(DownloadTask::from_post(post, u.as_str(), extension.as_str(), None))
        },
    }
}

/// The URL that the post gives, as the listing delivered it.
pub open spec fn raw_url(post: Post) -> Option<Seq<char>> {
    match post.data.url {
        Some(u) => Some(u@),
        None => None,
    }
}

/// An image on the primary image host: one task for the normalized URL of
/// the post, with the extension that the URL ends in.
pub fn resolve_reddit_image(post: &Post) -> (r: Result<DownloadTask, ResolveError>)
    ensures
        task_result(r) == direct_task(*post, post.url_spec()),
{
    let url = post.get_url();
    direct(post, url.as_ref())
}

/// An image on the third-party image host: one task for the URL of the post
/// as it stands, with the extension that the URL ends in.
pub fn resolve_imgur_image(post: &Post) -> (r: Result<DownloadTask, ResolveError>)
    ensures
        task_result(r) == direct_task(*post, raw_url(*post)),
{
    direct(post, post.data.url.as_ref())
}

/// The task of a post that has a URL, whose media is fetched from `url`
/// with `extension`.
pub open spec fn rewritten_task(post: Post, url: Seq<char>, extension: Seq<char>) -> Result<
    TaskModel,
    ResolveError,
> {
    if post.data.url is None {
        Err(ResolveError::UnsupportedUrl)
    } else if post.data.title is None {
        Err(ResolveError::MissingTitle)
    } else {
        Ok(task_for(post, url, extension, None))
    }
}

/// The video behind an animated image of the third-party image host: the
/// URL with each `.gifv` replaced by `.mp4`.
pub open spec fn imgur_gif_task(post: Post) -> Result<TaskModel, ResolveError> {
    rewritten_task(post, replace_all(post.data.url->0@, ".gifv"@, ".mp4"@), MP4@)
}

/// Resolves an animated image of the third-party image host.
pub fn resolve_imgur_gif(post: &Post) -> (r: Result<DownloadTask, ResolveError>)
    ensures
        task_result(r) == imgur_gif_task(*post),
{
    match &post.data.url {
        None => Err(ResolveError::UnsupportedUrl),
        Some(url) => {
            if post.data.title.is_none() {
                return Err(ResolveError::MissingTitle);
            }
            let video = string_of(
                &replace_chars(&chars_of(url.as_str()), &chars_of(".gifv"), &chars_of(".mp4")),
            );
            Ok(DownloadTask::from_post(post, video.as_str(), MP4, None))
        },
    }
}

/// The archive of an album of the third-party image host: the URL followed
/// by the segment `zip`.
pub open spec fn imgur_album_task(post: Post) -> Result<TaskModel, ResolveError> {
    rewritten_task(post, post.data.url->0@ + "/zip"@, ZIP@)
}

/// Resolves an album of the third-party image host.
pub fn resolve_imgur_album(post: &Post) -> (r: Result<DownloadTask, ResolveError>)
    ensures
        task_result(r) == imgur_album_task(*post),
{
    match &post.data.url {
        None => Err(ResolveError::UnsupportedUrl),
        Some(url) => {
            if post.data.title.is_none() {
                return Err(ResolveError::MissingTitle);
            }
            let mut archive = url.clone();
            archive.append("/zip");
            Ok(DownloadTask::from_post(post, archive.as_str(), ZIP, None))
        },
    }
}

/// The two URLs that are probed for an image of unknown type, in the order
/// of the probes: the URL with `.jpg` added, which is probed for a JPEG
/// image, then the URL with `.png` added, which is probed for a PNG image.
pub open spec fn imgur_candidates(url: Seq<char>) -> (Seq<char>, Seq<char>) {
    (url + ".jpg"@, url + ".png"@)
}

/// The URLs to probe for the image of a post on the third-party image host
/// whose URL names no file type.
pub fn imgur_probe_links(post: &Post) -> (r: Result<(String, String), ResolveError>)
    ensures
        match r {
            Ok(links) => raw_url(*post) is Some && (links.0@, links.1@) == imgur_candidates(
                raw_url(*post)->0,
            ),
            Err(e) => raw_url(*post) is None && e == ResolveError::UnsupportedUrl,
        },
{
    match &post.data.url {
        None => Err(ResolveError::UnsupportedUrl),
        Some(url) => {
            let mut first = url.clone();
            first.append(".jpg");
            let mut second = url.clone();
            second.append(".png");
            Ok((first, second))
        },
    }
}

/// The task for an image of unknown type, given which probes succeeded: the
/// first candidate as a JPEG where its probe succeeded, else the second as a
/// PNG where its probe succeeded, else an error.
pub open spec fn imgur_unknown_task(post: Post, first_found: bool, second_found: bool) -> Result<
    TaskModel,
    ResolveError,
> {
    if post.data.url is None {
        Err(ResolveError::UnsupportedUrl)
    } else if !first_found && !second_found {
        Err(ResolveError::UnknownImageType)
    } else if post.data.title is None {
        Err(ResolveError::MissingTitle)
    } else if first_found {
        Ok(task_for(post, imgur_candidates(post.data.url->0@).0, JPG@, None))
    } else {
        Ok(task_for(post, imgur_candidates(post.data.url->0@).1, PNG@, None))
    }
}

/// Resolves an image of unknown type, given which of the two probes found
/// the image.
pub fn resolve_imgur_unknown(post: &Post, first_found: bool, second_found: bool) -> (r: Result<
    DownloadTask,
    ResolveError,
>)
    ensures
        task_result(r) == imgur_unknown_task(*post, first_found, second_found),
{
    let links = match imgur_probe_links(post) {
        Ok(l) => l,
        Err(e) => return Err(e),
    };
    if !first_found && !second_found {
        return Err(ResolveError::UnknownImageType);
    }
    if post.data.title.is_none() {
        return Err(ResolveError::MissingTitle);
    }
    if first_found {
        Ok(DownloadTask::from_post(post, links.0.as_str(), JPG, None))
    } else {
        Ok(DownloadTask::from_post(post, links.1.as_str(), PNG, None))
    }
}

/// The hosts that serve the media of the animated-image host directly.
pub open spec fn giphy_media_hosts() -> Seq<&'static str> {
    seq![
        GIPHY_MEDIA_SUBDOMAIN,
        GIPHY_MEDIA_SUBDOMAIN_0,
        GIPHY_MEDIA_SUBDOMAIN_1,
        GIPHY_MEDIA_SUBDOMAIN_2,
        GIPHY_MEDIA_SUBDOMAIN_3,
        GIPHY_MEDIA_SUBDOMAIN_4,
    ]
}

/// The URL points at the media: its host holds the name of a media host,
/// and the URL ends in a playable extension.
pub open spec fn is_giphy_media(host: Seq<char>, url: Seq<char>) -> bool {
    let extension = last_segment(url, '.');
    contains_any_spec(host, giphy_media_hosts()) && (extension == GIF@ || extension == MP4@
        || extension == GIFV@)
}

/// The direct media URL of a post page: the identifier is what follows the
/// last hyphen of the path.
pub open spec fn giphy_media_url(path: Seq<char>) -> Seq<char> {
    "https://"@ + GIPHY_MEDIA_SUBDOMAIN@ + "/media/"@ + last_segment(path, '-') + ".gif"@
}

/// The task for a post of the animated-image host: the URL as it stands
/// where it points at the media, else the media URL rebuilt from the page's
/// path. `host` and `path` are the host and the path of the post's URL,
/// where the URL parses and has a host.
pub open spec fn giphy_task(
    post: Post,
    host: Option<Seq<char>>,
    path: Option<Seq<char>>,
) -> Result<TaskModel, ResolveError> {
    if post.data.url is None || host is None || path is None {
        Err(ResolveError::UnsupportedUrl)
    } else if post.data.title is None {
        Err(ResolveError::MissingTitle)
    } else if is_giphy_media(host->0, post.data.url->0@) {
        Ok(task_for(post, post.data.url->0@, last_segment(post.data.url->0@, '.'), None))
    } else {
        Ok(task_for(post, giphy_media_url(path->0), GIF@, None))
    }
}

/// Resolves a post of the animated-image host, given the host and the path
/// of its URL.
pub fn giphy_from_parts(post: &Post, host: Option<&String>, path: Option<&String>) -> (r: Result<
    DownloadTask,
    ResolveError,
>)
    ensures
        task_result(r) == giphy_task(
            *post,
            match host {
                Some(h) => Some(h@),
                None => None,
            },
            match path {
                Some(p) => Some(p@),
                None => None,
            },
        ),
{
    let url = match &post.data.url {
        Some(u) => u,
        None => return Err(ResolveError::UnsupportedUrl),
    };
    let host = match host {
        Some(h) => h,
        None => return Err(ResolveError::UnsupportedUrl),
    };
    let path = match path {
        Some(p) => p,
        None => return Err(ResolveError::UnsupportedUrl),
    };
    if post.data.title.is_none() {
        return Err(ResolveError::MissingTitle);
    }
    let extension = string_of(&last_segment_chars(&chars_of(url.as_str()), '.'));
    let hosts = [
        GIPHY_MEDIA_SUBDOMAIN,
        GIPHY_MEDIA_SUBDOMAIN_0,
        GIPHY_MEDIA_SUBDOMAIN_1,
        GIPHY_MEDIA_SUBDOMAIN_2,
        GIPHY_MEDIA_SUBDOMAIN_3,
        GIPHY_MEDIA_SUBDOMAIN_4,
    ];
    assert(hosts@ =~= giphy_media_hosts());
    let playable = same_text(extension.as_str(), GIF) || same_text(extension.as_str(), MP4)
        || same_text(extension.as_str(), GIFV);
    if contains_any(host.as_str(), hosts.as_slice()) && playable {
        Ok(DownloadTask::from_post(post, url.as_str(), extension.as_str(), None))
    } else {
        let media_id = string_of(&last_segment_chars(&chars_of(path.as_str()), '-'));
        let mut media = String::from_str("https://");
        media.append(GIPHY_MEDIA_SUBDOMAIN);
        media.append("/media/");
        media.append(media_id.as_str());
        media.append(".gif");
        Ok(DownloadTask::from_post(post, media.as_str(), GIF, None))
    }
}

/// The path of the post's URL, as the URL parser gives it.
pub open spec fn raw_path(post: Post) -> Option<Seq<char>> {
    match post.data.url {
        Some(u) => link_path(u@),
        None => None,
    }
}

/// The host of the post's URL, as the URL parser gives it.
pub open spec fn raw_host(post: Post) -> Option<Seq<char>> {
    match post.data.url {
        Some(u) => link_host(u@),
        None => None,
    }
}

/// Resolves a post of the animated-image host.
pub fn resolve_giphy(post: &Post) -> (r: Result<DownloadTask, ResolveError>)
    ensures
        task_result(r) == giphy_task(*post, raw_host(*post), raw_path(*post)),
{
    let host = match &post.data.url {
        Some(u) => host_of_link(u.as_str()),
        None => None,
    };
    let path = match &post.data.url {
        Some(u) => path_of_link(u.as_str()),
        None => None,
    };
    giphy_from_parts(post, host.as_ref(), path.as_ref())
}

/// The extension of a gallery item: what follows the last `/` of the MIME
/// type that the metadata declares for its media id, and that of a still
/// image where the metadata holds nothing for the id.
pub open spec fn gallery_extension(
    metadata: Map<Seq<char>, MediaMetadata>,
    media_id: Seq<char>,
) -> Seq<char> {
    if metadata.dom().contains(media_id) {
        last_segment(metadata[media_id].m@, '/')
    } else {
        JPG@
    }
}

/// The URL of a gallery item on the primary image host.
pub open spec fn gallery_item_url(media_id: Seq<char>, extension: Seq<char>) -> Seq<char> {
    "https://"@ + REDDIT_IMAGE_SUBDOMAIN@ + "/"@ + media_id + "."@ + extension
}

/// The task for item `i` of the gallery of `post`: its component index is `i`.
pub open spec fn gallery_item_task(post: Post, i: int) -> TaskModel {
    let item = post.data.gallery_data->0.items@[i];
    let extension = gallery_extension(post.data.media_metadata->0@, item.media_id@);
    task_for(post, gallery_item_url(item.media_id@, extension), extension, Some(i as usize))
}

/// The tasks of a gallery: one for each item, in the order of the items.
pub open spec fn gallery_tasks(post: Post) -> Result<Seq<TaskModel>, ResolveError> {
    if !post.has_gallery() {
        Err(ResolveError::MissingGallery)
    } else if post.data.gallery_data->0.items@.len() == 0 {
        Ok(Seq::empty())
    } else if post.data.title is None {
        Err(ResolveError::MissingTitle)
    } else {
        Ok(Seq::new(post.data.gallery_data->0.items@.len(), |i: int| gallery_item_task(post, i)))
    }
}

fn gallery_extension_of(metadata: &Table<MediaMetadata>, media_id: &str) -> (extension: String)
    ensures
        extension@ == gallery_extension(metadata@, media_id@),
{
    match metadata.get(media_id) {
        Some(media) => string_of(&last_segment_chars(&chars_of(media.m.as_str()), '/')),
        None => String::from_str(JPG),
    }
}

/// Resolves a gallery.
pub fn resolve_gallery(post: &Post) -> (r: Result<Vec<DownloadTask>, ResolveError>)
    ensures
        tasks_result(r) == gallery_tasks(*post),
{
    let gallery = match &post.data.gallery_data {
        Some(g) => g,
        None => return Err(ResolveError::MissingGallery),
    };
    let media_metadata = match &post.data.media_metadata {
        Some(m) => m,
        None => return Err(ResolveError::MissingGallery),
    };
    let mut tasks: Vec<DownloadTask> = Vec::new();
    if gallery.items.len() == 0 {
        assert(tasks_model(tasks@) =~= Seq::empty());
        return Ok(tasks);
    }
    if post.data.title.is_none() {
        return Err(ResolveError::MissingTitle);
    }
    let mut index: usize = 0;
    assert(tasks_model(tasks@) =~= Seq::new(0, |i: int| gallery_item_task(*post, i)));
    while index < gallery.items.len()
        invariant
            index <= gallery.items.len(),
            post.data.title is Some,
            post.data.gallery_data == Some(*gallery),
            post.data.media_metadata == Some(*media_metadata),
            tasks@.len() == index,
            tasks_model(tasks@) == Seq::new(index as nat, |i: int| gallery_item_task(*post, i)),
        decreases gallery.items.len() - index,
    {
        let item = &gallery.items[index];
        let extension = gallery_extension_of(media_metadata, item.media_id.as_str());
        let mut url = String::from_str("https://");
        url.append(REDDIT_IMAGE_SUBDOMAIN);
        url.append("/");
        url.append(item.media_id.as_str());
        url.append(".");
        url.append(extension.as_str());
        let task = DownloadTask::from_post(post, url.as_str(), extension.as_str(), Some(index));
        assert(task@ == gallery_item_task(*post, index as int));
        let ghost before = tasks@;
        tasks.push(task);
        proof {
            assert forall|k: int| 0 <= k <= index implies tasks_model(tasks@)[k]
                == gallery_item_task(*post, k) by {
                if k < index {
                    assert(tasks_model(before)[k] == gallery_item_task(*post, k));
                    assert(tasks@[k] == before[k]);
                }
            }
        }
        index = index + 1;
        assert(tasks_model(tasks@) =~= Seq::new(
            index as nat,
            |i: int| gallery_item_task(*post, i),
        ));
    }
    Ok(tasks)
}

/// What is sent to the token-gated host to look up an item.
#[derive(Debug, Clone)]
pub struct RedgifLookup {
    /// The URL of the item in the host's API.
    pub api_url: String,
    /// The value of the `Authorization` header.
    pub authorization: String,
}

/// Where a bearer token for the token-gated host is obtained.
pub open spec fn token_url() -> Seq<char> {
    REDGIFS_API_PREFIX@ + "/auth/temporary"@
}

/// The URL of the token exchange of the token-gated host.
pub fn redgif_token_url() -> (url: String)
    ensures
        url@ == token_url(),
{
    let mut url = String::from_str(REDGIFS_API_PREFIX);
    url.append("/auth/temporary");
    url
}

/// The lookup for a post of the token-gated host: the item is named by what
/// follows the last `/` of the normalized URL, and the token is sent as a
/// bearer token.
pub open spec fn redgif_lookup_spec(url: Option<Seq<char>>, token: Option<Seq<char>>) -> Result<
    (Seq<char>, Seq<char>),
    ResolveError,
> {
    match url {
        None => Err(ResolveError::UnsupportedUrl),
        Some(u) => match token {
            None => Err(ResolveError::MissingToken),
            Some(t) => Ok((REDGIFS_API_PREFIX@ + "/gifs/"@ + last_segment(u, '/'), "Bearer "@ + t)),
        },
    }
}

/// Prepares the lookup of an item at the token-gated host.
pub fn redgif_lookup(post: &Post, token: Option<&String>) -> (r: Result<RedgifLookup, ResolveError>)
    ensures
        match r {
            Ok(lookup) => Ok((lookup.api_url@, lookup.authorization@)),
            Err(e) => Err(e),
        } == redgif_lookup_spec(
            post.url_spec(),
            match token {
                Some(t) => Some(t@),
                None => None,
            },
        ),
{
    let url = match post.get_url() {
        Some(u) => u,
        None => return Err(ResolveError::UnsupportedUrl),
    };
    let token = match token {
        Some(t) => t,
        None => return Err(ResolveError::MissingToken),
    };
    let id = string_of(&last_segment_chars(&chars_of(url.as_str()), '/'));
    let mut api_url = String::from_str(REDGIFS_API_PREFIX);
    api_url.append("/gifs/");
    api_url.append(id.as_str());
    let mut authorization = String::from_str("Bearer ");
    authorization.append(token.as_str());
    Ok(RedgifLookup { api_url, authorization })
}

/// The task for an item of the token-gated host: its high-definition URL,
/// fetched as a video.
pub open spec fn redgif_task(post: Post, response: RedGif) -> Result<TaskModel, ResolveError> {
    if post.data.title is None {
        Err(ResolveError::MissingTitle)
    } else {
        Ok(task_for(post, response.gif.urls.hd@, MP4@, None))
    }
}

/// Resolves an item of the token-gated host, given the answer to its lookup.
pub fn resolve_redgif(post: &Post, response: &RedGif) -> (r: Result<DownloadTask, ResolveError>)
    ensures
        task_result(r) == redgif_task(*post, *response),
{
    if post.data.title.is_none() {
        return Err(ResolveError::MissingTitle);
    }
    Ok(DownloadTask::from_post(post, response.gif.urls.hd.as_str(), MP4, None))
}

/// The URL of a video in the API of the external video host, given what
/// stands after the host in the URL of the post.
pub open spec fn streamable_lookup_spec(path: Option<Seq<char>>) -> Result<
    Seq<char>,
    ResolveError,
> {
    match path {
        None => Err(ResolveError::UnsupportedUrl),
        Some(p) => Ok(STREAMABLE_API@ + p),
    }
}

/// The lookup of a video at the external video host, given what stands after
/// the host in the URL of the post.
pub fn streamable_lookup_from_path(path: Option<&String>) -> (r: Result<String, ResolveError>)
    ensures
        match r {
            Ok(url) => Ok(url@),
            Err(e) => Err(e),
        } == streamable_lookup_spec(
            match path {
                Some(p) => Some(p@),
                None => None,
            },
        ),
{
    match path {
        None => Err(ResolveError::UnsupportedUrl),
        Some(p) => {
            let mut url = String::from_str(STREAMABLE_API);
            url.append(p.as_str());
            Ok(url)
        },
    }
}

/// The lookup of the video of a post at the external video host.
pub fn streamable_lookup(post: &Post) -> (r: Result<String, ResolveError>)
    ensures
        match r {
            Ok(url) => Ok(url@),
            Err(e) => Err(e),
        } == streamable_lookup_spec(post.path_spec()),
{
    let path = match post.get_url() {
        Some(u) => path_of_link(u.as_str()),
        None => None,
    };
    streamable_lookup_from_path(path.as_ref())
}

/// The task for a video of the external video host: the URL that its file
/// map gives for the video container.
pub open spec fn streamable_task(post: Post, response: StreamableApiResponse) -> Result<
    TaskModel,
    ResolveError,
> {
    if !response.files@.dom().contains(MP4@) {
        Err(ResolveError::NoVideoFile)
    } else {
        match response.files@[MP4@].url {
            None => Err(ResolveError::NoVideoFile),
            Some(url) => if post.data.title is None {
                Err(ResolveError::MissingTitle)
            } else {
                Ok(task_for(post, url@, MP4@, None))
            },
        }
    }
}

/// Resolves a video of the external video host, given the answer to its
/// lookup.
pub fn resolve_streamable(post: &Post, response: &StreamableApiResponse) -> (r: Result<
    DownloadTask,
    ResolveError,
>)
    ensures
        task_result(r) == streamable_task(*post, *response),
{
    match response.files.get(MP4) {
        None => Err(ResolveError::NoVideoFile),
        Some(file) => match &file.url {
            None => Err(ResolveError::NoVideoFile),
            Some(url) => {
                if post.data.title.is_none() {
                    Err(ResolveError::MissingTitle)
                } else {
                    Ok(DownloadTask::from_post(post, url.as_str(), MP4, None))
                }
            },
        },
    }
}

/// The native video of a post, where the post carries one.
pub open spec fn native_video(post: Post) -> Result<crate::structs::RedditVideo, ResolveError> {
    if post.data.url is None {
        Err(ResolveError::UnsupportedUrl)
    } else if post.data.media is None {
        Err(ResolveError::MissingMedia)
    } else if post.data.media->0.reddit_video is None {
        Err(ResolveError::MissingFallback)
    } else {
        Ok(post.data.media->0.reddit_video->0)
    }
}

/// The URL of the manifest of a native video.
pub open spec fn manifest_link_spec(post: Post) -> Result<Seq<char>, ResolveError> {
    match native_video(post) {
        Ok(video) => Ok(video.dash_url@),
        Err(e) => Err(e),
    }
}

/// The URL of a native video before the manifest is read: the URL of the
/// post where it ends in the video container extension, else the fallback
/// URL without its fallback marker.
pub open spec fn video_source(post: Post) -> Result<Seq<char>, ResolveError> {
    match native_video(post) {
        Ok(video) => if last_segment(post.data.url->0@, '.') == MP4@ {
            Ok(post.data.url->0@)
        } else {
            Ok(replace_all(video.fallback_url@, "?source=fallback"@, Seq::empty()))
        },
        Err(e) => Err(e),
    }
}

/// The tasks of a native video, given what the manifest selects. The video
/// is taken from the manifest where the last segment of the source URL does
/// not hold `DASH`; the audio, where the manifest has one, is a second task
/// with component index 1. Both stand beside the source URL.
pub open spec fn reddit_video_tasks(
    post: Post,
    video: Option<Seq<char>>,
    audio: Option<Seq<char>>,
) -> Result<Seq<TaskModel>, ResolveError> {
    match video_source(post) {
        Err(e) => Err(e),
        Ok(url) => {
            let base = before_last_segment(url, '/');
            let from_manifest = !contains(last_segment(url, '/'), "DASH"@);
            if from_manifest && video is None {
                Err(ResolveError::NoVideoInManifest)
            } else if post.data.title is None {
                Err(ResolveError::MissingTitle)
            } else {
                let video_url = if from_manifest {
                    base + "/"@ + video->0
                } else {
                    url
                };
                let first = seq![task_for(post, video_url, MP4@, None)];
                match audio {
                    Some(a) => Ok(first.push(task_for(post, base + "/"@ + a, MP4@, Some(1usize)))),
                    None => Ok(first),
                }
            }
        },
    }
}

fn native_video_of(post: &Post) -> (r: Result<&crate::structs::RedditVideo, ResolveError>)
    ensures
        match r {
            Ok(video) => Ok(*video),
            Err(e) => Err(e),
        } == native_video(*post),
{
    if post.data.url.is_none() {
        return Err(ResolveError::UnsupportedUrl);
    }
    match &post.data.media {
        None => Err(ResolveError::MissingMedia),
        Some(media) => match &media.reddit_video {
            None => Err(ResolveError::MissingFallback),
            Some(video) => Ok(video),
        },
    }
}

/// The manifest to fetch for a native video.
pub fn manifest_link(post: &Post) -> (r: Result<String, ResolveError>)
    ensures
        match r {
            Ok(url) => Ok(url@),
            Err(e) => Err(e),
        } == manifest_link_spec(*post),
{
    match native_video_of(post) {
        Ok(video) => Ok(video.dash_url.clone()),
        Err(e) => Err(e),
    }
}

/// Resolves a native video, given the texts that its manifest selects for
/// video and audio.
pub fn resolve_reddit_video(post: &Post, video: Option<&String>, audio: Option<&String>) -> (r:
    Result<Vec<DownloadTask>, ResolveError>)
    ensures
        tasks_result(r) == reddit_video_tasks(
            *post,
            match video {
                Some(v) => Some(v@),
                None => None,
            },
            match audio {
                Some(a) => Some(a@),
                None => None,
            },
        ),
{
    let native = match native_video_of(post) {
        Ok(v) => v,
        Err(e) => return Err(e),
    };
    let post_url = match &post.data.url {
        Some(u) => u,
        None => return Err(ResolveError::UnsupportedUrl),
    };
    let extension = string_of(&last_segment_chars(&chars_of(post_url.as_str()), '.'));
    let url: Vec<char> = if same_text(extension.as_str(), MP4) {
        chars_of(post_url.as_str())
    } else {
        let nothing: Vec<char> = Vec::new();
        assert(nothing@ =~= Seq::<char>::empty());
        replace_chars(
            &chars_of(native.fallback_url.as_str()),
            &chars_of("?source=fallback"),
            &nothing,
        )
    };
    assert(Ok::<Seq<char>, ResolveError>(url@) == video_source(*post));
    let dash_video = last_segment_chars(&url, '/');
    let base_path = before_last_segment_chars(&url, '/');
    let from_manifest = !contains_chars(&dash_video, &chars_of("DASH"));
    let video_url: Vec<char> = if from_manifest {
        match video {
            None => return Err(ResolveError::NoVideoInManifest),
            Some(v) => {
                let mut joined = base_path.clone();
                push_text(&mut joined, "/");
                push_text(&mut joined, v.as_str());
                joined
            },
        }
    } else {
        url
    };
    if post.data.title.is_none() {
        return Err(ResolveError::MissingTitle);
    }
    let mut tasks: Vec<DownloadTask> = Vec::new();
    let video_task = DownloadTask::from_post(post, string_of(&video_url).as_str(), MP4, None);
    tasks.push(video_task);
    assert(tasks_model(tasks@) =~= seq![video_task@]);
    match audio {
        Some(a) => {
            let mut audio_url = base_path.clone();
            push_text(&mut audio_url, "/");
            push_text(&mut audio_url, a.as_str());
            let audio_task = DownloadTask::from_post(
                post,
                string_of(&audio_url).as_str(),
                MP4,
                Some(1),
            );
            tasks.push(audio_task);
            assert(tasks_model(tasks@) =~= seq![video_task@].push(audio_task@));
        },
        None => {},
    }
    Ok(tasks)
}

} // verus!
