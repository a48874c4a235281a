use gert::download::DownloadTask;
use gert::errors::ResolveError;
use gert::resolve::{
    giphy_from_parts, imgur_probe_links, manifest_link, redgif_lookup, redgif_token_url,
    resolve_gallery, resolve_giphy, resolve_imgur_album, resolve_imgur_gif, resolve_imgur_image,
    resolve_imgur_unknown, resolve_reddit_image, resolve_reddit_video, resolve_redgif,
    resolve_streamable, streamable_lookup, streamable_lookup_from_path,
};
use gert::structs::{
    GalleryItem, GalleryItems, InnerGif, MediaInfo, MediaMetadata, Post, PostData, PostMedia,
    RedGif, RedditVideo, StreamableApiResponse, StreamableFile,
};
use gert::table::Table;

fn post(url: Option<&str>) -> Post {
    Post {
        kind: String::from("t3"),
        data: PostData {
            subreddit: String::from("pics"),
            id: String::from("abc"),
            score: 10,
            thumbnail: None,
            subreddit_id: String::from("t5_1"),
            saved: false,
            permalink: String::from("/r/pics/abc"),
            name: String::from("t3_abc"),
            url: url.map(String::from),
            title: Some(String::from("A title")),
            media_metadata: None,
            gallery_data: None,
            is_video: None,
            media: None,
            is_self: false,
        },
    }
}

fn untitled(url: Option<&str>) -> Post {
    let mut p = post(url);
    p.data.title = None;
    p
}

fn video_post(url: &str, fallback: &str) -> Post {
    let mut p = post(Some(url));
    p.data.media = Some(PostMedia {
        reddit_video: Some(RedditVideo {
            fallback_url: String::from(fallback),
            is_gif: false,
            dash_url: String::from("https://v.redd.it/clip/DASHPlaylist.mpd"),
        }),
    });
    p
}

fn metadata(entries: &[(&str, &str)]) -> Table<MediaMetadata> {
    let mut table = Table::new();
    for (media_id, mime) in entries {
        table.insert(
            String::from(*media_id),
            MediaMetadata {
                status: String::from("valid"),
                e: String::from("Image"),
                m: String::from(*mime),
                id: String::from(*media_id),
            },
        );
    }
    table
}

fn files(entries: &[(&str, Option<&str>)]) -> StreamableApiResponse {
    let mut table = Table::new();
    for (format, url) in entries {
        table.insert(String::from(*format), StreamableFile { url: url.map(String::from) });
    }
    StreamableApiResponse { files: table }
}

fn check(task: &DownloadTask, url: &str, extension: &str, index: Option<usize>) {
    assert_eq!(task.url, url);
    assert_eq!(task.extension, extension);
    assert_eq!(task.index, index);
    assert_eq!(task.subreddit, "pics");
    assert_eq!(task.post_name, "t3_abc");
    assert_eq!(task.post_title, "A title");
}

fn error<T: std::fmt::Debug>(r: Result<T, ResolveError>) -> ResolveError {
    r.unwrap_err()
}

#[test]
fn reddit_image_uses_the_normalized_url() {
    let task = resolve_reddit_image(&post(Some("https://i.redd.it/abc.png?width=640"))).unwrap();
    check(&task, "https://i.redd.it/abc.png", "png", None);
    let task = resolve_reddit_image(&post(Some("https://i.redd.it/anim.gif/"))).unwrap();
    check(&task, "https://i.redd.it/anim.gif", "gif", None);
}

#[test]
fn reddit_image_errors() {
    assert_eq!(error(resolve_reddit_image(&post(None))), ResolveError::UnsupportedUrl);
    assert_eq!(error(resolve_reddit_image(&post(Some("::")))), ResolveError::UnsupportedUrl);
    assert_eq!(
        error(resolve_reddit_image(&untitled(Some("https://i.redd.it/abc.png")))),
        ResolveError::MissingTitle
    );
}

#[test]
fn imgur_image_uses_the_url_as_it_stands() {
    let task = resolve_imgur_image(&post(Some("https://i.imgur.com/abc.jpeg"))).unwrap();
    check(&task, "https://i.imgur.com/abc.jpeg", "jpeg", None);
    let task = resolve_imgur_image(&post(Some("https://i.imgur.com/abc.jpg?1"))).unwrap();
    check(&task, "https://i.imgur.com/abc.jpg?1", "jpg?1", None);
    assert_eq!(error(resolve_imgur_image(&post(None))), ResolveError::UnsupportedUrl);
    assert_eq!(
        error(resolve_imgur_image(&untitled(Some("https://i.imgur.com/abc.jpeg")))),
        ResolveError::MissingTitle
    );
}

#[test]
fn imgur_gif_becomes_a_video() {
    let task = resolve_imgur_gif(&post(Some("https://i.imgur.com/abc.gifv"))).unwrap();
    check(&task, "https://i.imgur.com/abc.mp4", "mp4", None);
    let task = resolve_imgur_gif(&post(Some("https://i.imgur.com/abc.gif"))).unwrap();
    check(&task, "https://i.imgur.com/abc.gif", "mp4", None);
    assert_eq!(error(resolve_imgur_gif(&post(None))), ResolveError::UnsupportedUrl);
    assert_eq!(
        error(resolve_imgur_gif(&untitled(Some("https://i.imgur.com/abc.gifv")))),
        ResolveError::MissingTitle
    );
}

#[test]
fn imgur_album_asks_for_the_archive() {
    let task = resolve_imgur_album(&post(Some("https://imgur.com/a/xyz"))).unwrap();
    check(&task, "https://imgur.com/a/xyz/zip", "zip", None);
    assert_eq!(error(resolve_imgur_album(&post(None))), ResolveError::UnsupportedUrl);
    assert_eq!(
        error(resolve_imgur_album(&untitled(Some("https://imgur.com/a/xyz")))),
        ResolveError::MissingTitle
    );
}

#[test]
fn imgur_unknown_probes_jpg_then_png() {
    let p = post(Some("https://imgur.com/xyz"));
    assert_eq!(
        imgur_probe_links(&p),
        Ok((String::from("https://imgur.com/xyz.jpg"), String::from("https://imgur.com/xyz.png")))
    );
    assert_eq!(imgur_probe_links(&post(None)), Err(ResolveError::UnsupportedUrl));
    check(&resolve_imgur_unknown(&p, true, false).unwrap(), "https://imgur.com/xyz.jpg", "jpg", None);
    check(&resolve_imgur_unknown(&p, true, true).unwrap(), "https://imgur.com/xyz.jpg", "jpg", None);
    check(&resolve_imgur_unknown(&p, false, true).unwrap(), "https://imgur.com/xyz.png", "png", None);
    assert_eq!(error(resolve_imgur_unknown(&p, false, false)), ResolveError::UnknownImageType);
    assert_eq!(error(resolve_imgur_unknown(&post(None), true, true)), ResolveError::UnsupportedUrl);
    assert_eq!(
        error(resolve_imgur_unknown(&untitled(Some("https://imgur.com/xyz")), true, false)),
        ResolveError::MissingTitle
    );
}

#[test]
fn giphy_media_url_is_used_as_it_stands() {
    for extension in ["gif", "mp4", "gifv"] {
        let url = format!("https://media2.giphy.com/media/abc123/giphy.{}", extension);
        let task = resolve_giphy(&post(Some(&url))).unwrap();
        check(&task, &url, extension, None);
    }
}

#[test]
fn giphy_page_is_rebuilt_from_its_path() {
    let task =
        resolve_giphy(&post(Some("https://giphy.com/gifs/lightning-storm-sc-l0HlBO7eyXzSZkJri")))
            .unwrap();
    check(&task, "https://media.giphy.com/media/l0HlBO7eyXzSZkJri.gif", "gif", None);
    // a media host with another extension is a page too
    let task = resolve_giphy(&post(Some("https://media.giphy.com/media/some-id/giphy.webp"))).unwrap();
    check(&task, "https://media.giphy.com/media/id/giphy.webp.gif", "gif", None);
    // the query is no part of the path
    let task = resolve_giphy(&post(Some("https://giphy.com/gifs/a-b-c?utm=x-y"))).unwrap();
    check(&task, "https://media.giphy.com/media/c.gif", "gif", None);
}

#[test]
fn giphy_errors() {
    assert_eq!(error(resolve_giphy(&post(None))), ResolveError::UnsupportedUrl);
    assert_eq!(error(resolve_giphy(&post(Some("no url")))), ResolveError::UnsupportedUrl);
    assert_eq!(
        error(resolve_giphy(&untitled(Some("https://giphy.com/gifs/a-b")))),
        ResolveError::MissingTitle
    );
    let p = post(Some("https://giphy.com/gifs/a-b"));
    let host = String::from("giphy.com");
    let path = String::from("/gifs/a-b");
    assert_eq!(error(giphy_from_parts(&p, Some(&host), None)), ResolveError::UnsupportedUrl);
    assert_eq!(error(giphy_from_parts(&p, None, Some(&path))), ResolveError::UnsupportedUrl);
    check(
        &giphy_from_parts(&p, Some(&host), Some(&path)).unwrap(),
        "https://media.giphy.com/media/b.gif",
        "gif",
        None,
    );
}

#[test]
fn giphy_media_host_is_told_by_the_host_only() {
    // the name of a media host in the path does not make a media URL
    let task = resolve_giphy(&post(Some("https://giphy.com/media.giphy.com/a-b.gif"))).unwrap();
    check(&task, "https://media.giphy.com/media/b.gif.gif", "gif", None);
    let task = resolve_giphy(&post(Some("https://media3.giphy.com/media/x-y/giphy.mp4"))).unwrap();
    check(&task, "https://media3.giphy.com/media/x-y/giphy.mp4", "mp4", None);
}

#[test]
fn gallery_yields_one_task_for_each_item() {
    let mut p = post(Some("https://www.reddit.com/gallery/abc"));
    p.data.gallery_data = Some(GalleryItems {
        items: vec![
            GalleryItem { media_id: String::from("m1"), id: 1 },
            GalleryItem { media_id: String::from("m2"), id: 2 },
            GalleryItem { media_id: String::from("m3"), id: 3 },
        ],
    });
    p.data.media_metadata = Some(metadata(&[("m2", "image/png"), ("m1", "image/gif")]));
    let tasks = resolve_gallery(&p).unwrap();
    assert_eq!(tasks.len(), 3);
    check(&tasks[0], "https://i.redd.it/m1.gif", "gif", Some(0));
    check(&tasks[1], "https://i.redd.it/m2.png", "png", Some(1));
    check(&tasks[2], "https://i.redd.it/m3.jpg", "jpg", Some(2));
}

#[test]
fn gallery_metadata_holds_one_entry_for_a_media_id() {
    let mut p = post(None);
    p.data.gallery_data =
        Some(GalleryItems { items: vec![GalleryItem { media_id: String::from("m"), id: 1 }] });
    // what is stored later for a media id takes the place of what was stored
    let table = metadata(&[("m", "image/webp"), ("n", "image/gif"), ("m", "image/png")]);
    assert_eq!(table.entries().len(), 2);
    p.data.media_metadata = Some(table);
    let tasks = resolve_gallery(&p).unwrap();
    assert_eq!(tasks.len(), 1);
    check(&tasks[0], "https://i.redd.it/m.png", "png", Some(0));
}

#[test]
fn gallery_errors() {
    let mut p = post(None);
    assert_eq!(error(resolve_gallery(&p)), ResolveError::MissingGallery);
    p.data.gallery_data = Some(GalleryItems { items: Vec::new() });
    assert_eq!(error(resolve_gallery(&p)), ResolveError::MissingGallery);
    p.data.media_metadata = Some(Table::new());
    assert_eq!(resolve_gallery(&p).unwrap().len(), 0);
    p.data.title = None;
    assert_eq!(resolve_gallery(&p).unwrap().len(), 0);
    p.data.gallery_data =
        Some(GalleryItems { items: vec![GalleryItem { media_id: String::from("m"), id: 1 }] });
    assert_eq!(error(resolve_gallery(&p)), ResolveError::MissingTitle);
}

#[test]
fn redgif_lookup_names_the_item_and_the_token() {
    let token = String::from("tok123");
    let p = post(Some("https://redgifs.com/watch/someclip/?x=1"));
    let lookup = redgif_lookup(&p, Some(&token)).unwrap();
    assert_eq!(lookup.api_url, "https://api.redgifs.com/v2/gifs/someclip");
    assert_eq!(lookup.authorization, "Bearer tok123");
    assert_eq!(error(redgif_lookup(&p, None)), ResolveError::MissingToken);
    assert_eq!(error(redgif_lookup(&post(None), Some(&token))), ResolveError::UnsupportedUrl);
    assert_eq!(error(redgif_lookup(&post(None), None)), ResolveError::UnsupportedUrl);
    assert_eq!(redgif_token_url(), "https://api.redgifs.com/v2/auth/temporary");
}

#[test]
fn redgif_answer_gives_the_high_definition_video() {
    let answer = RedGif {
        gif: InnerGif {
            id: String::from("someclip"),
            urls: MediaInfo {
                sd: String::from("https://media.redgifs.com/clip-mobile.mp4"),
                hd: String::from("https://media.redgifs.com/clip.mp4"),
            },
        },
    };
    let p = post(Some("https://redgifs.com/watch/someclip"));
    check(&resolve_redgif(&p, &answer).unwrap(), "https://media.redgifs.com/clip.mp4", "mp4", None);
    assert_eq!(error(resolve_redgif(&untitled(None), &answer)), ResolveError::MissingTitle);
}

#[test]
fn streamable_lookup_adds_the_path_to_the_api() {
    assert_eq!(
        streamable_lookup(&post(Some("https://streamable.com/abcd?src=x"))),
        Ok(String::from("https://api.streamable.com/videos/abcd"))
    );
    assert_eq!(
        streamable_lookup(&post(Some("https://streamable.com:8443/abcd/"))),
        Ok(String::from("https://api.streamable.com/videos:8443/abcd"))
    );
    assert_eq!(streamable_lookup(&post(None)), Err(ResolveError::UnsupportedUrl));
    assert_eq!(streamable_lookup(&post(Some("nothing"))), Err(ResolveError::UnsupportedUrl));
    assert_eq!(streamable_lookup_from_path(None), Err(ResolveError::UnsupportedUrl));
    assert_eq!(
        streamable_lookup_from_path(Some(&String::from("/x"))),
        Ok(String::from("https://api.streamable.com/videos/x"))
    );
}

#[test]
fn streamable_answer_needs_a_video_file() {
    let p = post(Some("https://streamable.com/abcd"));
    let answer = files(&[("mp4-mobile", Some("https://cdn/m.mp4")), ("mp4", Some("https://cdn/v.mp4"))]);
    check(&resolve_streamable(&p, &answer).unwrap(), "https://cdn/v.mp4", "mp4", None);
    let answer = files(&[("mp4-mobile", Some("https://cdn/m.mp4"))]);
    assert_eq!(error(resolve_streamable(&p, &answer)), ResolveError::NoVideoFile);
    let answer = files(&[]);
    assert_eq!(error(resolve_streamable(&p, &answer)), ResolveError::NoVideoFile);
    let answer = files(&[("mp4", None)]);
    assert_eq!(error(resolve_streamable(&p, &answer)), ResolveError::NoVideoFile);
    let answer = files(&[("mp4", Some("https://cdn/v.mp4"))]);
    assert_eq!(
        error(resolve_streamable(&untitled(Some("https://streamable.com/abcd")), &answer)),
        ResolveError::MissingTitle
    );
}

#[test]
fn native_video_names_its_manifest() {
    let p = video_post("https://v.redd.it/clip", "https://v.redd.it/clip/DASH_720.mp4?source=fallback");
    assert_eq!(manifest_link(&p), Ok(String::from("https://v.redd.it/clip/DASHPlaylist.mpd")));
    assert_eq!(manifest_link(&post(Some("https://v.redd.it/clip"))), Err(ResolveError::MissingMedia));
    assert_eq!(manifest_link(&post(None)), Err(ResolveError::UnsupportedUrl));
    let mut no_video = post(Some("https://v.redd.it/clip"));
    no_video.data.media = Some(PostMedia { reddit_video: None });
    assert_eq!(manifest_link(&no_video), Err(ResolveError::MissingFallback));
}

#[test]
fn native_video_with_audio_yields_two_tasks() {
    let p = video_post("https://v.redd.it/clip", "https://v.redd.it/clip/DASH_720.mp4?source=fallback");
    let video = String::from("DASH_1080.mp4");
    let audio = String::from("DASH_AUDIO_128.mp4");
    let tasks = resolve_reddit_video(&p, Some(&video), Some(&audio)).unwrap();
    assert_eq!(tasks.len(), 2);
    // the fallback names a stream already: the manifest's video is not used
    check(&tasks[0], "https://v.redd.it/clip/DASH_720.mp4", "mp4", None);
    check(&tasks[1], "https://v.redd.it/clip/DASH_AUDIO_128.mp4", "mp4", Some(1));
}

#[test]
fn native_video_without_audio_yields_one_task() {
    let p = video_post("https://v.redd.it/clip", "https://v.redd.it/clip/DASH_720.mp4?source=fallback");
    let tasks = resolve_reddit_video(&p, None, None).unwrap();
    assert_eq!(tasks.len(), 1);
    check(&tasks[0], "https://v.redd.it/clip/DASH_720.mp4", "mp4", None);
}

#[test]
fn native_video_takes_the_video_from_the_manifest() {
    let p = video_post("https://v.redd.it/clip", "https://v.redd.it/clip/CMAF_480.mp4?source=fallback");
    let video = String::from("CMAF_1080.mp4");
    let audio = String::from("CMAF_AUDIO_128.mp4");
    let tasks = resolve_reddit_video(&p, Some(&video), Some(&audio)).unwrap();
    assert_eq!(tasks.len(), 2);
    check(&tasks[0], "https://v.redd.it/clip/CMAF_1080.mp4", "mp4", None);
    check(&tasks[1], "https://v.redd.it/clip/CMAF_AUDIO_128.mp4", "mp4", Some(1));
    assert_eq!(error(resolve_reddit_video(&p, None, Some(&audio))), ResolveError::NoVideoInManifest);
    assert_eq!(error(resolve_reddit_video(&p, None, None)), ResolveError::NoVideoInManifest);
}

#[test]
fn native_video_url_that_names_the_container_is_used() {
    let p = video_post("https://v.redd.it/clip/DASH_96.mp4", "https://v.redd.it/other/DASH_720.mp4?source=fallback");
    let tasks = resolve_reddit_video(&p, Some(&String::from("x.mp4")), None).unwrap();
    assert_eq!(tasks.len(), 1);
    check(&tasks[0], "https://v.redd.it/clip/DASH_96.mp4", "mp4", None);
}

#[test]
fn native_video_errors() {
    let video = String::from("v.mp4");
    assert_eq!(error(resolve_reddit_video(&post(None), Some(&video), None)), ResolveError::UnsupportedUrl);
    assert_eq!(
        error(resolve_reddit_video(&post(Some("https://v.redd.it/clip")), Some(&video), None)),
        ResolveError::MissingMedia
    );
    let mut no_video = post(Some("https://v.redd.it/clip"));
    no_video.data.media = Some(PostMedia { reddit_video: None });
    assert_eq!(error(resolve_reddit_video(&no_video, Some(&video), None)), ResolveError::MissingFallback);
    let mut p = video_post("https://v.redd.it/clip", "https://v.redd.it/clip/DASH_720.mp4");
    p.data.title = None;
    assert_eq!(error(resolve_reddit_video(&p, Some(&video), None)), ResolveError::MissingTitle);
}
