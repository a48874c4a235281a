use gert::download::{DownloadTask, Downloader};
use gert::structs::{Post, PostData};

fn downloader(human_readable: bool) -> Downloader {
    Downloader::new(Vec::new(), "data", true, human_readable, true, false)
}

fn task(url: &str, extension: &str, index: Option<usize>) -> DownloadTask {
    DownloadTask {
        url: String::from(url),
        subreddit: String::from("pics"),
        extension: String::from(extension),
        post_name: String::from("t3_abc.def"),
        post_title: String::from("A Title: with/chars?"),
        index,
    }
}

#[test]
fn new_downloader_keeps_its_settings() {
    let d = Downloader::new(Vec::new(), "out/dir", false, true, false, true);
    assert_eq!(d.data_directory, "out/dir");
    assert!(!d.should_download);
    assert!(d.use_human_readable);
    assert!(!d.ffmpeg_available);
    assert!(d.conserve_gifs);
    assert_eq!(d.ephemeral_token, None);
    assert!(d.posts.is_empty());
}

#[test]
fn digest_name_is_the_md5_of_the_url() {
    let d = downloader(false);
    let name = d.generate_file_name("https://i.redd.it/abc123.jpg", "pics", "jpg", "t3_x", "T", None);
    assert_eq!(name, "data/pics/59f35716598247d2aa36c0cc918887ac.jpg");
}

#[test]
fn digest_name_ignores_query_and_fragment() {
    let d = downloader(false);
    let plain = d.generate_file_name("https://i.redd.it/abc123.jpg", "pics", "jpg", "n", "t", None);
    let query = d.generate_file_name(
        "https://i.redd.it/abc123.jpg?width=100&s=1f",
        "pics",
        "jpg",
        "n",
        "t",
        None,
    );
    let fragment = d.generate_file_name("https://i.redd.it/abc123.jpg#top", "pics", "jpg", "n", "t", None);
    let both = d.generate_file_name("https://i.redd.it/abc123.jpg?a=b#c", "pics", "jpg", "n", "t", None);
    assert_eq!(plain, "data/pics/59f35716598247d2aa36c0cc918887ac.jpg");
    assert_eq!(query, plain);
    assert_eq!(fragment, plain);
    assert_eq!(both, plain);
}

#[test]
fn digest_name_uses_the_parsed_form_of_the_url() {
    let d = downloader(false);
    // the parser adds the path of a URL that has none
    let name = d.generate_file_name("https://example.com", "s", "png", "n", "t", None);
    assert_eq!(name, "data/s/182ccedb33a9e03fbf1079b209da1a31.png");
    // and writes what is not ASCII in percent form
    let name = d.generate_file_name("https://example.com/café.png", "s", "png", "n", "t", None);
    assert_eq!(name, "data/s/7bed5c7fd3342c858e8613bd6e45fdbd.png");
}

#[test]
fn digest_name_carries_every_index() {
    let d = downloader(false);
    let url = "https://i.imgur.com/a/xyz/zip";
    assert_eq!(
        d.generate_file_name(url, "IBM", "jpg", "n", "t", Some(0)),
        "data/IBM/afd32c70d1fd5efa8c4546f2d7ea6da8_0.jpg"
    );
    assert_ne!(
        d.generate_file_name(url, "IBM", "jpg", "n", "t", Some(0)),
        d.generate_file_name(url, "IBM", "jpg", "n", "t", None)
    );
    assert_eq!(
        d.generate_file_name(url, "IBM", "jpg", "n", "t", Some(1)),
        "data/IBM/afd32c70d1fd5efa8c4546f2d7ea6da8_1.jpg"
    );
    assert_eq!(
        d.generate_file_name(url, "IBM", "jpg", "n", "t", Some(12)),
        "data/IBM/afd32c70d1fd5efa8c4546f2d7ea6da8_12.jpg"
    );
    assert_eq!(
        d.generate_file_name(url, "IBM", "jpg", "n", "t", None),
        "data/IBM/afd32c70d1fd5efa8c4546f2d7ea6da8.jpg"
    );
}

#[test]
fn readable_name_joins_title_and_post_name() {
    let d = downloader(true);
    let name = d.generate_file_name(
        "https://i.redd.it/abc123.jpg",
        "pics",
        "jpg",
        "t3_abc",
        "Hello World",
        None,
    );
    assert_eq!(name, "data/pics/hello_world_t3_abc.jpg");
}

#[test]
fn readable_name_replaces_disallowed_characters() {
    let d = downloader(true);
    let name = d.generate_file_name(
        "ignored",
        "pics",
        "png",
        "t3_a.b",
        "A b.c/d\\e:f=g?h\"i<j>k|l*m",
        Some(3),
    );
    assert_eq!(name, "data/pics/a_b_c_d_e_f_g_h_i_j_k_l_m_t3_a_b_3.png");
}

#[test]
fn readable_name_lowers_the_case_of_the_title() {
    let d = downloader(true);
    let name = d.generate_file_name("u", "s", "gif", "n", "ÄÖÜ Straße ΣΑΣ", None);
    assert_eq!(name, format!("data/s/{}_n.gif", "ÄÖÜ Straße ΣΑΣ".to_lowercase().replace(' ', "_")));
    assert_eq!(name, "data/s/äöü_straße_σας_n.gif");
}

#[test]
fn readable_name_cuts_the_title_to_200_characters() {
    let d = downloader(true);
    let title: String = std::iter::repeat('X').take(250).collect();
    let name = d.generate_file_name("u", "s", "jpg", "n", &title, None);
    let kept: String = std::iter::repeat('x').take(200).collect();
    assert_eq!(name, format!("data/s/{}_n.jpg", kept));
    let title: String = std::iter::repeat('é').take(200).collect();
    let name = d.generate_file_name("u", "s", "jpg", "n", &title, None);
    assert_eq!(name, format!("data/s/{}_n.jpg", title));
}

#[test]
fn readable_name_carries_every_index() {
    let d = downloader(true);
    assert_eq!(d.generate_file_name("u", "s", "jpg", "t3_a", "T", None), "data/s/t_t3_a.jpg");
    assert_eq!(d.generate_file_name("u", "s", "jpg", "t3_a", "T", Some(0)), "data/s/t_t3_a_0.jpg");
    assert_eq!(d.generate_file_name("u", "s", "jpg", "t3_a", "T", Some(10)), "data/s/t_t3_a_10.jpg");
}

#[test]
fn readable_name_needs_no_url() {
    let d = downloader(true);
    let t = task("not a url", "jpg", Some(2));
    assert_eq!(
        d.try_get_filename(&t),
        Some(String::from("data/pics/a_title__with_chars__t3_abc_def_2.jpg"))
    );
    assert_eq!(d.get_filename(&t), "data/pics/a_title__with_chars__t3_abc_def_2.jpg");
}

#[test]
fn digest_name_needs_a_url_that_parses() {
    let d = downloader(false);
    assert_eq!(d.try_get_filename(&task("not a url", "jpg", None)), None);
    assert_eq!(d.try_get_filename(&task("", "jpg", None)), None);
    assert_eq!(d.try_get_filename(&task("/relative/path.jpg", "jpg", None)), None);
    assert_eq!(
        d.try_get_filename(&task("https://i.redd.it/abc123.jpg?x=1", "jpg", None)),
        Some(String::from("data/pics/59f35716598247d2aa36c0cc918887ac.jpg"))
    );
}

#[test]
fn file_name_of_a_task_uses_its_fields() {
    let d = downloader(false);
    let t = task("https://i.imgur.com/picture.gif", "gif", Some(4));
    assert_eq!(d.get_filename(&t), "data/pics/78d27701ab71e231dfcebe04c3cb16f4_4.gif");
}

#[test]
fn same_inputs_give_the_same_file_name() {
    for human_readable in [false, true] {
        let first = downloader(human_readable);
        let second = downloader(human_readable);
        let a = first.generate_file_name("https://example.com/", "s", "png", "t3_n", "Title", Some(2));
        let b = first.generate_file_name("https://example.com/", "s", "png", "t3_n", "Title", Some(2));
        let c = second.generate_file_name("https://example.com/", "s", "png", "t3_n", "Title", Some(2));
        assert_eq!(a, b);
        assert_eq!(a, c);
    }
}

#[test]
fn task_is_built_from_a_post() {
    let post = Post {
        kind: String::from("t3"),
        data: PostData {
            subreddit: String::from("wallpaper"),
            id: String::from("abc"),
            score: 5,
            thumbnail: None,
            subreddit_id: String::from("t5_1"),
            saved: false,
            permalink: String::from("/r/wallpaper/abc"),
            name: String::from("t3_abc"),
            url: Some(String::from("https://i.redd.it/x.png")),
            title: Some(String::from("The Title")),
            media_metadata: None,
            gallery_data: None,
            is_video: None,
            media: None,
            is_self: false,
        },
    };
    let t = DownloadTask::from_post(&post, "https://i.redd.it/x.png", "png", Some(1));
    assert_eq!(t.url, "https://i.redd.it/x.png");
    assert_eq!(t.subreddit, "wallpaper");
    assert_eq!(t.extension, "png");
    assert_eq!(t.post_name, "t3_abc");
    assert_eq!(t.post_title, "The Title");
    assert_eq!(t.index, Some(1));
}
