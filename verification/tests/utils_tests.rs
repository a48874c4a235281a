use gert::errors::GertError;
use gert::utils::{
    check_content_type, check_path_present, contains_any, get_user_agent_string, has_extension,
    judge_content_type, mask_sensitive, probe_found, UserEnv, VERSION,
};

#[test]
fn user_agent_names_program_version_and_user() {
    assert_eq!(get_user_agent_string("anon"), "gert:1.0.0 (by u/anon)");
    assert_eq!(get_user_agent_string(""), "gert:1.0.0 (by u/)");
    assert_eq!(get_user_agent_string("some_user"), format!("gert:{} (by u/some_user)", VERSION));
}

#[test]
fn empty_secret_is_marked() {
    assert_eq!(mask_sensitive(""), "<EMPTY>");
}

#[test]
fn short_secret_is_all_stars() {
    assert_eq!(mask_sensitive("a"), "*");
    assert_eq!(mask_sensitive("ab"), "**");
    assert_eq!(mask_sensitive("abc"), "***");
}

#[test]
fn long_secret_keeps_first_two_and_last() {
    assert_eq!(mask_sensitive("abcd"), "ab*d");
    assert_eq!(mask_sensitive("password"), "pa*****d");
    assert_eq!(mask_sensitive("hunter2"), "hu****2");
}

#[test]
fn secret_is_measured_in_bytes() {
    // two bytes, one character: one star for each byte
    assert_eq!(mask_sensitive("é"), "**");
    // six bytes, five characters: no character has index five
    assert_eq!(mask_sensitive("héllo"), "hé***");
    // four bytes, three characters
    assert_eq!(mask_sensitive("aéb"), "aé*");
}

#[test]
fn contains_any_looks_for_each_needle() {
    let hosts = ["media.giphy.com", "media0.giphy.com"];
    assert!(contains_any("https://media0.giphy.com/media/x/giphy.gif", &hosts));
    assert!(!contains_any("https://giphy.com/gifs/x", &hosts));
    assert!(!contains_any("https://giphy.com/gifs/x", &[]));
    assert!(contains_any("anything", &[""]));
}

#[test]
fn has_extension_compares_what_follows_the_last_dot() {
    assert!(has_extension("https://i.redd.it/a.jpg", &["jpg", "png", "jpeg"]));
    assert!(has_extension("https://i.redd.it/a.b.png", &["jpg", "png", "jpeg"]));
    assert!(!has_extension("https://i.redd.it/a.gif", &["jpg", "png", "jpeg"]));
    assert!(!has_extension("https://i.redd.it/jpg", &["jpg"]));
    assert!(!has_extension("https://i.redd.it/a.JPG", &["jpg"]));
    assert!(!has_extension("https://i.redd.it/a.jpg", &[]));
    assert!(has_extension("jpg", &["jpg"]));
}

#[test]
fn probe_without_content_type_finds_nothing() {
    assert_eq!(check_content_type(None, "jpeg"), Ok(false));
    assert_eq!(judge_content_type(false, None, "jpeg"), Ok(false));
    assert_eq!(judge_content_type(false, Some("jpeg"), "jpeg"), Ok(false));
}

#[test]
fn probe_finds_the_expected_image_type() {
    assert_eq!(check_content_type(Some("image/jpeg"), "jpeg"), Ok(true));
    assert_eq!(check_content_type(Some("image/png"), "png"), Ok(true));
    assert_eq!(check_content_type(Some("IMAGE/JPEG"), "jpeg"), Ok(true));
    assert_eq!(check_content_type(Some("image/png; charset=utf-8"), "png"), Ok(true));
    assert_eq!(check_content_type(Some("image/svg+xml"), "svg"), Ok(true));
    assert_eq!(judge_content_type(true, Some("png"), "png"), Ok(true));
}

#[test]
fn probe_does_not_find_another_type() {
    assert_eq!(check_content_type(Some("image/png"), "jpeg"), Ok(false));
    assert_eq!(check_content_type(Some("image/jpeg"), "png"), Ok(false));
    assert_eq!(check_content_type(Some("text/html; charset=utf-8"), "jpeg"), Ok(false));
    assert_eq!(check_content_type(Some("jpeg/image"), "jpeg"), Ok(false));
    assert_eq!(check_content_type(Some("image/jpeg"), "image/jpeg"), Ok(false));
    assert_eq!(judge_content_type(true, Some("png"), "jpeg"), Ok(false));
    assert_eq!(judge_content_type(true, Some("JPEG"), "jpeg"), Ok(false));
}

#[test]
fn probe_with_malformed_content_type_is_an_error() {
    assert_eq!(
        check_content_type(Some("not a media type"), "jpeg"),
        Err(GertError::FromStringConversionError)
    );
    assert_eq!(check_content_type(Some(""), "jpeg"), Err(GertError::FromStringConversionError));
    assert_eq!(check_content_type(Some("image"), "image"), Err(GertError::FromStringConversionError));
    assert_eq!(judge_content_type(true, None, "jpeg"), Err(GertError::FromStringConversionError));
}

#[test]
fn probe_error_counts_as_not_found() {
    assert!(probe_found(&Ok(true)));
    assert!(!probe_found(&Ok(false)));
    assert!(!probe_found(&Err(GertError::ReqwestError)));
    assert!(!probe_found(&Err(GertError::FromStringConversionError)));
}

#[test]
fn path_presence_is_read_from_disk() {
    assert!(check_path_present("."));
    assert!(!check_path_present("./no/such/path/at/all/4f1b"));
}

#[test]
fn user_env_holds_the_four_credentials() {
    let env = UserEnv {
        username: String::from("u"),
        password: String::from("p"),
        client_id: String::from("i"),
        client_secret: String::from("s"),
    };
    assert_eq!(mask_sensitive(&env.password), "*");
    assert_eq!(get_user_agent_string(&env.username), "gert:1.0.0 (by u/u)");
    assert_eq!(env.client_id, "i");
    assert_eq!(env.client_secret, "s");
}
