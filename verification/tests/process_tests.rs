use gert::download::{DownloadTask, Downloader};
use gert::errors::{GertError, ResolveError};
use gert::process::{
    finish_conversion, finish_extraction, finish_stitch, stitch_audio_video, stitch_inputs, FileOp,
    PostProcess, TranscoderRun,
};

fn task(url: &str, extension: &str) -> DownloadTask {
    DownloadTask {
        url: String::from(url),
        subreddit: String::from("IBM"),
        extension: String::from(extension),
        post_name: String::from("t3_abc"),
        post_title: String::from("PCjr wallpapers"),
        index: None,
    }
}

fn downloader(ffmpeg: bool, conserve: bool, human_readable: bool) -> Downloader {
    Downloader::new(Vec::new(), "data", true, human_readable, ffmpeg, conserve)
}

fn strings(v: &[&str]) -> Vec<String> {
    v.iter().map(|s| String::from(*s)).collect()
}

#[test]
fn without_the_transcoder_every_file_is_kept() {
    let d = downloader(false, false, false);
    assert_eq!(d.post_process("data/s/a.gif", &task("u", "gif")), PostProcess::Keep);
    assert_eq!(d.post_process("data/s/a.zip", &task("u", "zip")), PostProcess::Keep);
    assert_eq!(d.post_process("data/s/a.jpg", &task("u", "jpg")), PostProcess::Keep);
}

#[test]
fn animated_image_is_converted() {
    let d = downloader(true, false, false);
    assert_eq!(
        d.post_process("data/gifs/d545.gif", &task("u", "gif")),
        PostProcess::Convert {
            output_file: String::from("data/gifs/d545.mp4"),
            arguments: strings(&[
                "-i",
                "data/gifs/d545.gif",
                "-movflags",
                "+faststart",
                "-pix_fmt",
                "yuv420p",
                "-vf",
                "scale=trunc(iw/2)*2:trunc(ih/2)*2",
                "data/gifs/d545.mp4",
            ]),
        }
    );
}

#[test]
fn conserved_animated_image_is_kept() {
    let d = downloader(true, true, false);
    assert_eq!(d.post_process("data/gifs/d545.gif", &task("u", "gif")), PostProcess::Keep);
}

#[test]
fn archive_is_extracted_and_other_files_are_kept() {
    for conserve in [false, true] {
        let d = downloader(true, conserve, false);
        assert_eq!(d.post_process("data/IBM/d357.zip", &task("u", "zip")), PostProcess::Extract);
        assert_eq!(d.post_process("data/IBM/d357.jpg", &task("u", "jpg")), PostProcess::Keep);
        assert_eq!(d.post_process("data/IBM/d357.mp4", &task("u", "mp4")), PostProcess::Keep);
        assert_eq!(d.post_process("data/IBM/d357.gifv", &task("u", "gifv")), PostProcess::Keep);
    }
}

#[test]
fn conversion_that_succeeded_removes_the_animated_image() {
    let outcome = finish_conversion("data/s/a.gif", "data/s/a.mp4", TranscoderRun::Succeeded);
    assert_eq!(outcome.cleanup, vec![FileOp::Remove(String::from("data/s/a.gif"))]);
    assert_eq!(outcome.result, Ok(String::from("data/s/a.mp4")));
}

#[test]
fn conversion_that_failed_keeps_the_animated_image() {
    let outcome = finish_conversion("data/s/a.gif", "data/s/a.mp4", TranscoderRun::Failed);
    assert_eq!(outcome.cleanup, Vec::new());
    assert_eq!(
        outcome.result,
        Err(GertError::FfmpegError(String::from("Failed to convert gif to mp4")))
    );
}

#[test]
fn conversion_is_not_run_where_the_video_is_there() {
    let outcome = finish_conversion("data/s/a.gif", "data/s/a.mp4", TranscoderRun::NotNeeded);
    assert_eq!(outcome.cleanup, Vec::new());
    assert_eq!(outcome.result, Ok(String::from("data/s/a.mp4")));
}

#[test]
fn files_are_merged_where_both_tasks_ended_with_one() {
    let video = Some(String::from("data/s/v.mp4"));
    let audio = Some(String::from("data/s/a_1.mp4"));
    assert_eq!(
        stitch_inputs(&vec![video.clone(), audio.clone()]),
        Some((String::from("data/s/v.mp4"), String::from("data/s/a_1.mp4")))
    );
    assert_eq!(stitch_inputs(&vec![video.clone(), None]), None);
    assert_eq!(stitch_inputs(&vec![None, audio.clone()]), None);
    assert_eq!(stitch_inputs(&vec![None, None]), None);
    assert_eq!(stitch_inputs(&vec![video.clone()]), None);
    assert_eq!(stitch_inputs(&Vec::new()), None);
    assert_eq!(stitch_inputs(&vec![video.clone(), audio.clone(), audio]), None);
}

#[test]
fn archive_entries_are_named_after_the_task() {
    let d = downloader(true, false, false);
    let t = task("https://i.imgur.com/a/xyz/zip", "zip");
    let targets = d.archive_targets(&t, &strings(&["first.jpg", "second.png", "third", "dir/fourth.tar.gz"]));
    assert_eq!(
        targets,
        Some(strings(&[
            "data/IBM/afd32c70d1fd5efa8c4546f2d7ea6da8_0.jpg",
            "data/IBM/afd32c70d1fd5efa8c4546f2d7ea6da8_1.png",
            "data/IBM/afd32c70d1fd5efa8c4546f2d7ea6da8_2.third",
            "data/IBM/afd32c70d1fd5efa8c4546f2d7ea6da8_3.gz",
        ]))
    );
    assert_eq!(d.archive_targets(&t, &Vec::new()), Some(Vec::new()));
}

#[test]
fn archive_entries_in_readable_form() {
    let d = downloader(true, false, true);
    let t = task("https://i.imgur.com/a/xyz/zip", "zip");
    assert_eq!(
        d.archive_targets(&t, &strings(&["a.jpg", "b.jpg"])),
        Some(strings(&[
            "data/IBM/pcjr_wallpapers_t3_abc_0.jpg",
            "data/IBM/pcjr_wallpapers_t3_abc_1.jpg",
        ]))
    );
}

#[test]
fn archive_of_a_task_without_a_name_has_no_targets() {
    let d = downloader(true, false, false);
    assert_eq!(d.archive_targets(&task("not a url", "zip"), &strings(&["a.jpg"])), None);
    assert_eq!(d.archive_targets(&task("not a url", "zip"), &Vec::new()), None);
}

#[test]
fn extraction_removes_the_archive() {
    let outcome = finish_extraction("data/IBM/d357.zip", true);
    assert_eq!(outcome.cleanup, vec![FileOp::Remove(String::from("data/IBM/d357.zip"))]);
    assert_eq!(outcome.result, Ok(String::from("data/IBM/d357.zip")));
}

#[test]
fn extraction_that_failed_keeps_the_archive() {
    let outcome = finish_extraction("data/IBM/d357.zip", false);
    assert_eq!(outcome.cleanup, Vec::new());
    assert_eq!(outcome.result, Err(GertError::ZipError));
}

#[test]
fn stitch_maps_audio_and_video_into_one_file() {
    let plan = stitch_audio_video("data/s/88d2.mp4", "data/s/c5e8_1.mp4");
    assert_eq!(plan.output_file, "data/s/88d2-merged.mp4");
    assert_eq!(
        plan.arguments,
        strings(&[
            "-i",
            "data/s/88d2.mp4",
            "-i",
            "data/s/c5e8_1.mp4",
            "-c",
            "copy",
            "-map",
            "1:a",
            "-map",
            "0:v",
            "data/s/88d2-merged.mp4",
        ])
    );
}

#[test]
fn stitch_that_succeeded_leaves_the_merged_file_at_the_video_path() {
    let outcome = finish_stitch("data/s/88d2.mp4", "data/s/c5e8_1.mp4", true);
    assert_eq!(
        outcome.cleanup,
        vec![
            FileOp::Remove(String::from("data/s/88d2.mp4")),
            FileOp::Remove(String::from("data/s/c5e8_1.mp4")),
            FileOp::Rename {
                from: String::from("data/s/88d2-merged.mp4"),
                to: String::from("data/s/88d2.mp4"),
            },
        ]
    );
    assert_eq!(outcome.result, Ok(String::from("data/s/88d2.mp4")));
}

#[test]
fn stitch_that_failed_removes_the_audio_only() {
    let outcome = finish_stitch("data/s/88d2.mp4", "data/s/c5e8_1.mp4", false);
    assert_eq!(outcome.cleanup, vec![FileOp::Remove(String::from("data/s/c5e8_1.mp4"))]);
    assert_eq!(
        outcome.result,
        Err(GertError::FfmpegError(String::from("Failed to merge audio and video")))
    );
}

#[test]
fn error_messages() {
    assert_eq!(GertError::EnvVarNotPresent.message(), "Missing environment variable");
    assert_eq!(GertError::ReqwestError.message(), "Unable to process request");
    assert_eq!(GertError::CouldNotCreateDirectory.message(), "Could not create directory");
    assert_eq!(
        GertError::CouldNotSaveImageError(String::from("a.jpg")).message(),
        "Could not save image `a.jpg` to filesystem"
    );
    assert_eq!(
        GertError::CouldNotCreateImageError(String::from("a.jpg"), String::from("u")).message(),
        "Could not create image `a.jpg` from `u`"
    );
    assert_eq!(GertError::TokioJoinError.message(), "Unable to join tasks");
    assert_eq!(GertError::ParsingIntError.message(), "Could not save string to int");
    assert_eq!(GertError::TryFromIntError.message(), "Could not save usize to int");
    assert_eq!(
        GertError::DataDirNotFound.message(),
        "Data directory not found, please check if it exists"
    );
    assert_eq!(GertError::IoError.message(), "Could not create or save image");
    assert_eq!(GertError::UrlError.message(), "Unable to parse URL");
    assert_eq!(GertError::UrlNotFound(String::from("u")).message(), "Could not reach URL `u`");
    assert_eq!(GertError::ToStringConversionError.message(), "Could not convert to string");
    assert_eq!(GertError::FromStringConversionError.message(), "Could not convert from string");
    assert_eq!(
        GertError::JsonParseError(String::from("https://x/y.json")).message(),
        "Error parsing JSON from https://x/y.json"
    );
    assert_eq!(GertError::FfmpegError(String::from("boom")).message(), "Ffmpeg error boom");
    assert_eq!(GertError::ZipError.message(), "Error unzipping file");
    assert_eq!(GertError::ImgurRemovedError.message(), "Media has been removed from imgur");
}

#[test]
fn resolve_error_messages() {
    assert_eq!(ResolveError::UnsupportedUrl.message(), "Unsupported URL");
    assert_eq!(ResolveError::MissingTitle.message(), "No title found");
    assert_eq!(ResolveError::MissingGallery.message(), "No gallery data found");
    assert_eq!(ResolveError::MissingMedia.message(), "No media data found");
    assert_eq!(ResolveError::MissingFallback.message(), "No fallback url found in reddit video");
    assert_eq!(ResolveError::NoVideoInManifest.message(), "Could not find video in MPD");
    assert_eq!(ResolveError::MissingToken.message(), "No Redgif token found");
    assert_eq!(ResolveError::UnknownImageType.message(), "Cannot determine imgur image type");
    assert_eq!(
        ResolveError::NoVideoFile.message(),
        "No mp4 file found in streamable API response"
    );
}
