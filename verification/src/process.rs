//! What is done with a file once it is fetched: conversion of animated
//! images, extraction of archives, and the merging of audio and video.

use crate::download::{
    converted_path, index_suffix, lemma_file_name_ends_with_extension, lemma_file_name_length,
    lemma_file_name_parts, lemma_file_names_differ_by_index, DownloadTask, Downloader, TaskModel,
    GIF, JPG, MP4, ZIP,
};
use crate::errors::GertError;
use crate::links::stripped_link;
use crate::text::{
    chars_of, contains, decimal, ends_with, last_segment, last_segment_chars,
    lemma_last_segment_has_no_delimiter, lemma_replace_changes, lemma_replace_grows, occurs_at,
    replace_all, replace_chars, same_text, string_of, texts,
};
use vstd::prelude::*;

verus! {

broadcast use vstd::string::group_string_axioms;

/// A change to the files on disk that follows a run of the transcoder or an
/// extraction.
#[derive(Debug, Clone, PartialEq, Eq)]
pub enum FileOp {
    /// The file at this path is removed.
    Remove(String),
    /// The file at `from` is moved to `to`, in place of what was there.
    Rename { from: String, to: String },
}

/// A file operation as values.
pub enum FileOpModel {
    Remove(Seq<char>),
    Rename { from: Seq<char>, to: Seq<char> },
}

impl View for FileOp {
    type V = FileOpModel;

    open spec fn view(&self) -> FileOpModel {
        match self {
            FileOp::Remove(path) => FileOpModel::Remove(path@),
            FileOp::Rename { from, to } => FileOpModel::Rename { from: from@, to: to@ },
        }
    }
}

/// The models of a sequence of file operations.
pub open spec fn ops_model(ops: Seq<FileOp>) -> Seq<FileOpModel> {
    ops.map_values(|op: FileOp| op@)
}

/// The paths at which a file exists after `op`, where files existed at the
/// paths `files` before.
pub open spec fn apply(files: Set<Seq<char>>, op: FileOpModel) -> Set<Seq<char>> {
    match op {
        FileOpModel::Remove(path) => files.remove(path),
        FileOpModel::Rename { from, to } => if files.contains(from) {
            files.remove(from).insert(to)
        } else {
            files
        },
    }
}

/// The paths at which a file exists after the operations `ops`, in order.
pub open spec fn apply_all(files: Set<Seq<char>>, ops: Seq<FileOpModel>) -> Set<Seq<char>>
    decreases ops.len(),
{
    if ops.len() == 0 {
        files
    } else {
        apply_all(apply(files, ops[0]), ops.skip(1))
    }
}

/// How a step of the post-processing ends: the file operations that remain
/// to be done, in order, and then the path of the finished file or the error.
#[derive(Debug, PartialEq, Eq)]
pub struct Outcome {
    pub cleanup: Vec<FileOp>,
    pub result: Result<String, GertError>,
}

/// An outcome as values: the operations, and the path of the finished file
/// or the message of the error.
pub struct OutcomeModel {
    pub cleanup: Seq<FileOpModel>,
    pub result: Result<Seq<char>, Seq<char>>,
}

impl View for Outcome {
    type V = OutcomeModel;

    open spec fn view(&self) -> OutcomeModel {
        OutcomeModel {
            cleanup: ops_model(self.cleanup@),
            result: match self.result {
                Ok(path) => Ok(path@),
                Err(e) => Err(e.message_spec()),
            },
        }
    }
}

/// The message of a failure of the transcoder.
pub open spec fn transcoder_failure(detail: Seq<char>) -> Seq<char> {
    "Ffmpeg error "@ + detail
}

/// What is done with a fetched file.
#[derive(Debug, Clone, PartialEq, Eq)]
pub enum PostProcess {
    /// Nothing: the fetched file is the finished file.
    Keep,
    /// The animated image is converted to a video at `output_file` by a run
    /// of the transcoder with `arguments`, unless a file exists there.
    Convert { output_file: String, arguments: Vec<String> },
    /// The entries of the archive are written out, each under its own name.
    Extract,
}

/// A post-processing step as values.
pub enum PostProcessModel {
    Keep,
    Convert { output_file: Seq<char>, arguments: Seq<Seq<char>> },
    Extract,
}

impl View for PostProcess {
    type V = PostProcessModel;

    open spec fn view(&self) -> PostProcessModel {
        match self {
            PostProcess::Keep => PostProcessModel::Keep,
            PostProcess::Convert { output_file, arguments } => PostProcessModel::Convert {
                output_file: output_file@,
                arguments: texts(arguments@),
            },
            PostProcess::Extract => PostProcessModel::Extract,
        }
    }
}

/// The arguments of the transcoder for the conversion of `input` to a video
/// at `output`: fast start, a pixel format of even dimensions, and a scale
/// that makes both dimensions even.
pub open spec fn conversion_arguments(input: Seq<char>, output: Seq<char>) -> Seq<Seq<char>> {
    seq![
        "-i"@,
        input,
        "-movflags"@,
        "+faststart"@,
        "-pix_fmt"@,
        "yuv420p"@,
        "-vf"@,
        "scale=trunc(iw/2)*2:trunc(ih/2)*2"@,
        output,
    ]
}

/// The path at which the merged video is written before it takes the place
/// of the video-only file.
pub open spec fn merged_path(video_path: Seq<char>) -> Seq<char> {
    replace_all(video_path, ".mp4"@, "-merged.mp4"@)
}

/// The arguments of the transcoder for merging the audio of the second input
/// with the video of the first into `output`, both copied as they are.
pub open spec fn stitch_arguments(video: Seq<char>, audio: Seq<char>, output: Seq<char>) -> Seq<
    Seq<char>,
> {
    seq![
        "-i"@,
        video,
        "-i"@,
        audio,
        "-c"@,
        "copy"@,
        "-map"@,
        "1:a"@,
        "-map"@,
        "0:v"@,
        output,
    ]
}

/// A run of the transcoder that merges an audio file into a video file.
#[derive(Debug, Clone, PartialEq, Eq)]
pub struct StitchPlan {
    pub output_file: String,
    pub arguments: Vec<String>,
}

impl Downloader {
    /// What is done with the file of `task` once it is fetched. Without the
    /// transcoder, nothing. An animated image is converted unless the run
    /// conserves them. An archive is extracted.
    pub open spec fn post_process_spec(
        &self,
        download_path: Seq<char>,
        task: TaskModel,
    ) -> PostProcessModel {
        if !self.ffmpeg_available {
            PostProcessModel::Keep
        } else if task.extension == GIF@ && !self.conserve_gifs {
            PostProcessModel::Convert {
                output_file: converted_path(download_path),
                arguments: conversion_arguments(download_path, converted_path(download_path)),
            }
        } else if task.extension == ZIP@ {
            PostProcessModel::Extract
        } else {
            PostProcessModel::Keep
        }
    }

    /// Decides what is done with the file at `download_path`, fetched for
    /// `task`.
    pub fn post_process(&self, download_path: &str, task: &DownloadTask) -> (step: PostProcess)
        ensures
            step@ == self.post_process_spec(download_path@, task@),
    {
        if !self.ffmpeg_available {
            return PostProcess::Keep;
        }
        if same_text(task.extension.as_str(), GIF) && !self.conserve_gifs {
            let output_file = string_of(
                &replace_chars(&chars_of(download_path), &chars_of(".gif"), &chars_of(".mp4")),
            );
            let mut arguments: Vec<String> = Vec::new();
            arguments.push(String::from_str("-i"));
            arguments.push(String::from_str(download_path));
            arguments.push(String::from_str("-movflags"));
            arguments.push(String::from_str("+faststart"));
            arguments.push(String::from_str("-pix_fmt"));
            arguments.push(String::from_str("yuv420p"));
            arguments.push(String::from_str("-vf"));
            arguments.push(String::from_str("scale=trunc(iw/2)*2:trunc(ih/2)*2"));
            arguments.push(output_file.clone());
            assert(texts(arguments@) =~= conversion_arguments(download_path@, output_file@));
            return PostProcess::Convert { output_file, arguments };
        }
        if same_text(task.extension.as_str(), ZIP) {
            return PostProcess::Extract;
        }
        PostProcess::Keep
    }

    /// The file name under which entry `i` of the archive of `task` is
    /// written: that of the task, with the extension that stands after the
    /// last dot of the entry's name and with `i` as the component index.
    pub open spec fn entry_target(&self, task: TaskModel, name: Seq<char>, i: int) -> Option<
        Seq<char>,
    > {
        self.file_name(
            task.url,
            task.subreddit,
            last_segment(name, '.'),
            task.post_name,
            task.post_title,
            Some(i as usize),
        )
    }

    /// The file names for the entries of an archive, in the order of the
    /// entries. There are none for a task that has no file name.
    pub open spec fn archive_targets_spec(&self, task: TaskModel, names: Seq<Seq<char>>) -> Option<
        Seq<Seq<char>>,
    > {
        if self.task_file_name(task) is None {
            None
        } else {
            Some(Seq::new(names.len(), |i: int| self.entry_target(task, names[i], i)->0))
        }
    }

    /// Names the files that the entries of the archive of `task` are written
    /// to, given the names of the entries in the archive's order.
    pub fn archive_targets(&self, task: &DownloadTask, entry_names: &Vec<String>) -> (targets:
        Option<Vec<String>>)
        ensures
            match targets {
                Some(t) => Some(texts(t@)),
                None => None,
            } == self.archive_targets_spec(task@, texts(entry_names@)),
    {
        if !self.use_human_readable && stripped_link(task.url.as_str()).is_none() {
            return None;
        }
        let ghost names = texts(entry_names@);
        let mut targets: Vec<String> = Vec::new();
        let mut i: usize = 0;
        assert(texts(targets@) =~= Seq::new(
            0,
            |k: int| self.entry_target(task@, names[k], k)->0,
        ));
        while i < entry_names.len()
            invariant
                i <= entry_names.len(),
                names == texts(entry_names@),
                self.task_file_name(task@) is Some,
                targets@.len() == i,
                texts(targets@) == Seq::new(
                    i as nat,
                    |k: int| self.entry_target(task@, names[k], k)->0,
                ),
            decreases entry_names.len() - i,
        {
            let extension = string_of(
                &last_segment_chars(&chars_of(entry_names[i].as_str()), '.'),
            );
            assert(names[i as int] == entry_names@[i as int]@);
            let target = self.generate_file_name(
                task.url.as_str(),
                task.subreddit.as_str(),
                extension.as_str(),
                task.post_name.as_str(),
                task.post_title.as_str(),
                Some(i),
            );
            assert(Some(target@) == self.entry_target(task@, names[i as int], i as int));
            let ghost before = targets@;
            targets.push(target);
            proof {
                assert forall|k: int| 0 <= k <= i implies texts(targets@)[k] == self.entry_target(
                    task@,
                    names[k],
                    k,
                )->0 by {
                    if k < i {
                        assert(texts(before)[k] == self.entry_target(task@, names[k], k)->0);
                        assert(targets@[k] == before[k]);
                    }
                }
            }
            i = i + 1;
            assert(texts(targets@) =~= Seq::new(
                i as nat,
                |k: int| self.entry_target(task@, names[k], k)->0,
            ));
        }
        Some(targets)
    }
}

/// How the transcoder was run for a step.
#[derive(Debug, Clone, Copy, PartialEq, Eq, Structural)]
pub enum TranscoderRun {
    /// It was not run: the file that it would write is there already.
    NotNeeded,
    /// It was run and ended well.
    Succeeded,
    /// It was run and ended with an error.
    Failed,
}

/// How a conversion ends. Where the video is there already it is the
/// finished file, and nothing is removed. After a run that succeeded the
/// animated image is removed and the video is the finished file. A run that
/// failed is an error and leaves the animated image in place.
pub open spec fn conversion_outcome(
    download_path: Seq<char>,
    output_file: Seq<char>,
    run: TranscoderRun,
) -> OutcomeModel {
    match run {
        TranscoderRun::NotNeeded => OutcomeModel { cleanup: Seq::empty(), result: Ok(output_file) },
        TranscoderRun::Succeeded => OutcomeModel {
            cleanup: seq![FileOpModel::Remove(download_path)],
            result: Ok(output_file),
        },
        TranscoderRun::Failed => OutcomeModel {
            cleanup: Seq::empty(),
            result: Err(transcoder_failure("Failed to convert gif to mp4"@)),
        },
    }
}

/// Ends a conversion, given how the transcoder was run.
pub fn finish_conversion(download_path: &str, output_file: &str, run: TranscoderRun) -> (outcome:
    Outcome)
    ensures
        outcome@ == conversion_outcome(download_path@, output_file@, run),
        outcome.result is Err ==> outcome.result->Err_0 is FfmpegError,
{
    let mut cleanup: Vec<FileOp> = Vec::new();
    assert(ops_model(cleanup@) =~= Seq::empty());
    match run {
        TranscoderRun::NotNeeded => Outcome { cleanup, result: Ok(output_file.to_owned()) },
        TranscoderRun::Succeeded => {
            cleanup.push(FileOp::Remove(download_path.to_owned()));
            assert(ops_model(cleanup@) =~= seq![FileOpModel::Remove(download_path@)]);
            Outcome { cleanup, result: Ok(output_file.to_owned()) }
        },
        TranscoderRun::Failed => Outcome {
            cleanup,
            result: Err(GertError::FfmpegError(String::from_str("Failed to convert gif to mp4"))),
        },
    }
}

/// How an extraction ends. Where every entry was written the archive is
/// removed, and the path that it was fetched to stands for the finished
/// files. Where the archive could not be read, or an entry could not be
/// written, the extraction is an error and the archive stays in place.
pub open spec fn extraction_outcome(download_path: Seq<char>, extracted: bool) -> OutcomeModel {
    if extracted {
        OutcomeModel {
            cleanup: seq![FileOpModel::Remove(download_path)],
            result: Ok(download_path),
        }
    } else {
        OutcomeModel { cleanup: Seq::empty(), result: Err(GertError::ZipError.message_spec()) }
    }
}

/// Ends an extraction, given whether every entry of the archive was written.
pub fn finish_extraction(download_path: &str, extracted: bool) -> (outcome: Outcome)
    ensures
        outcome@ == extraction_outcome(download_path@, extracted),
        outcome.result is Err ==> outcome.result->Err_0 is ZipError,
{
    let mut cleanup: Vec<FileOp> = Vec::new();
    if extracted {
        cleanup.push(FileOp::Remove(download_path.to_owned()));
        assert(ops_model(cleanup@) =~= seq![FileOpModel::Remove(download_path@)]);
        Outcome { cleanup, result: Ok(download_path.to_owned()) }
    } else {
        assert(ops_model(cleanup@) =~= Seq::empty());
        Outcome { cleanup, result: Err(GertError::ZipError) }
    }
}

/// The run of the transcoder that merges the audio at `audio_path` into the
/// video at `video_path`.
pub fn stitch_audio_video(video_path: &str, audio_path: &str) -> (plan: StitchPlan)
    ensures
        plan.output_file@ == merged_path(video_path@),
        texts(plan.arguments@) == stitch_arguments(
            video_path@,
            audio_path@,
            merged_path(video_path@),
        ),
{
    let output_file = string_of(
        &replace_chars(&chars_of(video_path), &chars_of(".mp4"), &chars_of("-merged.mp4")),
    );
    let mut arguments: Vec<String> = Vec::new();
    arguments.push(String::from_str("-i"));
    arguments.push(String::from_str(video_path));
    arguments.push(String::from_str("-i"));
    arguments.push(String::from_str(audio_path));
    arguments.push(String::from_str("-c"));
    arguments.push(String::from_str("copy"));
    arguments.push(String::from_str("-map"));
    arguments.push(String::from_str("1:a"));
    arguments.push(String::from_str("-map"));
    arguments.push(String::from_str("0:v"));
    arguments.push(output_file.clone());
    assert(texts(arguments@) =~= stitch_arguments(video_path@, audio_path@, output_file@));
    StitchPlan { output_file, arguments }
}

/// The files to merge, given what the two tasks of a native video ended
/// with: the video's and the audio's, where both tasks ended with a file.
pub open spec fn stitch_inputs_spec(file_names: Seq<Option<String>>) -> Option<
    (Seq<char>, Seq<char>),
> {
    if file_names.len() == 2 && file_names[0] is Some && file_names[1] is Some {
        Some((file_names[0]->0@, file_names[1]->0@))
    } else {
        None
    }
}

/// Decides whether the files of a native video are merged. `file_names`
/// holds, for each of its tasks in order, the file that the task ended with.
pub fn stitch_inputs(file_names: &Vec<Option<String>>) -> (inputs: Option<(String, String)>)
    ensures
        match inputs {
            Some(pair) => Some((pair.0@, pair.1@)),
            None => None,
        } == stitch_inputs_spec(file_names@),
{
    if file_names.len() != 2 {
        return None;
    }
    match (&file_names[0], &file_names[1]) {
        (Some(video), Some(audio)) => Some((video.clone(), audio.clone())),
        _ => None,
    }
}

/// How a merge ends. After a run that succeeded both inputs are removed and
/// the merged file takes the place of the video; the video's path is the
/// finished file. After a run that failed the audio is removed, the video
/// stays in place, and the merge is an error.
pub open spec fn stitch_outcome(
    video_path: Seq<char>,
    audio_path: Seq<char>,
    succeeded: bool,
) -> OutcomeModel {
    if succeeded {
        OutcomeModel {
            cleanup: seq![
                FileOpModel::Remove(video_path),
                FileOpModel::Remove(audio_path),
                FileOpModel::Rename { from: merged_path(video_path), to: video_path },
            ],
            result: Ok(video_path),
        }
    } else {
        OutcomeModel {
            cleanup: seq![FileOpModel::Remove(audio_path)],
            result: Err(transcoder_failure("Failed to merge audio and video"@)),
        }
    }
}

/// Ends a merge, given whether the run of the transcoder succeeded.
pub fn finish_stitch(video_path: &str, audio_path: &str, succeeded: bool) -> (outcome: Outcome)
    ensures
        outcome@ == stitch_outcome(video_path@, audio_path@, succeeded),
        outcome.result is Err ==> outcome.result->Err_0 is FfmpegError,
{
    let mut cleanup: Vec<FileOp> = Vec::new();
    if succeeded {
        let output_file = string_of(
            &replace_chars(&chars_of(video_path), &chars_of(".mp4"), &chars_of("-merged.mp4")),
        );
        cleanup.push(FileOp::Remove(video_path.to_owned()));
        cleanup.push(FileOp::Remove(audio_path.to_owned()));
        cleanup.push(FileOp::Rename { from: output_file, to: video_path.to_owned() });
        assert(ops_model(cleanup@) =~= stitch_outcome(video_path@, audio_path@, true).cleanup);
        Outcome { cleanup, result: Ok(video_path.to_owned()) }
    } else {
        cleanup.push(FileOp::Remove(audio_path.to_owned()));
        assert(ops_model(cleanup@) =~= seq![FileOpModel::Remove(audio_path@)]);
        Outcome {
            cleanup,
            result: Err(
                GertError::FfmpegError(String::from_str("Failed to merge audio and video")),
            ),
        }
    }
}

/// A path that ends with a dot and an extension holds them.
proof fn lemma_ending_is_held(path: Seq<char>, extension: Seq<char>, dotted: Seq<char>)
    requires
        ends_with(path, seq!['.'] + extension),
        dotted == seq!['.'] + extension,
    ensures
        contains(path, dotted),
{
    assert(occurs_at(path, dotted, path.len() - dotted.len()));
}

/// An animated image that was fetched is replaced by a video where the
/// transcoder is at hand and the run does not conserve animated images:
/// after a run of the transcoder that wrote the video, the video is on disk
/// and the animated image is not. Where the run conserves animated images,
/// the fetched file is kept as it is.
pub proof fn lemma_conversion_replaces_animated_image(
    downloader: Downloader,
    task: TaskModel,
    download_path: Seq<char>,
    files: Set<Seq<char>>,
)
    requires
        downloader.ffmpeg_available,
        task.extension == GIF@,
        downloader.task_file_name(task) == Some(download_path),
    ensures
        !downloader.conserve_gifs ==> ({
            let output = converted_path(download_path);
            let end = conversion_outcome(download_path, output, TranscoderRun::Succeeded);
            let after = apply_all(files.insert(output), end.cleanup);
            &&& downloader.post_process_spec(download_path, task) == (PostProcessModel::Convert {
                output_file: output,
                arguments: conversion_arguments(download_path, output),
            })
            &&& end.result == Ok::<Seq<char>, Seq<char>>(output)
            &&& after.contains(output)
            &&& !after.contains(download_path)
        }),
        downloader.conserve_gifs ==> downloader.post_process_spec(download_path, task)
            == PostProcessModel::Keep,
{
    reveal_strlit("gif");
    reveal_strlit("zip");
    reveal_strlit(".gif");
    reveal_strlit(".mp4");
    let output = converted_path(download_path);
    lemma_file_name_ends_with_extension(
        downloader,
        task.url,
        task.subreddit,
        task.extension,
        task.post_name,
        task.post_title,
        task.index,
    );
    assert(".gif"@ =~= seq!['.'] + "gif"@);
    lemma_ending_is_held(download_path, "gif"@, ".gif"@);
    assert(GIF@ != ZIP@) by {
        assert("gif"@[0] == 'g');
        assert("zip"@[0] == 'z');
    }
    assert(".gif"@ != ".mp4"@) by {
        assert(".gif"@[1] == 'g');
        assert(".mp4"@[1] == 'm');
    }
    lemma_replace_changes(download_path, ".gif"@, ".mp4"@);
    let cleanup = conversion_outcome(download_path, output, TranscoderRun::Succeeded).cleanup;
    assert(cleanup.skip(1) =~= Seq::<FileOpModel>::empty());
    assert(apply_all(files.insert(output), cleanup) == apply_all(
        apply(files.insert(output), cleanup[0]),
        cleanup.skip(1),
    ));
}

/// An archive with N entries yields N files, in the order of the entries
/// and no two of them at one path. Each is named as the archive's task is,
/// with the extension of its entry and with the entry's place as its
/// component index: the file of entry `i` is the stem of the task's name,
/// the suffix `_i`, a dot and the entry's extension. Afterwards the archive
/// is removed.
pub proof fn lemma_archive_yields_one_file_per_entry(
    downloader: Downloader,
    task: TaskModel,
    names: Seq<Seq<char>>,
    download_path: Seq<char>,
    files: Set<Seq<char>>,
)
    requires
        downloader.task_file_name(task) is Some,
        names.len() <= usize::MAX,
    ensures
        downloader.archive_targets_spec(task, names) is Some,
        downloader.archive_targets_spec(task, names)->0.len() == names.len(),
        forall|i: int|
            0 <= i < names.len() ==> Some(
                #[trigger] downloader.archive_targets_spec(task, names)->0[i],
            ) == downloader.entry_target(task, names[i], i),
        forall|i: int|
            0 <= i < names.len() ==> #[trigger] downloader.archive_targets_spec(
                task,
                names,
            )->0[i] == downloader.stem(task.url, task.subreddit, task.post_name, task.post_title)
                + (seq!['_'] + decimal(i as nat)) + seq!['.'] + last_segment(names[i], '.'),
        forall|i: int, j: int|
            0 <= i < j < names.len() ==> #[trigger] downloader.archive_targets_spec(
                task,
                names,
            )->0[i] != #[trigger] downloader.archive_targets_spec(task, names)->0[j],
        !apply_all(files, extraction_outcome(download_path, true).cleanup).contains(
            download_path,
        ),
        apply_all(files, extraction_outcome(download_path, false).cleanup) == files,
{
    let targets = downloader.archive_targets_spec(task, names)->0;
    assert forall|i: int| 0 <= i < names.len() implies Some(#[trigger] targets[i])
        == downloader.entry_target(task, names[i], i) && targets[i] == downloader.stem(
        task.url,
        task.subreddit,
        task.post_name,
        task.post_title,
    ) + (seq!['_'] + decimal(i as nat)) + seq!['.'] + last_segment(names[i], '.') by {
        lemma_file_name_parts(
            downloader,
            task.url,
            task.subreddit,
            last_segment(names[i], '.'),
            task.post_name,
            task.post_title,
            Some(i as usize),
        );
    }
    assert forall|i: int, j: int| 0 <= i < j < names.len() implies #[trigger] targets[i]
        != #[trigger] targets[j] by {
        lemma_last_segment_has_no_delimiter(names[i], '.');
        lemma_last_segment_has_no_delimiter(names[j], '.');
        lemma_file_names_differ_by_index(
            downloader,
            task.url,
            task.subreddit,
            last_segment(names[i], '.'),
            last_segment(names[j], '.'),
            task.post_name,
            task.post_title,
            i as usize,
            j as usize,
        );
    }
    let cleanup = extraction_outcome(download_path, true).cleanup;
    assert(cleanup.skip(1) =~= Seq::<FileOpModel>::empty());
    assert(apply_all(files, cleanup) == apply_all(apply(files, cleanup[0]), cleanup.skip(1)));
}

/// The alternate path at which the run looks for the first still image of
/// an archive is the path at which the extraction writes the first entry,
/// where that entry is a still image.
pub proof fn lemma_first_entry_is_looked_for(
    downloader: Downloader,
    task: TaskModel,
    names: Seq<Seq<char>>,
)
    requires
        downloader.task_file_name(task) is Some,
        task.extension == ZIP@,
        names.len() > 0,
        last_segment(names[0], '.') == JPG@,
    ensures
        downloader.extracted_path(task) == Some(
            downloader.archive_targets_spec(task, names)->0[0],
        ),
{
}

/// The video and the audio of a native video are two tasks of one post: the
/// video has no component index and the audio has index 1. After a merge of
/// their files that succeeded one file is left: the merged file, at the
/// canonical path of the video. Nothing is left at the path of the audio nor
/// at the path where the merged file was written. After a merge that failed
/// the audio is removed and the video is where it was.
pub proof fn lemma_stitch_leaves_one_file(
    downloader: Downloader,
    video: TaskModel,
    audio: TaskModel,
    files: Set<Seq<char>>,
)
    requires
        video.extension == MP4@,
        audio.extension == MP4@,
        video.index is None,
        audio.index == Some(1usize),
        audio.subreddit == video.subreddit,
        audio.post_name == video.post_name,
        audio.post_title == video.post_title,
        downloader.task_file_name(video) is Some,
        downloader.task_file_name(audio) is Some,
    ensures
        ({
            let video_path = downloader.task_file_name(video)->0;
            let audio_path = downloader.task_file_name(audio)->0;
            let end = stitch_outcome(video_path, audio_path, true);
            let after = apply_all(files.insert(merged_path(video_path)), end.cleanup);
            &&& end.result == Ok::<Seq<char>, Seq<char>>(video_path)
            &&& after.contains(video_path)
            &&& !after.contains(audio_path)
            &&& !after.contains(merged_path(video_path))
        }),
        ({
            let video_path = downloader.task_file_name(video)->0;
            let audio_path = downloader.task_file_name(audio)->0;
            let end = stitch_outcome(video_path, audio_path, false);
            let after = apply_all(files, end.cleanup);
            &&& end.result is Err
            &&& !after.contains(audio_path)
            &&& after.contains(video_path) == files.contains(video_path)
        }),
{
    reveal_strlit("mp4");
    reveal_strlit(".mp4");
    reveal_strlit("-merged.mp4");
    let video_path = downloader.task_file_name(video)->0;
    let audio_path = downloader.task_file_name(audio)->0;
    let merged = merged_path(video_path);
    lemma_file_name_length(
        downloader,
        video.url,
        video.subreddit,
        video.extension,
        video.post_name,
        video.post_title,
        video.index,
    );
    lemma_file_name_length(
        downloader,
        audio.url,
        audio.subreddit,
        audio.extension,
        audio.post_name,
        audio.post_title,
        audio.index,
    );
    assert(index_suffix(video.index).len() == 0);
    assert(index_suffix(audio.index).len() == 2) by {
        reveal_with_fuel(crate::text::decimal, 2);
        assert(index_suffix(audio.index) == seq!['_'] + decimal(1));
        assert(decimal(1).len() == 1);
    }
    assert(audio_path.len() == video_path.len() + 2);
    lemma_file_name_ends_with_extension(
        downloader,
        video.url,
        video.subreddit,
        video.extension,
        video.post_name,
        video.post_title,
        video.index,
    );
    assert(".mp4"@ =~= seq!['.'] + "mp4"@);
    lemma_ending_is_held(video_path, "mp4"@, ".mp4"@);
    lemma_replace_grows(video_path, ".mp4"@, "-merged.mp4"@);
    assert(merged.len() >= video_path.len() + 7);
    let done = stitch_outcome(video_path, audio_path, true).cleanup;
    let start = files.insert(merged);
    assert(done.skip(1).skip(1).skip(1) =~= Seq::<FileOpModel>::empty());
    assert(done.skip(1)[0] == done[1]);
    assert(done.skip(1).skip(1)[0] == done[2]);
    let one = apply(start, done[0]);
    let two = apply(one, done[1]);
    let three = apply(two, done[2]);
    assert(apply_all(start, done) == apply_all(one, done.skip(1)));
    assert(apply_all(one, done.skip(1)) == apply_all(two, done.skip(1).skip(1)));
    assert(apply_all(two, done.skip(1).skip(1)) == apply_all(
        three,
        done.skip(1).skip(1).skip(1),
    ));
    assert(two.contains(merged));
    let failed = stitch_outcome(video_path, audio_path, false).cleanup;
    assert(failed.skip(1) =~= Seq::<FileOpModel>::empty());
    assert(apply_all(files, failed) == apply_all(apply(files, failed[0]), failed.skip(1)));
}

} // verus!
