//! The decisions of a run: what is counted, what is fetched, and how many
//! posts are worked on at once.

use crate::download::{
    converted_path, tasks_model, DownloadTask, Downloader, MediaType, TaskModel, JPG, ZIP,
};
use crate::errors::{GertError, ResolveError};
use crate::links::stripped_link;
use crate::resolve::{
    direct_task, gallery_tasks, giphy_task, imgur_album_task, imgur_candidates, imgur_gif_task,
    imgur_probe_links, manifest_link, manifest_link_spec, raw_host, raw_path, raw_url,
    redgif_lookup, redgif_lookup_spec, resolve_gallery, resolve_giphy, resolve_imgur_album,
    resolve_imgur_gif, resolve_imgur_image, resolve_reddit_image, streamable_lookup,
    streamable_lookup_spec, RedgifLookup,
};
use crate::structs::{is_unknown_site, Post};
use crate::text::{
    chars_of, contains, contains_chars, decimal, push_decimal, push_text, replace_chars,
    same_text, string_of, text_of, texts,
};
use vstd::prelude::*;

verus! {

broadcast use vstd::string::group_string_axioms;

/// The counters of a run. Each only grows.
#[derive(Debug, Clone, Copy, PartialEq, Eq, Structural)]
pub struct RunStatistics {
    /// Tasks that a resolver produced.
    pub supported: u16,
    /// Tasks that were not fetched: dry run, already on disk, or removed at
    /// the host.
    pub skipped: u16,
    /// Tasks whose media was saved.
    pub downloaded: u16,
    /// Posts or tasks that ended in an error.
    pub failed: u16,
    /// Posts of no supported media type.
    pub unsupported: u16,
}

fn counter_line(label: &str, count: u16) -> (line: String)
    ensures
        line@ == label@ + decimal(count as nat),
{
    let mut out = chars_of(label);
    push_decimal(&mut out, count as usize);
    string_of(&out)
}

impl RunStatistics {
    /// The counters at the start of a run.
    pub fn new() -> (stats: RunStatistics)
        ensures
            stats == (RunStatistics {
                supported: 0,
                skipped: 0,
                downloaded: 0,
                failed: 0,
                unsupported: 0,
            }),
    {
        RunStatistics { supported: 0, skipped: 0, downloaded: 0, failed: 0, unsupported: 0 }
    }

    /// The counters that a new task may raise can still grow by one.
    pub open spec fn can_count_task(&self) -> bool {
        &&& self.supported < u16::MAX
        &&& self.skipped < u16::MAX
        &&& self.failed < u16::MAX
    }

    /// The counters that a fetch may raise can still grow by one.
    pub open spec fn can_count_fetch(&self) -> bool {
        &&& self.skipped < u16::MAX
        &&& self.downloaded < u16::MAX
        &&& self.failed < u16::MAX
    }

    /// The counters that a new post may raise can still grow by one.
    pub open spec fn can_count_post(&self) -> bool {
        &&& self.failed < u16::MAX
        &&& self.unsupported < u16::MAX
    }

    /// No counter of `self` is below that of `earlier`.
    pub open spec fn extends(&self, earlier: RunStatistics) -> bool {
        &&& self.supported >= earlier.supported
        &&& self.skipped >= earlier.skipped
        &&& self.downloaded >= earlier.downloaded
        &&& self.failed >= earlier.failed
        &&& self.unsupported >= earlier.unsupported
    }

    /// The summary of the run: one line for each counter.
    pub open spec fn summary(&self) -> Seq<Seq<char>> {
        seq![
            "Number of supported media: "@ + decimal(self.supported as nat),
            "Number of unsupported links: "@ + decimal(self.unsupported as nat),
            "Number of media downloaded: "@ + decimal(self.downloaded as nat),
            "Number of media skipped: "@ + decimal(self.skipped as nat),
            "Number of media failed to download: "@ + decimal(self.failed as nat),
        ]
    }

    /// The lines of the summary that is shown when the run is over.
    pub fn summary_lines(&self) -> (lines: Vec<String>)
        ensures
            texts(lines@) == self.summary(),
    {
        let mut lines: Vec<String> = Vec::new();
        lines.push(counter_line("Number of supported media: ", self.supported));
        lines.push(counter_line("Number of unsupported links: ", self.unsupported));
        lines.push(counter_line("Number of media downloaded: ", self.downloaded));
        lines.push(counter_line("Number of media skipped: ", self.skipped));
        lines.push(counter_line("Number of media failed to download: ", self.failed));
        assert(texts(lines@) =~= self.summary());
        lines
    }

    /// Counts one failure.
    pub fn fail(&mut self)
        requires
            old(self).failed < u16::MAX,
        ensures
            *final(self) == (RunStatistics { failed: (old(self).failed + 1) as u16, ..*old(self) }),
            final(self).extends(*old(self)),
    {
        self.failed = self.failed + 1;
    }

    /// Counts one skipped task.
    pub fn skip(&mut self)
        requires
            old(self).skipped < u16::MAX,
        ensures
            *final(self) == (RunStatistics {
                skipped: (old(self).skipped + 1) as u16,
                ..*old(self)
            }),
            final(self).extends(*old(self)),
    {
        self.skipped = self.skipped + 1;
    }
}

/// What is done next for a task.
#[derive(Debug, Clone, PartialEq, Eq)]
pub enum TaskStep {
    /// Nothing: the task has been counted and is finished.
    Done,
    /// The media is fetched to `file_name` unless a file exists at one of
    /// the three paths: the file name itself, the path of the video that an
    /// animated image is converted to, and the path of the first still image
    /// that is extracted from an archive.
    CheckPresence { file_name: String, converted: String, extracted: String },
}

/// A step of a task as values.
pub enum TaskStepModel {
    Done,
    CheckPresence { file_name: Seq<char>, converted: Seq<char>, extracted: Seq<char> },
}

impl View for TaskStep {
    type V = TaskStepModel;

    open spec fn view(&self) -> TaskStepModel {
        match self {
            TaskStep::Done => TaskStepModel::Done,
            TaskStep::CheckPresence { file_name, converted, extracted } => {
                TaskStepModel::CheckPresence {
                    file_name: file_name@,
                    converted: converted@,
                    extracted: extracted@,
                }
            },
        }
    }
}

/// The address that answered holds the host's placeholder for removed media.
pub open spec fn is_removed_marker(host: Seq<char>, path: Seq<char>) -> bool {
    contains(host + path, "i.imgur.com/removed"@)
}

/// What the address that answered a fetch says of the media: an address
/// without a host is an error, and so is the placeholder for removed media.
pub open spec fn response_check(host: Option<Seq<char>>, path: Seq<char>) -> Result<
    (),
    GertError,
> {
    match host {
        None => Err(GertError::UrlError),
        Some(h) => if is_removed_marker(h, path) {
            Err(GertError::ImgurRemovedError)
        } else {
            Ok(())
        },
    }
}

/// Checks the address that answered a fetch, after redirects: its host and
/// its path.
pub fn check_response(host: Option<&str>, path: &str) -> (r: Result<(), GertError>)
    ensures
        r == response_check(
            match host {
                Some(h) => Some(h@),
                None => None,
            },
            path@,
        ),
{
    match host {
        None => Err(GertError::UrlError),
        Some(h) => {
            let mut host_and_path = chars_of(h);
            push_text(&mut host_and_path, path);
            if contains_chars(&host_and_path, &chars_of("i.imgur.com/removed")) {
                Err(GertError::ImgurRemovedError)
            } else {
                Ok(())
            }
        },
    }
}

/// How a fetch ends, given what happened on its way. A directory that could
/// not be made is an error of its own. A request without an answer saves
/// nothing. An answer from an address that fails its check is the error of
/// the check. Otherwise the fetch has saved the media or it has not.
pub open spec fn fetch_result_spec(
    directory_made: bool,
    answered: bool,
    address: Result<(), GertError>,
    saved: bool,
) -> Result<bool, GertError> {
    if !directory_made {
        Err(GertError::CouldNotCreateDirectory)
    } else if !answered {
        Ok(false)
    } else {
        match address {
            Err(e) => Err(e),
            Ok(_) => Ok(saved),
        }
    }
}

/// Says how a fetch ends. `directory_made` says whether the directory of the
/// file is there; `answered` whether the request was answered; `address` is
/// what `check_response` says of the address that answered; `saved` says
/// whether the body was written to the file. What did not come to pass
/// because an earlier step failed is given as `false` or `Ok`.
pub fn fetch_result(
    directory_made: bool,
    answered: bool,
    address: Result<(), GertError>,
    saved: bool,
) -> (result: Result<bool, GertError>)
    ensures
        result == fetch_result_spec(directory_made, answered, address, saved),
{
    if !directory_made {
        Err(GertError::CouldNotCreateDirectory)
    } else if !answered {
        Ok(false)
    } else {
        match address {
            Err(e) => Err(e),
            Ok(_) => Ok(saved),
        }
    }
}

/// A fetch whose directory could not be made is counted as failed, and as
/// nothing else, and its file is not post-processed.
pub proof fn lemma_directory_failure_is_counted_failed(
    stats: RunStatistics,
    answered: bool,
    address: Result<(), GertError>,
    saved: bool,
)
    ensures
        fetch_result_spec(false, answered, address, saved) == Err::<bool, GertError>(
            GertError::CouldNotCreateDirectory,
        ),
        after_fetch_spec(stats, fetch_result_spec(false, answered, address, saved)) == (
        RunStatistics { failed: (stats.failed + 1) as u16, ..stats }),
{
}

/// The counters after a fetch that ended with `result`.
pub open spec fn after_fetch_spec(
    stats: RunStatistics,
    result: Result<bool, GertError>,
) -> RunStatistics {
    match result {
        Ok(saved) => if saved {
            RunStatistics { downloaded: (stats.downloaded + 1) as u16, ..stats }
        } else {
            RunStatistics { failed: (stats.failed + 1) as u16, ..stats }
        },
        Err(e) => if e is ImgurRemovedError {
            RunStatistics { skipped: (stats.skipped + 1) as u16, ..stats }
        } else {
            RunStatistics { failed: (stats.failed + 1) as u16, ..stats }
        },
    }
}

impl Downloader {
    /// The canonical file name of a task.
    pub open spec fn task_file_name(&self, task: TaskModel) -> Option<Seq<char>> {
        self.file_name(
            task.url,
            task.subreddit,
            task.extension,
            task.post_name,
            task.post_title,
            task.index,
        )
    }

    /// The path at which the first entry of the archive of a task is
    /// written where it is a still image: the file name of the task with the
    /// extension of a still image and the component index 0. For a task that
    /// fetches no archive it is the file name of the task.
    pub open spec fn extracted_path(&self, task: TaskModel) -> Option<Seq<char>> {
        if task.extension == ZIP@ {
            self.file_name(
                task.url,
                task.subreddit,
                JPG@,
                task.post_name,
                task.post_title,
                Some(0usize),
            )
        } else {
            self.task_file_name(task)
        }
    }

    /// The canonical file name of a task whose URL parses.
    pub fn get_filename(&self, task: &DownloadTask) -> (path: String)
        requires
            self.task_file_name(task@) is Some,
        ensures
            Some(path@) == self.task_file_name(task@),
    {
        self.generate_file_name(
            task.url.as_str(),
            task.subreddit.as_str(),
            task.extension.as_str(),
            task.post_name.as_str(),
            task.post_title.as_str(),
            task.index,
        )
    }

    /// The canonical file name of a task, where it has one.
    pub fn try_get_filename(&self, task: &DownloadTask) -> (path: Option<String>)
        ensures
            text_of(path) == self.task_file_name(task@),
    {
        if !self.use_human_readable && stripped_link(task.url.as_str()).is_none() {
            None
        } else {
            Some(self.get_filename(task))
        }
    }

    /// The counters and the next step when a task arrives.
    pub open spec fn schedule_spec(&self, stats: RunStatistics, task: TaskModel) -> (
        RunStatistics,
        TaskStepModel,
    ) {
        let counted = RunStatistics { supported: (stats.supported + 1) as u16, ..stats };
        if !self.should_download {
            (
                RunStatistics { skipped: (stats.skipped + 1) as u16, ..counted },
                TaskStepModel::Done,
            )
        } else {
            match self.task_file_name(task) {
                None => (
                    RunStatistics { failed: (stats.failed + 1) as u16, ..counted },
                    TaskStepModel::Done,
                ),
                Some(file_name) => (
                    counted,
                    TaskStepModel::CheckPresence {
                        file_name,
                        converted: converted_path(file_name),
                        extracted: self.extracted_path(task)->0,
                    },
                ),
            }
        }
    }

    /// Takes up a task: counts it as supported, and decides what is done
    /// next. In a dry run the task is skipped. A task whose URL cannot be
    /// named has failed. Otherwise the task's file name and its two alternate
    /// paths are to be looked for on disk.
    pub fn schedule_task(&self, stats: &mut RunStatistics, task: &DownloadTask) -> (step: TaskStep)
        requires
            old(stats).can_count_task(),
        ensures
            (*final(stats), step@) == self.schedule_spec(*old(stats), task@),
            final(stats).extends(*old(stats)),
    {
        stats.supported = stats.supported + 1;
        if !self.should_download {
            stats.skip();
            return TaskStep::Done;
        }
        match self.try_get_filename(task) {
            None => {
                stats.fail();
                TaskStep::Done
            },
            Some(file_name) => {
                let chars = chars_of(file_name.as_str());
                let converted = string_of(
                    &replace_chars(&chars, &chars_of(".gif"), &chars_of(".mp4")),
                );
                let extracted = if same_text(task.extension.as_str(), ZIP) {
                    self.generate_file_name(
                        task.url.as_str(),
                        task.subreddit.as_str(),
                        JPG,
                        task.post_name.as_str(),
                        task.post_title.as_str(),
                        Some(0),
                    )
                } else {
                    file_name.clone()
                };
                TaskStep::CheckPresence { file_name, converted, extracted }
            },
        }
    }
}

/// The counters, and whether the task is fetched, once it is known whether
/// a file exists at the task's file name or at one of its alternate paths.
pub open spec fn after_presence_spec(stats: RunStatistics, present: bool) -> (RunStatistics, bool) {
    if present {
        (RunStatistics { skipped: (stats.skipped + 1) as u16, ..stats }, false)
    } else {
        (stats, true)
    }
}

/// Decides whether a task is fetched, once it is known whether a file exists
/// at its file name or at one of its alternate paths: a task whose file is
/// present is counted as skipped and is not fetched.
pub fn after_presence(stats: &mut RunStatistics, present: bool) -> (fetch: bool)
    requires
        old(stats).skipped < u16::MAX,
    ensures
        (*final(stats), fetch) == after_presence_spec(*old(stats), present),
        final(stats).extends(*old(stats)),
{
    if present {
        stats.skip();
        false
    } else {
        true
    }
}

/// Counts the outcome of a fetch and says whether the file is now
/// post-processed: media that was saved is counted as downloaded and is
/// post-processed; media that the host has removed is counted as skipped;
/// every other outcome is counted as failed.
pub fn after_fetch(stats: &mut RunStatistics, result: &Result<bool, GertError>) -> (process: bool)
    requires
        old(stats).can_count_fetch(),
    ensures
        *final(stats) == after_fetch_spec(*old(stats), *result),
        final(stats).extends(*old(stats)),
        process == (*result == Ok::<bool, GertError>(true)),
{
    match result {
        Ok(true) => {
            stats.downloaded = stats.downloaded + 1;
            true
        },
        Ok(false) => {
            stats.fail();
            false
        },
        Err(GertError::ImgurRemovedError) => {
            stats.skip();
            false
        },
        Err(_) => {
            stats.fail();
            false
        },
    }
}

/// What is done next for a post.
#[derive(Debug, Clone)]
pub enum Plan {
    /// These tasks are scheduled.
    Ready(Vec<DownloadTask>),
    /// The manifest at this URL is fetched, and the native video is resolved
    /// with what it selects.
    FetchManifest(String),
    /// The item is looked up at the token-gated host.
    QueryRedgif(RedgifLookup),
    /// The first URL is probed for a JPEG image and, where that probe
    /// fails, the second for a PNG image.
    ProbeImgur { first: String, second: String },
    /// The video is looked up at the external video host.
    QueryStreamable(String),
    /// Nothing: the post has no supported media type.
    Unsupported,
    /// Nothing: the post could not be resolved.
    Failed(ResolveError),
}

/// A plan as values.
pub enum PlanModel {
    Ready(Seq<TaskModel>),
    FetchManifest(Seq<char>),
    QueryRedgif { api_url: Seq<char>, authorization: Seq<char> },
    ProbeImgur { first: Seq<char>, second: Seq<char> },
    QueryStreamable(Seq<char>),
    Unsupported,
    Failed(ResolveError),
}

impl View for Plan {
    type V = PlanModel;

    open spec fn view(&self) -> PlanModel {
        match self {
            Plan::Ready(tasks) => PlanModel::Ready(tasks_model(tasks@)),
            Plan::FetchManifest(url) => PlanModel::FetchManifest(url@),
            Plan::QueryRedgif(lookup) => PlanModel::QueryRedgif {
                api_url: lookup.api_url@,
                authorization: lookup.authorization@,
            },
            Plan::ProbeImgur { first, second } => PlanModel::ProbeImgur {
                first: first@,
                second: second@,
            },
            Plan::QueryStreamable(url) => PlanModel::QueryStreamable(url@),
            Plan::Unsupported => PlanModel::Unsupported,
            Plan::Failed(e) => PlanModel::Failed(*e),
        }
    }
}

/// The plan for a post that resolves to one task at once.
pub open spec fn single(r: Result<TaskModel, ResolveError>) -> PlanModel {
    match r {
        Ok(task) => PlanModel::Ready(seq![task]),
        Err(e) => PlanModel::Failed(e),
    }
}

/// The plan for a post that resolves to its tasks at once.
pub open spec fn several(r: Result<Seq<TaskModel>, ResolveError>) -> PlanModel {
    match r {
        Ok(tasks) => PlanModel::Ready(tasks),
        Err(e) => PlanModel::Failed(e),
    }
}

/// The tasks that a plan schedules at once.
pub open spec fn planned_tasks(plan: PlanModel) -> Seq<TaskModel> {
    match plan {
        PlanModel::Ready(tasks) => tasks,
        _ => Seq::empty(),
    }
}

/// The plan for a post: its media type selects the resolver. `token` is the
/// bearer token of the token-gated host, if one is at hand.
pub open spec fn plan_spec(post: Post, token: Option<Seq<char>>) -> PlanModel {
    match post.type_spec() {
        MediaType::Gallery => several(gallery_tasks(post)),
        MediaType::RedditImage => single(direct_task(post, post.url_spec())),
        MediaType::RedditGif => single(direct_task(post, post.url_spec())),
        MediaType::RedditVideo => match manifest_link_spec(post) {
            Ok(url) => PlanModel::FetchManifest(url),
            Err(e) => PlanModel::Failed(e),
        },
        MediaType::RedGif => match redgif_lookup_spec(post.url_spec(), token) {
            Ok(lookup) => PlanModel::QueryRedgif { api_url: lookup.0, authorization: lookup.1 },
            Err(e) => PlanModel::Failed(e),
        },
        MediaType::GiphyGif => single(giphy_task(post, raw_host(post), raw_path(post))),
        MediaType::ImgurGif => single(imgur_gif_task(post)),
        MediaType::ImgurImage => single(direct_task(post, raw_url(post))),
        MediaType::ImgurAlbum => single(imgur_album_task(post)),
        MediaType::ImgurUnknown => match raw_url(post) {
            Some(url) => PlanModel::ProbeImgur {
                first: imgur_candidates(url).0,
                second: imgur_candidates(url).1,
            },
            None => PlanModel::Failed(ResolveError::UnsupportedUrl),
        },
        MediaType::StreamableVideo => match streamable_lookup_spec(post.path_spec()) {
            Ok(url) => PlanModel::QueryStreamable(url),
            Err(e) => PlanModel::Failed(e),
        },
        MediaType::Unsupported => PlanModel::Unsupported,
    }
}

fn one(r: Result<DownloadTask, ResolveError>) -> (plan: Plan)
    ensures
        plan@ == single(crate::resolve::task_result(r)),
{
    match r {
        Ok(task) => {
            let mut tasks: Vec<DownloadTask> = Vec::new();
            tasks.push(task);
            assert(tasks_model(tasks@) =~= seq![task@]);
            Plan::Ready(tasks)
        },
        Err(e) => Plan::Failed(e),
    }
}

/// The counters after the plan for a post is made.
pub open spec fn after_plan(stats: RunStatistics, plan: PlanModel) -> RunStatistics {
    match plan {
        PlanModel::Unsupported => RunStatistics {
            unsupported: (stats.unsupported + 1) as u16,
            ..stats
        },
        PlanModel::Failed(_) => RunStatistics { failed: (stats.failed + 1) as u16, ..stats },
        _ => stats,
    }
}

impl Downloader {
    /// The bearer token at hand, as text.
    pub open spec fn token(&self) -> Option<Seq<char>> {
        text_of(self.ephemeral_token)
    }

    /// A bearer token has to be obtained before the posts are worked on:
    /// none is at hand, and a post is of the token-gated host.
    pub open spec fn needs_token(&self) -> bool {
        self.ephemeral_token is None && exists|i: int|
            0 <= i < self.posts@.len() && (#[trigger] self.posts@[i]).type_spec()
                == MediaType::RedGif
    }

    /// Says whether a bearer token has to be obtained for this run.
    pub fn needs_redgif_token(&self) -> (needed: bool)
        ensures
            needed == self.needs_token(),
    {
        if self.ephemeral_token.is_some() {
            return false;
        }
        let mut i: usize = 0;
        while i < self.posts.len()
            invariant
                i <= self.posts.len(),
                self.ephemeral_token is None,
                forall|j: int| 0 <= j < i ==> (#[trigger] self.posts@[j]).type_spec()
                    != MediaType::RedGif,
            decreases self.posts.len() - i,
        {
            if self.posts[i].get_type() == MediaType::RedGif {
                assert(self.posts@[i as int].type_spec() == MediaType::RedGif);
                return true;
            }
            i = i + 1;
        }
        false
    }

    /// Keeps the bearer token for the resolutions that follow.
    pub fn set_redgif_token(&mut self, token: String)
        ensures
            final(self).ephemeral_token == Some(token),
            final(self).posts == old(self).posts,
            final(self).data_directory == old(self).data_directory,
            final(self).should_download == old(self).should_download,
            final(self).use_human_readable == old(self).use_human_readable,
            final(self).ffmpeg_available == old(self).ffmpeg_available,
            final(self).conserve_gifs == old(self).conserve_gifs,
    {
        self.ephemeral_token = Some(token);
    }

    /// Decides what is done for a post.
    pub fn plan(&self, post: &Post) -> (plan: Plan)
        ensures
            plan@ == plan_spec(*post, self.token()),
    {
        match post.get_type() {
            MediaType::Gallery => match resolve_gallery(post) {
                Ok(tasks) => Plan::Ready(tasks),
                Err(e) => Plan::Failed(e),
            },
            MediaType::RedditImage => one(resolve_reddit_image(post)),
            MediaType::RedditGif => one(resolve_reddit_image(post)),
            MediaType::RedditVideo => match manifest_link(post) {
                Ok(url) => Plan::FetchManifest(url),
                Err(e) => Plan::Failed(e),
            },
            MediaType::RedGif => match redgif_lookup(post, self.ephemeral_token.as_ref()) {
                Ok(lookup) => Plan::QueryRedgif(lookup),
                Err(e) => Plan::Failed(e),
            },
            MediaType::GiphyGif => one(resolve_giphy(post)),
            MediaType::ImgurGif => one(resolve_imgur_gif(post)),
            MediaType::ImgurImage => one(resolve_imgur_image(post)),
            MediaType::ImgurAlbum => one(resolve_imgur_album(post)),
            MediaType::ImgurUnknown => match imgur_probe_links(post) {
                Ok(links) => Plan::ProbeImgur { first: links.0, second: links.1 },
                Err(e) => Plan::Failed(e),
            },
            MediaType::StreamableVideo => match streamable_lookup(post) {
                Ok(url) => Plan::QueryStreamable(url),
                Err(e) => Plan::Failed(e),
            },
            MediaType::Unsupported => Plan::Unsupported,
        }
    }

    /// Takes up a post: decides what is done for it, and counts a post that
    /// is unsupported or could not be resolved.
    pub fn process(&self, stats: &mut RunStatistics, post: &Post) -> (plan: Plan)
        requires
            old(stats).can_count_post(),
        ensures
            plan@ == plan_spec(*post, self.token()),
            *final(stats) == after_plan(*old(stats), plan@),
            final(stats).extends(*old(stats)),
    {
        let plan = self.plan(post);
        match &plan {
            Plan::Unsupported => {
                stats.unsupported = stats.unsupported + 1;
            },
            Plan::Failed(_) => {
                stats.fail();
            },
            _ => {},
        }
        plan
    }
}

/// A post without gallery metadata whose host holds none of the site
/// signatures, or whose URL has no host, is unsupported, whatever the path
/// and the extension of its URL are: nothing is scheduled for it, and it is
/// counted as unsupported and as nothing else.
pub proof fn lemma_unknown_site_yields_no_task(
    post: Post,
    token: Option<Seq<char>>,
    stats: RunStatistics,
)
    requires
        !post.has_gallery(),
        post.host_spec() is Some ==> is_unknown_site(post.host_spec()->0),
    ensures
        post.type_spec() == MediaType::Unsupported,
        plan_spec(post, token) == PlanModel::Unsupported,
        planned_tasks(plan_spec(post, token)).len() == 0,
        after_plan(stats, plan_spec(post, token)) == (RunStatistics {
            unsupported: (stats.unsupported + 1) as u16,
            ..stats
        }),
{
}

/// The number of posts that may be worked on at the same time.
pub const MAX_IN_FLIGHT: usize = 10;

/// What the run does next.
#[derive(Debug, Clone, Copy, PartialEq, Eq, Structural)]
pub enum RunAction {
    /// Work on the post of this index begins.
    Start(usize),
    /// The run waits until the work on one post has ended.
    Wait,
    /// Every post has been worked on.
    Finish,
}

/// The progress of a run over its posts: how many have been started, and
/// how many of those have ended.
#[derive(Debug)]
pub struct Scheduler {
    total: usize,
    started: usize,
    finished: usize,
}

impl Scheduler {
    #[verifier::type_invariant]
    spec fn well_formed(self) -> bool {
        &&& self.finished <= self.started <= self.total
        &&& self.started - self.finished <= MAX_IN_FLIGHT
    }

    /// The number of posts of the run.
    pub closed spec fn total(&self) -> nat {
        self.total as nat
    }

    /// The number of posts on which work has begun.
    pub closed spec fn started(&self) -> nat {
        self.started as nat
    }

    /// The number of posts on which work has ended.
    pub closed spec fn finished(&self) -> nat {
        self.finished as nat
    }

    /// The number of posts that are being worked on.
    pub open spec fn in_flight(&self) -> int {
        self.started() - self.finished()
    }

    /// The state allows no more than the ceiling in flight.
    pub open spec fn within_ceiling(&self) -> bool {
        &&& self.finished() <= self.started() <= self.total()
        &&& 0 <= self.in_flight() <= MAX_IN_FLIGHT
    }

    /// A run over `total` posts, none of them started.
    pub fn new(total: usize) -> (scheduler: Scheduler)
        ensures
            scheduler.total() == total,
            scheduler.total() <= usize::MAX,
            scheduler.started() == 0,
            scheduler.finished() == 0,
            scheduler.within_ceiling(),
    {
        Scheduler { total, started: 0, finished: 0 }
    }

    /// The number of posts that are being worked on: never above the ceiling.
    pub fn posts_in_flight(&self) -> (n: usize)
        ensures
            n == self.in_flight(),
            n <= MAX_IN_FLIGHT,
            self.within_ceiling(),
    {
        proof {
            use_type_invariant(self);
        }
        self.started - self.finished
    }

    /// Decides what the run does next. The next post is started where one is
    /// left and fewer posts than the ceiling are in flight; else the run
    /// waits while any is in flight; else it is over.
    pub fn next_action(&mut self) -> (action: RunAction)
        ensures
            final(self).total() == old(self).total(),
            final(self).finished() == old(self).finished(),
            old(self).within_ceiling(),
            final(self).within_ceiling(),
            action == if old(self).started() < old(self).total() && old(self).in_flight()
                < MAX_IN_FLIGHT {
                RunAction::Start(old(self).started() as usize)
            } else if old(self).in_flight() > 0 {
                RunAction::Wait
            } else {
                RunAction::Finish
            },
            final(self).started() == if action is Start {
                old(self).started() + 1
            } else {
                old(self).started()
            },
            old(self).total() <= usize::MAX,
            action matches RunAction::Start(index) ==> index == old(self).started() && index
                < final(self).total(),
    {
        proof {
            use_type_invariant(&*self);
        }
        if self.started < self.total && self.started - self.finished < MAX_IN_FLIGHT {
            let index = self.started;
            self.started = self.started + 1;
            RunAction::Start(index)
        } else if self.started - self.finished > 0 {
            RunAction::Wait
        } else {
            RunAction::Finish
        }
    }

    /// Records that the work on one post has ended. Returns `false`, and
    /// changes nothing, where no post is in flight.
    pub fn complete(&mut self) -> (recorded: bool)
        ensures
            recorded == (old(self).in_flight() > 0),
            final(self).total() == old(self).total(),
            final(self).started() == old(self).started(),
            final(self).finished() == if recorded {
                old(self).finished() + 1
            } else {
                old(self).finished()
            },
            final(self).within_ceiling(),
    {
        proof {
            use_type_invariant(&*self);
        }
        if self.started - self.finished > 0 {
            self.finished = self.finished + 1;
            true
        } else {
            false
        }
    }
}

/// A task whose canonical file is on disk is skipped and not fetched: the
/// run looks for the file at the task's canonical path, and where it is
/// found the task is counted as supported and as skipped, and as nothing
/// else.
pub proof fn lemma_present_file_is_skipped(
    downloader: Downloader,
    stats: RunStatistics,
    task: TaskModel,
)
    requires
        downloader.should_download,
        downloader.task_file_name(task) is Some,
        stats.can_count_task(),
    ensures
        ({
            let (counted, step) = downloader.schedule_spec(stats, task);
            let (after, fetch) = after_presence_spec(counted, true);
            &&& step matches TaskStepModel::CheckPresence { file_name, .. } && Some(file_name)
                == downloader.task_file_name(task)
            &&& !fetch
            &&& after == (RunStatistics {
                supported: (stats.supported + 1) as u16,
                skipped: (stats.skipped + 1) as u16,
                ..stats
            })
        }),
{
}

/// The counters after a task has gone through the run: it is taken up, the
/// disk is looked at where the task asks for it, and the media is fetched
/// where the file is not present. `present` and `result` are what the disk
/// and the fetch answer.
pub open spec fn after_task(
    downloader: Downloader,
    stats: RunStatistics,
    task: TaskModel,
    present: bool,
    result: Result<bool, GertError>,
) -> RunStatistics {
    let (counted, step) = downloader.schedule_spec(stats, task);
    match step {
        TaskStepModel::Done => counted,
        TaskStepModel::CheckPresence { .. } => {
            let (looked, fetch) = after_presence_spec(counted, present);
            if fetch {
                after_fetch_spec(looked, result)
            } else {
                looked
            }
        },
    }
}

/// Every task is counted once as supported and once as skipped, downloaded
/// or failed, whatever the disk and the fetch answer.
pub proof fn lemma_task_is_counted_once(
    downloader: Downloader,
    stats: RunStatistics,
    task: TaskModel,
    present: bool,
    result: Result<bool, GertError>,
)
    requires
        stats.can_count_task(),
        stats.can_count_fetch(),
    ensures
        ({
            let end = after_task(downloader, stats, task, present, result);
            &&& end.supported == stats.supported + 1
            &&& end.unsupported == stats.unsupported
            &&& end.skipped + end.downloaded + end.failed == stats.skipped + stats.downloaded
                + stats.failed + 1
            &&& end.extends(stats)
        }),
{
}

} // verus!
