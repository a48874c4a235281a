//! The settings of a run and the names of the files it writes.

use crate::links::{link_without_params, stripped_link};
use crate::structs::Post;
use crate::text::{
    chars_of, decimal, ends_with, is_digit, lemma_cut_at_last_delimiter,
    lemma_decimal_is_injective, lemma_decimal_reads_back, lemma_replace_char_absent,
    lemma_replace_char_distributes, lemma_replace_keeps_length, lowercase, lowercase_of,
    push_decimal, push_text, replace_all, replace_chars, string_of,
};
use vstd::prelude::*;
use vstd::utf8::encode_utf8;

verus! {

broadcast use vstd::string::group_string_axioms;

/// The extension of a JPEG image.
pub const JPG: &'static str = "jpg";

/// The extension of a PNG image.
pub const PNG: &'static str = "png";

/// The long extension of a JPEG image.
pub const JPEG: &'static str = "jpeg";

/// The extension of an animated image.
pub const GIF: &'static str = "gif";

/// The extension of an animated image that is served as a video.
pub const GIFV: &'static str = "gifv";

/// The extension of the video container.
pub const MP4: &'static str = "mp4";

/// The extension of an archive.
pub const ZIP: &'static str = "zip";

/// Media Types Supported
#[derive(Debug, Clone, Copy, PartialEq, Eq, Structural)]
pub enum MediaType {
    Gallery,
    RedditImage,
    RedditGif,
    RedditVideo,
    RedGif,
    GiphyGif,
    ImgurImage,
    ImgurGif,
    ImgurAlbum,
    ImgurUnknown,
    StreamableVideo,
    Unsupported,
}

/// The settings of one run over a list of posts.
#[derive(Debug, Clone)]
pub struct Downloader {
    pub posts: Vec<Post>,
    /// The directory under which every file is written.
    pub data_directory: String,
    /// Files are fetched; otherwise the run only reports what it found.
    pub should_download: bool,
    /// Files are named after the post's title and not after a digest.
    pub use_human_readable: bool,
    /// The transcoder can be run.
    pub ffmpeg_available: bool,
    /// Animated images are kept as they are.
    pub conserve_gifs: bool,
    /// The bearer token of the token-gated host, once obtained.
    pub ephemeral_token: Option<String>,
}

/// What a component index adds to a name: `_` and the index in base ten
/// where there is an index, nothing where there is none.
pub open spec fn index_suffix(index: Option<usize>) -> Seq<char> {
    match index {
        Some(i) => seq!['_'] + decimal(i as nat),
        None => Seq::empty(),
    }
}

/// The lowercase hexadecimal digit of `d`, for `d` from 0 to 15.
pub open spec fn hex_digit(d: int) -> char {
    if d < 10 {
        (48 + d) as char
    } else {
        (87 + d) as char
    }
}

/// Two lowercase hexadecimal digits for each byte, in order.
pub open spec fn lower_hex(bytes: Seq<u8>) -> Seq<char>
    decreases bytes.len(),
{
    if bytes.len() == 0 {
        Seq::empty()
    } else {
        lower_hex(bytes.drop_last()).push(hex_digit(bytes.last() as int / 16)).push(
            hex_digit(bytes.last() as int % 16),
        )
    }
}

/// The MD5 digest of `data`: sixteen bytes.
pub uninterp spec fn md5_of(data: Seq<u8>) -> [u8; 16];

/// Calls `md5::compute`, which returns the digest of the data as a `Digest`,
/// and takes the sixteen bytes that it holds. The contract only names the
/// result.
#[verifier::external_body]
fn md5_digest(data: &[u8]) -> (digest: [u8; 16])
    ensures
        digest == md5_of(data@),
{
    md5::compute(data).0
}

/// The name under which the media at a URL is stored: the digest of the
/// URL's UTF-8 bytes in lowercase hexadecimal.
pub open spec fn media_key(clean_url: Seq<char>) -> Seq<char> {
    lower_hex(md5_of(encode_utf8(clean_url))@)
}

/// The path that an animated image has after its conversion to a video.
pub open spec fn converted_path(file_name: Seq<char>) -> Seq<char> {
    replace_all(file_name, ".gif"@, ".mp4"@)
}

/// A character that may not stand in a file name made from a title.
pub open spec fn is_disallowed(c: char) -> bool {
    c == ' ' || c == '.' || c == '/' || c == '\\' || c == ':' || c == '=' || c == '?' || c == '"'
        || c == '<' || c == '>' || c == '|' || c == '*'
}

/// The title as it stands in a file name: in lowercase, cut to its first 200
/// characters, each disallowed character replaced by `_`.
pub open spec fn canonical_title(title: Seq<char>) -> Seq<char> {
    let lower = lowercase_of(title);
    let kept = if lower.len() < 200 {
        lower.len()
    } else {
        200
    };
    Seq::new(
        kept,
        |i: int|
            if is_disallowed(lower[i]) {
                '_'
            } else {
                lower[i]
            },
    )
}

/// The post's name as it stands in a file name: followed by the index
/// suffix, each `.` replaced by `_`.
pub open spec fn canonical_name(name: Seq<char>, index: Option<usize>) -> Seq<char> {
    replace_all(name + index_suffix(index), seq!['.'], seq!['_'])
}

fn hex_digit_of(d: u8) -> (c: char)
    requires
        d < 16,
    ensures
        c == hex_digit(d as int),
{
    if d < 10 {
        (48u8 + d) as char
    } else {
        (87u8 + d) as char
    }
}

fn lower_hex_chars(bytes: &[u8; 16]) -> (out: Vec<char>)
    ensures
        out@ == lower_hex(bytes@),
{
    let mut out: Vec<char> = Vec::new();
    let mut i: usize = 0;
    assert(bytes@.take(0) =~= Seq::<u8>::empty());
    while i < 16
        invariant
            i <= 16,
            bytes@.len() == 16,
            out@ == lower_hex(bytes@.take(i as int)),
        decreases 16 - i,
    {
        let b: u8 = bytes[i];
        out.push(hex_digit_of(b / 16));
        out.push(hex_digit_of(b % 16));
        proof {
            let t = bytes@.take(i + 1);
            assert(t.drop_last() =~= bytes@.take(i as int));
            assert(t.last() == b);
        }
        i = i + 1;
    }
    assert(bytes@.take(16) =~= bytes@);
    out
}

fn index_suffix_chars(index: Option<usize>) -> (out: Vec<char>)
    ensures
        out@ == index_suffix(index),
{
    let mut out: Vec<char> = Vec::new();
    match index {
        Some(i) => {
            out.push('_');
            push_decimal(&mut out, i);
            assert(out@ =~= seq!['_'] + decimal(i as nat));
        },
        None => {},
    }
    out
}

fn disallowed(c: char) -> (b: bool)
    ensures
        b == is_disallowed(c),
{
    c == ' ' || c == '.' || c == '/' || c == '\\' || c == ':' || c == '=' || c == '?' || c == '"'
        || c == '<' || c == '>' || c == '|' || c == '*'
}

fn canonical_title_chars(title: &str) -> (out: Vec<char>)
    ensures
        out@ == canonical_title(title@),
{
    let lowered = lowercase(title);
    let lower = chars_of(lowered.as_str());
    let kept: usize = if lower.len() < 200 {
        lower.len()
    } else {
        200
    };
    let mut out: Vec<char> = Vec::new();
    let mut i: usize = 0;
    while i < kept
        invariant
            i <= kept <= lower.len(),
            out@ == Seq::new(
                i as nat,
                |k: int|
                    if is_disallowed(lower@[k]) {
                        '_'
                    } else {
                        lower@[k]
                    },
            ),
        decreases kept - i,
    {
        let c: char = lower[i];
        out.push(
            if disallowed(c) {
                '_'
            } else {
                c
            },
        );
        i = i + 1;
        assert(out@ =~= Seq::new(
            i as nat,
            |k: int|
                if is_disallowed(lower@[k]) {
                    '_'
                } else {
                    lower@[k]
                },
        ));
    }
    assert(out@ =~= canonical_title(title@));
    out
}

fn canonical_name_chars(name: &str, index: Option<usize>) -> (out: Vec<char>)
    ensures
        out@ == canonical_name(name@, index),
{
    let mut full = chars_of(name);
    let suffix = index_suffix_chars(index);
    full.extend_from_slice(suffix.as_slice());
    let mut dot: Vec<char> = Vec::new();
    dot.push('.');
    let mut underscore: Vec<char> = Vec::new();
    underscore.push('_');
    assert(dot@ =~= seq!['.']);
    assert(underscore@ =~= seq!['_']);
    assert(full@ == name@ + index_suffix(index));
    let out = replace_chars(&full, &dot, &underscore);
    assert(out@ == replace_all(name@ + index_suffix(index), seq!['.'], seq!['_']));
    out
}

impl Downloader {
    /// The settings of a run over `posts`, without a bearer token.
    pub fn new(
        posts: Vec<Post>,
        data_directory: &str,
        should_download: bool,
        use_human_readable: bool,
        ffmpeg_available: bool,
        conserve_gifs: bool,
    ) -> (downloader: Downloader)
        ensures
            downloader.posts == posts,
            downloader.data_directory@ == data_directory@,
            downloader.should_download == should_download,
            downloader.use_human_readable == use_human_readable,
            downloader.ffmpeg_available == ffmpeg_available,
            downloader.conserve_gifs == conserve_gifs,
            downloader.ephemeral_token is None,
    {
        Downloader {
            posts,
            data_directory: data_directory.to_owned(),
            should_download,
            use_human_readable,
            ffmpeg_available,
            conserve_gifs,
            ephemeral_token: None,
        }
    }

    /// The file name in digest form: the data directory, the grouping key,
    /// then the key of the URL, the index suffix, a dot and the extension.
    pub open spec fn hashed_file_name(
        &self,
        clean_url: Seq<char>,
        subreddit: Seq<char>,
        extension: Seq<char>,
        index: Option<usize>,
    ) -> Seq<char> {
        self.data_directory@ + seq!['/'] + subreddit + seq!['/'] + media_key(clean_url)
            + index_suffix(index) + seq!['.'] + extension
    }

    /// The file name in readable form: the data directory, the grouping key,
    /// then the title and the post's name joined by `_`, a dot and the
    /// extension.
    pub open spec fn readable_file_name(
        &self,
        subreddit: Seq<char>,
        extension: Seq<char>,
        name: Seq<char>,
        title: Seq<char>,
        index: Option<usize>,
    ) -> Seq<char> {
        self.data_directory@ + seq!['/'] + subreddit + seq!['/'] + canonical_title(title) + seq![
            '_',
        ] + canonical_name(name, index) + seq!['.'] + extension
    }

    /// The canonical file name of a media item, in the form that the run is
    /// set to. In digest form there is none for a URL that does not parse.
    pub open spec fn file_name(
        &self,
        url: Seq<char>,
        subreddit: Seq<char>,
        extension: Seq<char>,
        name: Seq<char>,
        title: Seq<char>,
        index: Option<usize>,
    ) -> Option<Seq<char>> {
        if self.use_human_readable {
            Some(self.readable_file_name(subreddit, extension, name, title, index))
        } else {
            match link_without_params(url) {
                Some(clean) => Some(self.hashed_file_name(clean, subreddit, extension, index)),
                None => None,
            }
        }
    }

    /// Generate the canonical file name of a media item.
    pub fn generate_file_name(
        &self,
        url: &str,
        subreddit: &str,
        extension: &str,
        name: &str,
        title: &str,
        index: Option<usize>,
    ) -> (path: String)
        requires
            !self.use_human_readable ==> link_without_params(url@) is Some,
        ensures
            Some(path@) == self.file_name(url@, subreddit@, extension@, name@, title@, index),
    {
        let mut out: Vec<char> = Vec::new();
        push_text(&mut out, self.data_directory.as_str());
        out.push('/');
        push_text(&mut out, subreddit);
        out.push('/');
        if !self.use_human_readable {
            let clean = stripped_link(url).unwrap();
            let digest = md5_digest(clean.as_str().as_bytes());
            let key = lower_hex_chars(&digest);
            out.extend_from_slice(key.as_slice());
            let suffix = index_suffix_chars(index);
            out.extend_from_slice(suffix.as_slice());
            out.push('.');
            push_text(&mut out, extension);
            assert(out@ =~= self.hashed_file_name(clean@, subreddit@, extension@, index));
        } else {
            let canonical_title = canonical_title_chars(title);
            out.extend_from_slice(canonical_title.as_slice());
            out.push('_');
            let canonical_name = canonical_name_chars(name, index);
            out.extend_from_slice(canonical_name.as_slice());
            out.push('.');
            push_text(&mut out, extension);
            assert(out@ =~= self.readable_file_name(subreddit@, extension@, name@, title@, index));
        }
        string_of(&out)
    }
}

/// One media item to fetch, as a resolver found it.
#[derive(Debug, Clone)]
pub struct DownloadTask {
    /// Where the media is fetched from.
    pub url: String,
    /// The grouping key: the directory under the data directory.
    pub subreddit: String,
    /// The extension of the file to write.
    pub extension: String,
    /// The stable name of the post.
    pub post_name: String,
    /// The title of the post.
    pub post_title: String,
    /// The place of the item among the items of its post, if it has one.
    pub index: Option<usize>,
}

/// A task as values.
pub struct TaskModel {
    pub url: Seq<char>,
    pub subreddit: Seq<char>,
    pub extension: Seq<char>,
    pub post_name: Seq<char>,
    pub post_title: Seq<char>,
    pub index: Option<usize>,
}

impl View for DownloadTask {
    type V = TaskModel;

    open spec fn view(&self) -> TaskModel {
        TaskModel {
            url: self.url@,
            subreddit: self.subreddit@,
            extension: self.extension@,
            post_name: self.post_name@,
            post_title: self.post_title@,
            index: self.index,
        }
    }
}

/// The models of a sequence of tasks.
pub open spec fn tasks_model(tasks: Seq<DownloadTask>) -> Seq<TaskModel> {
    tasks.map_values(|t: DownloadTask| t@)
}

/// The task that fetches `url` for `post`, which has a title.
pub open spec fn task_for(
    post: Post,
    url: Seq<char>,
    extension: Seq<char>,
    index: Option<usize>,
) -> TaskModel {
    TaskModel {
        url,
        subreddit: post.data.subreddit@,
        extension,
        post_name: post.data.name@,
        post_title: post.data.title->0@,
        index,
    }
}

impl DownloadTask {
    /// The task that fetches `url` for `post`: it takes the grouping key,
    /// the name and the title from the post.
    pub fn from_post(post: &Post, url: &str, extension: &str, index: Option<usize>) -> (task:
        DownloadTask)
        requires
            post.data.title is Some,
        ensures
            task@ == task_for(*post, url@, extension@, index),
    {
        let title = match &post.data.title {
            Some(t) => t.clone(),
            None => String::new(),
        };
        DownloadTask {
            url: url.to_owned(),
            subreddit: post.data.subreddit.clone(),
            extension: extension.to_owned(),
            post_name: post.data.name.clone(),
            post_title: title,
            index,
        }
    }
}

/// The file name is a function of the settings and of what is named: two
/// runs with the same data directory and the same form of names give the
/// same media the same file name.
pub proof fn lemma_file_name_is_deterministic(
    first: Downloader,
    second: Downloader,
    url: Seq<char>,
    subreddit: Seq<char>,
    extension: Seq<char>,
    name: Seq<char>,
    title: Seq<char>,
    index: Option<usize>,
)
    requires
        first.data_directory@ == second.data_directory@,
        first.use_human_readable == second.use_human_readable,
    ensures
        first.file_name(url, subreddit, extension, name, title, index) == second.file_name(
            url,
            subreddit,
            extension,
            name,
            title,
            index,
        ),
{
}

/// Every file name ends with a dot and the extension.
pub proof fn lemma_file_name_ends_with_extension(
    downloader: Downloader,
    url: Seq<char>,
    subreddit: Seq<char>,
    extension: Seq<char>,
    name: Seq<char>,
    title: Seq<char>,
    index: Option<usize>,
)
    requires
        downloader.file_name(url, subreddit, extension, name, title, index) is Some,
    ensures
        ends_with(
            downloader.file_name(url, subreddit, extension, name, title, index)->0,
            seq!['.'] + extension,
        ),
{
    let path = downloader.file_name(url, subreddit, extension, name, title, index)->0;
    let ending = seq!['.'] + extension;
    let head = path.len() - ending.len();
    assert(path.subrange(head, path.len() as int) =~= ending);
}

/// The hexadecimal form of a sequence of bytes has two digits for each byte.
pub proof fn lemma_lower_hex_length(bytes: Seq<u8>)
    ensures
        lower_hex(bytes).len() == 2 * bytes.len(),
    decreases bytes.len(),
{
    if bytes.len() > 0 {
        lemma_lower_hex_length(bytes.drop_last());
    }
}

/// The length of the part of a file name that names the media: 32 digits
/// in digest form, and in readable form the title, `_` and the post's name.
pub open spec fn stem_length(human_readable: bool, name: Seq<char>, title: Seq<char>) -> nat {
    if human_readable {
        canonical_title(title).len() + 1 + name.len()
    } else {
        32
    }
}

/// The length of a file name: that of its parts. The index adds the length
/// of its suffix and nothing else.
pub proof fn lemma_file_name_length(
    downloader: Downloader,
    url: Seq<char>,
    subreddit: Seq<char>,
    extension: Seq<char>,
    name: Seq<char>,
    title: Seq<char>,
    index: Option<usize>,
)
    requires
        downloader.file_name(url, subreddit, extension, name, title, index) is Some,
    ensures
        downloader.file_name(url, subreddit, extension, name, title, index)->0.len()
            == downloader.data_directory@.len() + subreddit.len() + extension.len() + 3
            + stem_length(downloader.use_human_readable, name, title) + index_suffix(index).len(),
{
    if downloader.use_human_readable {
        lemma_replace_keeps_length(name + index_suffix(index), seq!['.'], seq!['_']);
    } else {
        let clean = link_without_params(url)->0;
        lemma_lower_hex_length(md5_of(encode_utf8(clean))@);
    }
}

/// What an index adds to a name holds no dot.
pub proof fn lemma_index_suffix_has_no_dot(index: Option<usize>)
    ensures
        !index_suffix(index).contains('.'),
{
    let suffix = index_suffix(index);
    match index {
        Some(i) => {
            lemma_decimal_reads_back(i as nat);
            assert forall|k: int| 0 <= k < suffix.len() implies suffix[k] != '.' by {
                if k > 0 {
                    assert(suffix[k] == decimal(i as nat)[k - 1]);
                    assert(is_digit(decimal(i as nat)[k - 1]));
                }
            }
        },
        None => {},
    }
}

/// Two indices add the same to a name only where they are one index.
pub proof fn lemma_index_suffix_is_injective(i: usize, j: usize)
    requires
        index_suffix(Some(i)) == index_suffix(Some(j)),
    ensures
        i == j,
{
    assert(index_suffix(Some(i)).skip(1) =~= decimal(i as nat));
    assert(index_suffix(Some(j)).skip(1) =~= decimal(j as nat));
    lemma_decimal_is_injective(i as nat, j as nat);
}

impl Downloader {
    /// The part of a file name that stands before the index suffix: the
    /// data directory, the grouping key, and what names the media.
    pub open spec fn stem(
        &self,
        url: Seq<char>,
        subreddit: Seq<char>,
        name: Seq<char>,
        title: Seq<char>,
    ) -> Seq<char> {
        if self.use_human_readable {
            self.data_directory@ + seq!['/'] + subreddit + seq!['/'] + canonical_title(title)
                + seq!['_'] + replace_all(name, seq!['.'], seq!['_'])
        } else {
            self.data_directory@ + seq!['/'] + subreddit + seq!['/'] + media_key(
                link_without_params(url)->0,
            )
        }
    }
}

/// A file name is its stem, the index suffix, a dot and the extension.
pub proof fn lemma_file_name_parts(
    downloader: Downloader,
    url: Seq<char>,
    subreddit: Seq<char>,
    extension: Seq<char>,
    name: Seq<char>,
    title: Seq<char>,
    index: Option<usize>,
)
    requires
        downloader.file_name(url, subreddit, extension, name, title, index) is Some,
    ensures
        downloader.file_name(url, subreddit, extension, name, title, index)->0 == downloader.stem(
            url,
            subreddit,
            name,
            title,
        ) + index_suffix(index) + seq!['.'] + extension,
{
    let path = downloader.file_name(url, subreddit, extension, name, title, index)->0;
    let parts = downloader.stem(url, subreddit, name, title) + index_suffix(index) + seq!['.']
        + extension;
    if downloader.use_human_readable {
        lemma_index_suffix_has_no_dot(index);
        lemma_replace_char_absent(index_suffix(index), '.', '_');
        lemma_replace_char_distributes(name, index_suffix(index), '.', '_');
        assert(canonical_name(name, index) == replace_all(name, seq!['.'], seq!['_'])
            + index_suffix(index));
    }
    assert(path =~= parts);
}

/// Two media of one post that differ in their index have different file
/// names, whatever their extensions are.
pub proof fn lemma_file_names_differ_by_index(
    downloader: Downloader,
    url: Seq<char>,
    subreddit: Seq<char>,
    extension: Seq<char>,
    other_extension: Seq<char>,
    name: Seq<char>,
    title: Seq<char>,
    index: usize,
    other_index: usize,
)
    requires
        index != other_index,
        !extension.contains('.'),
        !other_extension.contains('.'),
        downloader.file_name(url, subreddit, extension, name, title, Some(index)) is Some,
    ensures
        downloader.file_name(url, subreddit, extension, name, title, Some(index))
            != downloader.file_name(
            url,
            subreddit,
            other_extension,
            name,
            title,
            Some(other_index),
        ),
{
    let stem = downloader.stem(url, subreddit, name, title);
    let first = downloader.file_name(url, subreddit, extension, name, title, Some(index));
    let second = downloader.file_name(
        url,
        subreddit,
        other_extension,
        name,
        title,
        Some(other_index),
    );
    lemma_file_name_parts(downloader, url, subreddit, extension, name, title, Some(index));
    lemma_file_name_parts(
        downloader,
        url,
        subreddit,
        other_extension,
        name,
        title,
        Some(other_index),
    );
    if first == second {
        let head = stem + index_suffix(Some(index));
        let other_head = stem + index_suffix(Some(other_index));
        lemma_cut_at_last_delimiter(head, extension, other_head, other_extension, '.');
        assert(index_suffix(Some(index)) =~= head.skip(stem.len() as int));
        assert(index_suffix(Some(other_index)) =~= other_head.skip(stem.len() as int));
        lemma_index_suffix_is_injective(index, other_index);
    }
}

/// A component index that is present is appended before the extension,
/// index 0 as every other: the name ends with `_`, the index in base ten, a
/// dot and the extension, and it is not the name without an index.
pub proof fn lemma_index_is_appended(
    downloader: Downloader,
    url: Seq<char>,
    subreddit: Seq<char>,
    extension: Seq<char>,
    name: Seq<char>,
    title: Seq<char>,
    index: usize,
)
    requires
        downloader.file_name(url, subreddit, extension, name, title, Some(index)) is Some,
    ensures
        downloader.file_name(url, subreddit, extension, name, title, Some(index))->0
            == downloader.stem(url, subreddit, name, title) + (seq!['_'] + decimal(index as nat))
            + seq!['.'] + extension,
        ends_with(
            downloader.file_name(url, subreddit, extension, name, title, Some(index))->0,
            seq!['_'] + decimal(index as nat) + seq!['.'] + extension,
        ),
        downloader.file_name(url, subreddit, extension, name, title, Some(index))
            != downloader.file_name(url, subreddit, extension, name, title, None),
{
    let with = downloader.file_name(url, subreddit, extension, name, title, Some(index))->0;
    let ending = seq!['_'] + decimal(index as nat) + seq!['.'] + extension;
    lemma_file_name_parts(downloader, url, subreddit, extension, name, title, Some(index));
    lemma_file_name_length(downloader, url, subreddit, extension, name, title, Some(index));
    lemma_file_name_length(downloader, url, subreddit, extension, name, title, None);
    assert(with.subrange(with.len() - ending.len(), with.len() as int) =~= ending);
}

} // verus!
