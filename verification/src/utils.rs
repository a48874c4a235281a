//! Small helpers: the user agent, the masking of secrets, and the test for a
//! path on disk.

use crate::text::{
    chars_of, contains, contains_chars, last_segment, last_segment_chars, same_text, string_of,
    text_of,
};
use crate::errors::GertError;
use std::path::Path;
use vstd::prelude::*;
use vstd::utf8::encode_utf8;

verus! {

broadcast use vstd::string::group_string_axioms;

/// The version that the user agent announces.
pub const VERSION: &'static str = "1.0.0";

/// The credentials that a run reads from its environment.
#[derive(Debug, Clone)]
pub struct UserEnv {
    pub username: String,
    pub password: String,
    pub client_id: String,
    pub client_secret: String,
}

/// The user agent of `username`: the program's name and version, then the
/// user in the form `(by u/<username>)`.
pub open spec fn user_agent(username: Seq<char>) -> Seq<char> {
    "gert:"@ + VERSION@ + " (by u/"@ + username + ")"@
}

/// Generate user agent string of the form `<name>:<version> (by u/<username>)`.
pub fn get_user_agent_string(username: &str) -> (agent: String)
    ensures
        agent@ == user_agent(username@),
{
    let mut agent = String::from_str("gert:");
    agent.append(VERSION);
    agent.append(" (by u/");
    agent.append(username);
    agent.append(")");
    agent
}

/// Check if a particular path is present on the filesystem. This calls
/// `std::path::Path::exists`; the answer depends on the disk at the time of
/// the call, so nothing is stated of it.
#[verifier::external_body]
pub fn check_path_present(file_path: &str) -> (present: bool) {
    Path::new(file_path).exists()
}

/// A secret as it may be shown. The empty word shows as `<EMPTY>`. A word of
/// at most three bytes shows as one star for each byte. A longer word keeps
/// its first two characters and the character whose index is the number of
/// its bytes less one; every other character shows as a star. The bytes are
/// those of the word in UTF-8, counted as a `usize`.
pub open spec fn masked(word: Seq<char>) -> Seq<char> {
    let bytes = encode_utf8(word).len() as usize;
    if word.len() == 0 {
        "<EMPTY>"@
    } else if bytes <= 3 {
        Seq::new(bytes as nat, |i: int| '*')
    } else {
        Seq::new(
            word.len(),
            |i: int|
                if i == 0 || i == 1 || i == bytes - 1 {
                    word[i]
                } else {
                    '*'
                },
        )
    }
}

/// Function that masks sensitive data such as password and client secrets
pub fn mask_sensitive(word: &str) -> (shown: String)
    ensures
        shown@ == masked(word@),
{
    let word_length: usize = word.len();
    if word.is_empty() {
        return String::from_str("<EMPTY>");
    }
    let chars = chars_of(word);
    let mut out: Vec<char> = Vec::new();
    if word_length <= 3 {
        let mut i: usize = 0;
        while i < word_length
            invariant
                i <= word_length,
                out@ == Seq::new(i as nat, |k: int| '*'),
                word_length == encode_utf8(word@).len() as usize,
            decreases word_length - i,
        {
            out.push('*');
            i = i + 1;
            assert(out@ =~= Seq::new(i as nat, |k: int| '*'));
        }
        let shown = string_of(&out);
        assert(shown@ =~= masked(word@));
        return shown;
    }
    let mut i: usize = 0;
    while i < chars.len()
        invariant
            i <= chars.len(),
            word_length > 3,
            chars@ == word@,
            out@ == Seq::new(
                i as nat,
                |k: int|
                    if k == 0 || k == 1 || k == word_length - 1 {
                        chars@[k]
                    } else {
                        '*'
                    },
            ),
        decreases chars.len() - i,
    {
        let c: char = if i == 0 || i == 1 || i == word_length - 1 {
            chars[i]
        } else {
            '*'
        };
        out.push(c);
        i = i + 1;
        assert(out@ =~= Seq::new(
            i as nat,
            |k: int|
                if k == 0 || k == 1 || k == word_length - 1 {
                    chars@[k]
                } else {
                    '*'
                },
        ));
    }
    let shown = string_of(&out);
    assert(shown@ =~= masked(word@));
    shown
}

/// `text` holds at least one of the `needles`.
pub open spec fn contains_any_spec(text: Seq<char>, needles: Seq<&str>) -> bool {
    exists|i: int| 0 <= i < needles.len() && contains(text, #[trigger] needles[i]@)
}

/// Check if the text holds any of the given strings.
pub fn contains_any(text: &str, needles: &[&str]) -> (found: bool)
    ensures
        found == contains_any_spec(text@, needles@),
{
    let chars = chars_of(text);
    let mut i: usize = 0;
    while i < needles.len()
        invariant
            i <= needles.len(),
            chars@ == text@,
            forall|j: int| 0 <= j < i ==> !contains(text@, #[trigger] needles@[j]@),
        decreases needles.len() - i,
    {
        let needle = chars_of(needles[i]);
        if contains_chars(&chars, &needle) {
            return true;
        }
        i = i + 1;
    }
    false
}

/// What follows the last dot of `url` is one of the `extensions`.
pub open spec fn has_extension_spec(url: Seq<char>, extensions: Seq<&str>) -> bool {
    exists|i: int| 0 <= i < extensions.len() && last_segment(url, '.') == #[trigger] extensions[i]@
}

/// Check if the URL ends in one of the given extensions.
pub fn has_extension(url: &str, extensions: &[&str]) -> (found: bool)
    ensures
        found == has_extension_spec(url@, extensions@),
{
    let chars = chars_of(url);
    let ending = string_of(&last_segment_chars(&chars, '.'));
    let mut i: usize = 0;
    while i < extensions.len()
        invariant
            i <= extensions.len(),
            ending@ == last_segment(url@, '.'),
            forall|j: int| 0 <= j < i ==> last_segment(url@, '.') != #[trigger] extensions@[j]@,
        decreases extensions.len() - i,
    {
        if same_text(ending.as_str(), extensions[i]) {
            return true;
        }
        i = i + 1;
    }
    false
}

/// The subtype of the media type that `text` writes, in lowercase, as the
/// `mime` crate reads it: what stands between the slash and the suffix or
/// the first parameter. `None` where `text` is no well-formed media type.
pub uninterp spec fn media_subtype(text: Seq<char>) -> Option<Seq<char>>;

/// Parses `text` with `mime::Mime::from_str` and copies the subtype that
/// `Mime::subtype` gives. A parse error gives `None`. The contract only
/// names the result.
#[verifier::external_body]
fn subtype_of(text: &str) -> (subtype: Option<String>)
    ensures
        text_of(subtype) == media_subtype(text@),
{
    text.parse::<mime::Mime>().ok().map(|media_type| media_type.subtype().as_str().to_owned())
}

/// The outcome of a probe of a URL for an image type: without a content
/// type in the answer the probe finds nothing; a content type that is no
/// well-formed media type is an error; any other is a find where its subtype
/// is the expected one.
pub open spec fn probe_outcome(
    present: bool,
    subtype: Option<Seq<char>>,
    expected: Seq<char>,
) -> Result<bool, GertError> {
    if !present {
        Ok(false)
    } else {
        match subtype {
            None => Err(GertError::FromStringConversionError),
            Some(found) => Ok(found == expected),
        }
    }
}

/// The outcome of a probe, given whether the answer holds a content type
/// and the subtype of that content type, where it is well-formed.
pub fn judge_content_type(present: bool, subtype: Option<&str>, expected: &str) -> (r: Result<
    bool,
    GertError,
>)
    ensures
        r == probe_outcome(
            present,
            match subtype {
                Some(found) => Some(found@),
                None => None,
            },
            expected@,
        ),
{
    if !present {
        Ok(false)
    } else {
        match subtype {
            None => Err(GertError::FromStringConversionError),
            Some(found) => Ok(same_text(found, expected)),
        }
    }
}

/// Judges the answer to a probe of a URL by its content type, if it has
/// one: the probe looks for the image type whose subtype is `expected`.
pub fn check_content_type(content_type: Option<&str>, expected: &str) -> (r: Result<
    bool,
    GertError,
>)
    ensures
        r == match content_type {
            None => probe_outcome(false, None, expected@),
            Some(text) => probe_outcome(true, media_subtype(text@), expected@),
        },
{
    match content_type {
        None => judge_content_type(false, None, expected),
        Some(text) => {
            let subtype = subtype_of(text);
            match &subtype {
                Some(found) => judge_content_type(true, Some(found.as_str()), expected),
                None => judge_content_type(true, None, expected),
            }
        },
    }
}

/// Whether a probe found the image: an error counts as not found.
pub fn probe_found(outcome: &Result<bool, GertError>) -> (found: bool)
    ensures
        found == (*outcome == Ok::<bool, GertError>(true)),
{
    match outcome {
        Ok(found) => *found,
        Err(_) => false,
    }
}

} // verus!
