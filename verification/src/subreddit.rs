//! The listing requests of a feed: their URLs, and the paging over a feed
//! that is longer than one page.

use crate::text::{chars_of, decimal, push_decimal, push_text, slice_chars, string_of};
use vstd::prelude::*;

verus! {

broadcast use vstd::string::group_string_axioms;

/// The largest number of posts that one listing request returns.
pub const PAGE_SIZE: u32 = 100;

/// A subreddit whose feeds are listed.
#[derive(Debug, Clone)]
pub struct Subreddit {
    /// Name of subreddit.
    pub name: String,
    /// The URL under which the feeds of the subreddit are found.
    pub url: String,
}

/// The URL under which the feeds of a subreddit are found.
pub open spec fn subreddit_url(name: Seq<char>) -> Seq<char> {
    "https://www.reddit.com/r/"@ + name
}

/// What a part of the query adds to a URL, where the part is given.
pub open spec fn query_part(key: Seq<char>, value: Option<Seq<char>>) -> Seq<char> {
    match value {
        Some(v) => key + v,
        None => Seq::empty(),
    }
}

/// The URL of a listing request: the feed `ty` of the subreddit as JSON,
/// with the number of posts asked for, then the period and the name of the
/// post after which the listing starts, where they are given.
pub open spec fn feed_url_spec(
    base: Seq<char>,
    ty: Seq<char>,
    limit: u32,
    period: Option<Seq<char>>,
    after: Option<Seq<char>>,
) -> Seq<char> {
    base + "/"@ + ty + ".json?limit="@ + decimal(limit as nat) + query_part("&t="@, period)
        + query_part("&after="@, after)
}

/// The URL that delivers a single post as JSON: the URL of the post up to
/// its first `?`, followed by `.json`.
pub open spec fn post_json_url_spec(url: Seq<char>) -> Seq<char> {
    url.take(first_index_of(url, '?')) + ".json"@
}

/// The index of the first `c` in `s`; the length of `s` where it holds none.
pub open spec fn first_index_of(s: Seq<char>, c: char) -> int
    decreases s.len(),
{
    if s.len() == 0 {
        0
    } else if s[0] == c {
        0
    } else {
        1 + first_index_of(s.skip(1), c)
    }
}

/// The URL that delivers a single post as JSON.
pub fn post_json_url(url: &str) -> (json: String)
    ensures
        json@ == post_json_url_spec(url@),
{
    let chars = chars_of(url);
    let mut i: usize = 0;
    assert(chars@.skip(0) =~= chars@);
    while i < chars.len() && chars[i] != '?'
        invariant
            i <= chars.len(),
            first_index_of(chars@, '?') == i + first_index_of(chars@.skip(i as int), '?'),
        decreases chars.len() - i,
    {
        assert(chars@.skip(i as int).skip(1) =~= chars@.skip(i + 1));
        i = i + 1;
    }
    let mut out = slice_chars(&chars, 0, i);
    assert(chars@.subrange(0, i as int) =~= chars@.take(i as int));
    push_text(&mut out, ".json");
    string_of(&out)
}

impl Subreddit {
    /// Create a new `Subreddit` instance.
    pub fn new(name: &str) -> (subreddit: Subreddit)
        ensures
            subreddit.name@ == name@,
            subreddit.url@ == subreddit_url(name@),
    {
        let mut url = String::from_str("https://www.reddit.com/r/");
        url.append(name);
        Subreddit { name: name.to_owned(), url }
    }

    /// The URL of the request for one page of the feed `ty`.
    pub fn feed_url(&self, ty: &str, limit: u32, period: Option<&str>, after: Option<&str>) -> (url:
        String)
        ensures
            url@ == feed_url_spec(
                self.url@,
                ty@,
                limit,
                match period {
                    Some(p) => Some(p@),
                    None => None,
                },
                match after {
                    Some(a) => Some(a@),
                    None => None,
                },
            ),
    {
        let mut out = chars_of(self.url.as_str());
        push_text(&mut out, "/");
        push_text(&mut out, ty);
        push_text(&mut out, ".json?limit=");
        push_decimal(&mut out, limit as usize);
        let ghost head = out@;
        match period {
            Some(p) => {
                let mut part = chars_of("&t=");
                push_text(&mut part, p);
                out.extend_from_slice(part.as_slice());
            },
            None => {
                assert(out@ =~= head + Seq::<char>::empty());
            },
        }
        let ghost middle = out@;
        match after {
            Some(a) => {
                let mut part = chars_of("&after=");
                push_text(&mut part, a);
                out.extend_from_slice(part.as_slice());
            },
            None => {
                assert(out@ =~= middle + Seq::<char>::empty());
            },
        }
        string_of(&out)
    }
}

/// The progress of the retrieval of a feed, page by page.
#[derive(Debug, Clone)]
pub struct Pager {
    /// The number of posts asked for in all.
    pub limit: u32,
    /// The number of posts still to ask for.
    pub remaining: u32,
    /// The name of the last post received: the next page starts after it.
    pub after: Option<String>,
    /// The number of answers recorded, as far as it can be counted.
    pub requests: u32,
}

impl Pager {
    /// The retrieval of `limit` posts, none of them received.
    pub fn new(limit: u32) -> (pager: Pager)
        ensures
            pager.limit == limit,
            pager.remaining == limit,
            pager.after is None,
            pager.requests == 0,
    {
        Pager { limit, remaining: limit, after: None, requests: 0 }
    }

    /// The number of posts that the next request asks for; `None` where the
    /// retrieval is over. A feed of at most one page is asked for once, in
    /// full. A longer feed is asked for in pages until nothing remains.
    pub open spec fn next_limit_spec(&self) -> Option<u32> {
        if self.limit <= PAGE_SIZE {
            if self.requests == 0 {
                Some(self.limit)
            } else {
                None
            }
        } else if self.remaining == 0 {
            None
        } else if self.remaining > PAGE_SIZE {
            Some(PAGE_SIZE)
        } else {
            Some(self.remaining)
        }
    }

    /// What remains to ask for after an answer. Where the request failed or
    /// the page was empty, nothing: the retrieval is over.
    pub open spec fn remaining_after(&self, page_received: bool) -> u32 {
        match self.next_limit_spec() {
            Some(asked) => if page_received && self.remaining >= asked {
                (self.remaining - asked) as u32
            } else {
                0
            },
            None => self.remaining,
        }
    }

    /// The number of posts to ask for next, if the retrieval goes on.
    pub fn next_limit(&self) -> (next: Option<u32>)
        ensures
            next == self.next_limit_spec(),
    {
        if self.limit <= PAGE_SIZE {
            if self.requests == 0 {
                Some(self.limit)
            } else {
                None
            }
        } else if self.remaining == 0 {
            None
        } else if self.remaining > PAGE_SIZE {
            Some(PAGE_SIZE)
        } else {
            Some(self.remaining)
        }
    }

    /// Records the answer to the request that `next_limit` asked for.
    /// `last_name` is the name of the last post of the page, and `None`
    /// where the request failed or the page was empty. Where no request was
    /// asked for, nothing changes.
    pub fn record(&mut self, last_name: Option<String>)
        ensures
            final(self).limit == old(self).limit,
            final(self).remaining == old(self).remaining_after(last_name is Some),
            final(self).after == if last_name is Some && old(self).next_limit_spec() is Some {
                last_name
            } else {
                old(self).after
            },
            final(self).requests == if old(self).next_limit_spec() is Some && old(self).requests
                < u32::MAX {
                (old(self).requests + 1) as u32
            } else {
                old(self).requests
            },
    {
        let asked = match self.next_limit() {
            Some(n) => n,
            None => return ,
        };
        if self.requests < u32::MAX {
            self.requests = self.requests + 1;
        }
        match last_name {
            Some(name) => {
                if self.remaining >= asked {
                    self.remaining = self.remaining - asked;
                } else {
                    self.remaining = 0;
                }
                self.after = Some(name);
            },
            None => {
                self.remaining = 0;
            },
        }
    }
}

} // verus!
