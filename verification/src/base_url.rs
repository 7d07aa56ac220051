//! The client's model of an absolute URL: an origin (scheme and authority)
//! together with the sequence of path segments.  A URL whose path is just
//! `/` has one empty segment; a trailing slash shows up as a trailing empty
//! segment.  Normalization strips trailing empty segments down to the last
//! one and appends the fixed API version segment exactly once.

use vstd::prelude::*;

use crate::text::{push_char, without_slashes, strip_slashes};
use crate::version_segment;

verus! {

/// The mathematical model of an absolute URL.
#[verifier::ext_equal]
pub struct UrlModel {
    pub origin: Seq<char>,
    pub segments: Seq<Seq<char>>,
}

impl UrlModel {
    /// A well-formed model has at least one path segment, as every
    /// absolute URL's path starts with a slash.
    pub open spec fn wf(self) -> bool {
        self.segments.len() >= 1
    }

    /// The textual form: the origin followed by `/`-preceded segments.
    pub open spec fn str_spec(self) -> Seq<char> {
        self.origin + path_seq(self.segments)
    }
}

/// The textual form of a path: each segment preceded by one slash.
pub open spec fn path_seq(segments: Seq<Seq<char>>) -> Seq<char>
    decreases segments.len(),
{
    if segments.len() == 0 {
        Seq::empty()
    } else {
        path_seq(segments.drop_last()) + seq!['/'] + segments.last()
    }
}

/// Removes trailing empty segments while more than one segment remains.
pub open spec fn strip_trailing_empty(segments: Seq<Seq<char>>) -> Seq<Seq<char>>
    decreases segments.len(),
{
    if segments.len() > 1 && segments.last().len() == 0 {
        strip_trailing_empty(segments.drop_last())
    } else {
        segments
    }
}

/// Appends one segment the way a URL's path takes it: on the root path
/// (one empty segment) the new segment replaces it, otherwise it is
/// appended.
pub open spec fn push_segment(segments: Seq<Seq<char>>, seg: Seq<char>) -> Seq<Seq<char>> {
    if segments.len() == 1 && segments[0].len() == 0 {
        seq![seg]
    } else {
        segments.push(seg)
    }
}

/// The normalized form of a base URL's path: trailing empty segments
/// stripped, then the version segment appended once.
pub open spec fn normalized_segments(segments: Seq<Seq<char>>) -> Seq<Seq<char>> {
    push_segment(strip_trailing_empty(segments), version_segment())
}

/// The segments of a URL followed by `k` more trailing empty segments,
/// as `k` extra trailing slashes leave them.
pub open spec fn with_trailing_empties(segments: Seq<Seq<char>>, k: nat) -> Seq<Seq<char>>
    decreases k,
{
    if k == 0 {
        segments
    } else {
        with_trailing_empties(segments, (k - 1) as nat).push(Seq::empty())
    }
}

/// Trailing empty segments only lengthen the sequence.
proof fn lemma_with_trailing_empties_len(segments: Seq<Seq<char>>, k: nat)
    ensures
        with_trailing_empties(segments, k).len() == segments.len() + k,
    decreases k,
{
    if k > 0 {
        lemma_with_trailing_empties_len(segments, (k - 1) as nat);
    }
}

/// Law: one extra trailing slash does not change the normalized base
/// path.
pub proof fn lemma_normalize_trailing_slash(segments: Seq<Seq<char>>)
    requires
        segments.len() >= 1,
    ensures
        normalized_segments(segments.push(Seq::<char>::empty())) == normalized_segments(segments),
{
    assert(segments.push(Seq::<char>::empty()).drop_last() =~= segments);
}

/// Law: any number of extra trailing slashes leaves the normalized base
/// path of a URL unchanged (idempotence under trailing-slash variation).
pub proof fn lemma_normalize_trailing_slashes(segments: Seq<Seq<char>>, k: nat)
    requires
        segments.len() >= 1,
    ensures
        normalized_segments(with_trailing_empties(segments, k)) == normalized_segments(segments),
    decreases k,
{
    if k > 0 {
        lemma_normalize_trailing_slashes(segments, (k - 1) as nat);
        lemma_with_trailing_empties_len(segments, (k - 1) as nat);
        lemma_normalize_trailing_slash(with_trailing_empties(segments, (k - 1) as nat));
    }
}

/// Law: the normalized base path is never empty and always ends in the
/// version segment, however the input path looked.
pub proof fn lemma_normalized_ends_in_version(segments: Seq<Seq<char>>)
    ensures
        normalized_segments(segments).len() >= 1,
        normalized_segments(segments).last() == version_segment(),
{
}

/// An absolute URL held as plain values: its origin (for example
/// `https://example.com`) and its path segments.
pub struct ApiUrl {
    origin: String,
    segments: Vec<String>,
}

impl View for ApiUrl {
    type V = UrlModel;

    closed spec fn view(&self) -> UrlModel {
        UrlModel { origin: self.origin@, segments: self.segments.deep_view() }
    }
}

impl Clone for ApiUrl {
    /// A clone carries the same origin and segments.
    fn clone(&self) -> (r: Self)
        ensures
            r@ == self@,
    {
        let r = ApiUrl { origin: self.origin.clone(), segments: clone_segments(&self.segments) };
        proof {
            assert(r@ =~= self@);
        }
        r
    }
}

/// Clones a segment list, keeping every segment's characters.
fn clone_segments(v: &Vec<String>) -> (r: Vec<String>)
    ensures
        r.deep_view() == v.deep_view(),
{
    let mut r: Vec<String> = Vec::new();
    let mut i: usize = 0;
    while i < v.len()
        invariant
            i <= v.len(),
            r@.len() == i,
            forall|j: int| 0 <= j < i ==> r@[j] == v@[j],
        decreases v.len() - i,
    {
        r.push(v[i].clone());
        i = i + 1;
    }
    proof {
        assert(r.deep_view() =~= v.deep_view());
    }
    r
}

impl ApiUrl {
    /// Builds a URL value from its origin and path segments.
    pub fn from_parts(origin: String, segments: Vec<String>) -> (r: Self)
        ensures
            r@.origin == origin@,
            r@.segments == segments.deep_view(),
    {
        ApiUrl { origin, segments }
    }

    /// The URL for a path of just `/`: one empty segment.
    pub fn from_origin(origin: String) -> (r: Self)
        ensures
            r@.origin == origin@,
            r@.segments =~= seq![Seq::<char>::empty()],
    {
        let mut segments: Vec<String> = Vec::new();
        segments.push(String::new());
        let r = ApiUrl { origin, segments };
        proof {
            assert(r@.segments =~= seq![Seq::<char>::empty()]);
        }
        r
    }

    /// The textual form of the URL.
    pub fn url_string(&self) -> (r: String)
        ensures
            r@ == self@.str_spec(),
    {
        let mut s = self.origin.clone();
        let mut i: usize = 0;
        proof {
            assert(path_seq(self@.segments.subrange(0, 0)) =~= Seq::<char>::empty());
            assert(s@ =~= self@.origin + path_seq(self@.segments.subrange(0, 0)));
        }
        while i < self.segments.len()
            invariant
                i <= self.segments.len(),
                self@.segments.len() == self.segments.len(),
                s@ == self@.origin + path_seq(self@.segments.subrange(0, i as int)),
            decreases self.segments.len() - i,
        {
            push_char(&mut s, '/');
            s.append(self.segments[i].as_str());
            proof {
                let dv = self@.segments;
                assert(dv.subrange(0, i + 1).drop_last() =~= dv.subrange(0, i as int));
                assert(dv.subrange(0, i + 1).last() == dv[i as int]);
                assert(s@ =~= self@.origin + path_seq(dv.subrange(0, i + 1)));
            }
            i = i + 1;
        }
        proof {
            assert(self@.segments.subrange(0, self@.segments.len() as int) =~= self@.segments);
        }
        s
    }

    /// The textual form of the same host with its path cleared to `/`.
    pub fn root_string(&self) -> (r: String)
        ensures
            r@ == self@.origin + seq!['/'],
    {
        let mut s = self.origin.clone();
        push_char(&mut s, '/');
        s
    }

    /// Appends one path segment, stripping any `/` characters out of it
    /// first so that it stays a single segment.
    pub fn push_path_segment(&mut self, seg: &str)
        requires
            old(self)@.wf(),
        ensures
            final(self)@.origin == old(self)@.origin,
            final(self)@.segments == push_segment(old(self)@.segments, without_slashes(seg@)),
    {
        let clean = strip_slashes(seg);
        let root = self.segments.len() == 1 && self.segments[0].as_str().is_empty();
        if root {
            self.segments.pop();
        }
        self.segments.push(clean);
        proof {
            assert(self@.segments =~= push_segment(old(self)@.segments, without_slashes(seg@)));
        }
    }

    /// Normalizes the URL in place: strips trailing empty segments while
    /// more than one segment remains, then appends the version segment.
    pub fn normalize(&mut self)
        requires
            old(self)@.wf(),
        ensures
            final(self)@.origin == old(self)@.origin,
            final(self)@.segments == normalized_segments(old(self)@.segments),
    {
        while self.segments.len() > 1 && self.segments[self.segments.len() - 1].as_str().is_empty()
            invariant
                self@.origin == old(self)@.origin,
                self@.wf(),
                self.segments.len() == self@.segments.len(),
                strip_trailing_empty(self@.segments) == strip_trailing_empty(old(self)@.segments),
            decreases self.segments.len(),
        {
            proof {
                let dv = self@.segments;
                assert(dv.last() == dv[dv.len() - 1]);
                assert(dv.last().len() == 0);
            }
            let ghost prev = self@.segments;
            self.segments.pop();
            proof {
                assert(self@.segments =~= prev.drop_last());
                assert(strip_trailing_empty(prev) == strip_trailing_empty(prev.drop_last()));
            }
        }
        proof {
            assert(strip_trailing_empty(self@.segments) == self@.segments);
        }
        self.push_path_segment("v1");
        proof {
            reveal_strlit("v1");
            assert("v1"@ =~= version_segment());
            assert(without_slashes("v1"@) =~= version_segment()) by {
                reveal_with_fuel(Seq::filter, 4);
                assert("v1"@.drop_last() =~= seq!['v']);
                assert(seq!['v'].drop_last() =~= Seq::<char>::empty());
            }
        }
    }
}

} // verus!
