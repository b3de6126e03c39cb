//! The frames of a decoded tag, as plain values, and lookups over them.

use vstd::prelude::*;

verus! {

/// What a frame carries, by kind of content.
#[derive(Debug, Clone)]
pub enum Content {
    /// A text frame (`T...`).
    Text(String),
    /// A user-defined text or link frame (`TXXX`, `WXXX`): its value.
    Extended(String),
    /// A web link frame (`W...`).
    Link(String),
    /// A comment frame (`COMM`): its text.
    Comment(String),
    /// An unsynchronised lyrics frame (`USLT`): its text.
    Lyrics(String),
    /// An attached picture (`APIC`).
    Picture { mime_type: String, data: Vec<u8> },
    /// Any content without a text form (binary objects, counters, chapters).
    Other,
}

/// One frame: its four-character identifier and its content.
#[derive(Debug, Clone)]
pub struct Frame {
    pub id: String,
    pub content: Content,
}

/// The text of a plain text frame, and nothing for other kinds.
pub open spec fn plain_text(c: Content) -> Option<Seq<char>> {
    match c {
        Content::Text(s) => Some(s@),
        _ => None,
    }
}

/// The text that a frame's content decodes to, where it has one.
pub open spec fn decoded_text(c: Content) -> Option<Seq<char>> {
    match c {
        Content::Text(s) => Some(s@),
        Content::Extended(s) => Some(s@),
        Content::Link(s) => Some(s@),
        Content::Comment(s) => Some(s@),
        Content::Lyrics(s) => Some(s@),
        _ => None,
    }
}

/// The position of the first frame at or after `i` that satisfies `p`.
pub open spec fn first_from(fs: Seq<Frame>, p: spec_fn(Frame) -> bool, i: int) -> Option<int>
    decreases fs.len() - i,
{
    if i < 0 || i >= fs.len() {
        None
    } else if p(fs[i]) {
        Some(i)
    } else {
        first_from(fs, p, i + 1)
    }
}

/// The position of the first frame that satisfies `p`.
pub open spec fn first_where(fs: Seq<Frame>, p: spec_fn(Frame) -> bool) -> Option<int> {
    first_from(fs, p, 0)
}

pub open spec fn with_id(id: Seq<char>) -> spec_fn(Frame) -> bool {
    |f: Frame| f.id@ == id
}

pub open spec fn comment_class() -> spec_fn(Frame) -> bool {
    |f: Frame| f.content is Comment
}

pub open spec fn picture_class() -> spec_fn(Frame) -> bool {
    |f: Frame| f.content is Picture
}

/// The plain text of the first frame with identifier `id` (what a tag's
/// text accessor returns): nothing when that frame is not a text frame.
pub open spec fn plain_text_of(fs: Seq<Frame>, id: Seq<char>) -> Option<Seq<char>> {
    match first_where(fs, with_id(id)) {
        Some(i) => plain_text(fs[i].content),
        None => None,
    }
}

/// The decoded text of the first frame with identifier `id`; later frames
/// with the same identifier are ignored.
pub open spec fn text_of(fs: Seq<Frame>, id: Seq<char>) -> Option<Seq<char>> {
    match first_where(fs, with_id(id)) {
        Some(i) => decoded_text(fs[i].content),
        None => None,
    }
}

pub proof fn lemma_first_from_skip(fs: Seq<Frame>, p: spec_fn(Frame) -> bool, i: int)
    requires
        0 <= i < fs.len(),
        !p(fs[i]),
    ensures
        first_from(fs, p, i) == first_from(fs, p, i + 1),
{
}

/// The first frame at or after `k` that satisfies `p` is at `i`.
pub proof fn lemma_first_from_at(fs: Seq<Frame>, p: spec_fn(Frame) -> bool, k: int, i: int)
    requires
        0 <= k <= i < fs.len(),
        p(fs[i]),
        forall|j: int| k <= j < i ==> !p(#[trigger] fs[j]),
    ensures
        first_from(fs, p, k) == Some(i),
    decreases i - k,
{
    if k < i {
        lemma_first_from_at(fs, p, k + 1, i);
    }
}

/// The frame at a position, if any.
pub open spec fn found(fs: Seq<Frame>, r: Option<int>) -> Option<Frame> {
    match r {
        Some(i) => Some(fs[i]),
        None => None,
    }
}

proof fn lemma_remove_after(fs: Seq<Frame>, p: spec_fn(Frame) -> bool, k: int, j: int)
    requires
        0 <= k <= j,
        k < fs.len(),
    ensures
        found(fs.remove(k), first_from(fs.remove(k), p, j)) == found(fs, first_from(fs, p, j + 1)),
    decreases fs.len() - j,
{
    let rem = fs.remove(k);
    if j < rem.len() {
        assert(rem[j] == fs[j + 1]);
        if !p(rem[j]) {
            lemma_remove_after(fs, p, k, j + 1);
        }
    }
}

proof fn lemma_remove_before(fs: Seq<Frame>, p: spec_fn(Frame) -> bool, k: int, j: int)
    requires
        0 <= j <= k < fs.len(),
        !p(fs[k]),
    ensures
        found(fs.remove(k), first_from(fs.remove(k), p, j)) == found(fs, first_from(fs, p, j)),
    decreases k - j,
{
    let rem = fs.remove(k);
    if j == k {
        lemma_remove_after(fs, p, k, k);
    } else {
        assert(rem[j] == fs[j]);
        if !p(fs[j]) {
            lemma_remove_before(fs, p, k, j + 1);
        }
    }
}

/// Removing a frame that does not satisfy `p` leaves the first frame that
/// satisfies `p` as it was.
pub proof fn lemma_remove_unmatched(fs: Seq<Frame>, p: spec_fn(Frame) -> bool, k: int)
    requires
        0 <= k < fs.len(),
        !p(fs[k]),
    ensures
        found(fs.remove(k), first_where(fs.remove(k), p)) == found(fs, first_where(fs, p)),
{
    lemma_remove_before(fs, p, k, 0);
}

/// Removing a frame with another identifier leaves the text of the first
/// frame with identifier `id` as it was.
pub proof fn lemma_remove_keeps_text(fs: Seq<Frame>, k: int, id: Seq<char>)
    requires
        0 <= k < fs.len(),
        fs[k].id@ != id,
    ensures
        text_of(fs.remove(k), id) == text_of(fs, id),
        plain_text_of(fs.remove(k), id) == plain_text_of(fs, id),
{
    lemma_remove_unmatched(fs, with_id(id), k);
}

/// Finds the first frame with the given identifier.
pub fn find_by_id(frames: &Vec<Frame>, id: &str) -> (r: Option<usize>)
    ensures
        match r {
            Some(i) => first_where(frames@, with_id(id@)) == Some(i as int) && i < frames@.len(),
            None => first_where(frames@, with_id(id@)) is None,
        },
{
    let mut i: usize = 0;
    while i < frames.len()
        invariant
            i <= frames@.len(),
            first_where(frames@, with_id(id@)) == first_from(frames@, with_id(id@), i as int),
        decreases frames@.len() - i,
    {
        if crate::text::same_text(frames[i].id.as_str(), id) {
            return Some(i);
        }
        proof {
            lemma_first_from_skip(frames@, with_id(id@), i as int);
        }
        i = i + 1;
    }
    None
}

/// Finds the first comment frame.
pub fn find_comment(frames: &Vec<Frame>) -> (r: Option<usize>)
    ensures
        match r {
            Some(i) => first_where(frames@, comment_class()) == Some(i as int) && i < frames@.len(),
            None => first_where(frames@, comment_class()) is None,
        },
{
    let mut i: usize = 0;
    while i < frames.len()
        invariant
            i <= frames@.len(),
            first_where(frames@, comment_class()) == first_from(frames@, comment_class(), i as int),
        decreases frames@.len() - i,
    {
        if let Content::Comment(_) = &frames[i].content {
            return Some(i);
        }
        proof {
            lemma_first_from_skip(frames@, comment_class(), i as int);
        }
        i = i + 1;
    }
    None
}

/// Finds the first picture frame.
pub fn find_picture(frames: &Vec<Frame>) -> (r: Option<usize>)
    ensures
        match r {
            Some(i) => first_where(frames@, picture_class()) == Some(i as int) && i < frames@.len(),
            None => first_where(frames@, picture_class()) is None,
        },
{
    let mut i: usize = 0;
    while i < frames.len()
        invariant
            i <= frames@.len(),
            first_where(frames@, picture_class()) == first_from(frames@, picture_class(), i as int),
        decreases frames@.len() - i,
    {
        if let Content::Picture { .. } = &frames[i].content {
            return Some(i);
        }
        proof {
            lemma_first_from_skip(frames@, picture_class(), i as int);
        }
        i = i + 1;
    }
    None
}

/// Copies the decoded text of a frame's content, where it has one.
pub fn content_text(c: &Content) -> (r: Option<String>)
    ensures
        match r {
            Some(s) => decoded_text(*c) == Some(s@),
            None => decoded_text(*c) is None,
        },
{
    match c {
        Content::Text(s) => Some(s.clone()),
        Content::Extended(s) => Some(s.clone()),
        Content::Link(s) => Some(s.clone()),
        Content::Comment(s) => Some(s.clone()),
        Content::Lyrics(s) => Some(s.clone()),
        _ => None,
    }
}

/// The decoded text of the first frame with identifier `id`.
pub fn lookup_text(frames: &Vec<Frame>, id: &str) -> (r: Option<String>)
    ensures
        match r {
            Some(s) => text_of(frames@, id@) == Some(s@),
            None => text_of(frames@, id@) is None,
        },
{
    match find_by_id(frames, id) {
        Some(i) => {
            let r = content_text(&frames[i].content);
            r
        },
        None => None,
    }
}

} // verus!
