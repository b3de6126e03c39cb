//! The tag locator: decodes an ID3v2 tag from a file's bytes with the `id3`
//! crate and hands its frames to the field mapper.

use id3::Content as Id3Content;
use id3::TagLike;
use vstd::prelude::*;
use crate::frame::{
    comment_class, lemma_first_from_at, lemma_remove_keeps_text, lemma_remove_unmatched,
    picture_class, plain_text_of, text_of, with_id, Content, Frame,
};
use crate::mapper::{
    custom_entry, lemma_remove_custom_free, lemma_non_numeric_bpm, map_frames,
    metadata_of, BasicsView, TagBasics,
};
use crate::metadata::{opt_text, outcome_view, AudioMetadata, MetadataView, ParseError, ParseErrorView};
use crate::text::{all_digits, decimal_value, parse_u32_spec, unsigned_digits};

verus! {

#[verifier::external_type_specification]
#[verifier::external_body]
pub struct ExTag(id3::Tag);

/// The frames that a decoded tag holds, in tag order.
pub uninterp spec fn frames_of(t: id3::Tag) -> Seq<Frame>;

/// Why no tag could be read from a file's bytes.
pub enum ReadFailure {
    /// The bytes carry no ID3v2 tag.
    NoTag,
    /// Reading or decoding failed; the description of the failure.
    Unreadable(String),
}

pub enum ReadFailureView {
    NoTag,
    Unreadable(Seq<char>),
}

impl View for ReadFailure {
    type V = ReadFailureView;

    open spec fn view(&self) -> ReadFailureView {
        match self {
            ReadFailure::NoTag => ReadFailureView::NoTag,
            ReadFailure::Unreadable(m) => ReadFailureView::Unreadable(m@),
        }
    }
}

/// What decoding a tag from the given bytes gives: its frames, or why it failed.
pub uninterp spec fn decode_outcome(b: Seq<u8>) -> Result<Seq<Frame>, ReadFailureView>;

/// The bytes begin with what the decoder takes for a tag or a container:
/// `ID3` (a tag header), or, in 12 bytes or more, `FORM` (AIFF) or `RIFF`
/// with `WAVE` at offset 8.
pub open spec fn has_tag_marker(b: Seq<u8>) -> bool {
    ||| (b.len() >= 3 && b[0] == 0x49u8 && b[1] == 0x44u8 && b[2] == 0x33u8)
    ||| (b.len() >= 12 && b[0] == 0x46u8 && b[1] == 0x4fu8 && b[2] == 0x52u8 && b[3] == 0x4du8)
    ||| (b.len() >= 12 && b[0] == 0x52u8 && b[1] == 0x49u8 && b[2] == 0x46u8 && b[3] == 0x46u8
        && b[8] == 0x57u8 && b[9] == 0x41u8 && b[10] == 0x56u8 && b[11] == 0x45u8)
}

/// Relies on `id3::Tag::read_from2` over an in-memory reader: the outcome is
/// a function of the bytes; bytes without a marker go to its tag decoder,
/// whose header check gives the `NoTag` error kind.
#[verifier::external_body]
fn read_tag(bytes: &[u8]) -> (r: Result<id3::Tag, ReadFailure>)
    ensures
        match r {
            Ok(t) => decode_outcome(bytes@) == Ok::<Seq<Frame>, ReadFailureView>(frames_of(t)),
            Err(e) => decode_outcome(bytes@) == Err::<Seq<Frame>, ReadFailureView>(e@),
        },
        !has_tag_marker(bytes@) ==> r matches Err(ReadFailure::NoTag),
{
    match id3::Tag::read_from2(std::io::Cursor::new(bytes)) {
        Ok(t) => Ok(t),
        Err(e) => match e.kind {
            id3::ErrorKind::NoTag => Err(ReadFailure::NoTag),
            _ => Err(ReadFailure::Unreadable(e.to_string())),
        },
    }
}

/// Relies on `id3::Tag::frames`: the number of frames in the tag.
#[verifier::external_body]
fn frame_count(t: &id3::Tag) -> (r: usize)
    ensures
        r == frames_of(*t).len(),
{
    t.frames().count()
}

/// Relies on `id3::Tag::frames`, `id3::Frame::id` and `id3::Frame::content`:
/// the frame at position `i`, its content converted kind by kind.
#[verifier::external_body]
fn frame_at(t: &id3::Tag, i: usize) -> (r: Frame)
    requires
        i < frames_of(*t).len(),
    ensures
        r == frames_of(*t)[i as int],
{
    let f = t.frames().nth(i).unwrap();
    let content = match f.content() {
        Id3Content::Text(s) => Content::Text(s.clone()),
        Id3Content::ExtendedText(e) => Content::Extended(e.value.clone()),
        Id3Content::Link(s) => Content::Link(s.clone()),
        Id3Content::ExtendedLink(e) => Content::Extended(e.link.clone()),
        Id3Content::Comment(c) => Content::Comment(c.text.clone()),
        Id3Content::Lyrics(l) => Content::Lyrics(l.text.clone()),
        Id3Content::Picture(p) => Content::Picture { mime_type: p.mime_type.clone(), data: p.data.clone() },
        _ => Content::Other,
    };
    Frame { id: f.id().to_string(), content }
}


/// Relies on `id3::TagLike::title`: the text of the first `TIT2` frame, when
/// that frame is a text frame.
#[verifier::external_body]
fn tag_title(t: &id3::Tag) -> (r: Option<String>)
    ensures
        opt_text(r) == plain_text_of(frames_of(*t), "TIT2"@),
{
    t.title().map(|s| s.to_string())
}

/// Relies on `id3::TagLike::artist`: the text of the first `TPE1` frame, when
/// that frame is a text frame.
#[verifier::external_body]
fn tag_artist(t: &id3::Tag) -> (r: Option<String>)
    ensures
        opt_text(r) == plain_text_of(frames_of(*t), "TPE1"@),
{
    t.artist().map(|s| s.to_string())
}

/// Relies on `id3::TagLike::album`: the text of the first `TALB` frame, when
/// that frame is a text frame.
#[verifier::external_body]
fn tag_album(t: &id3::Tag) -> (r: Option<String>)
    ensures
        opt_text(r) == plain_text_of(frames_of(*t), "TALB"@),
{
    t.album().map(|s| s.to_string())
}

/// Relies on `id3::TagLike::album_artist`: the text of the first `TPE2` frame, when
/// that frame is a text frame.
#[verifier::external_body]
fn tag_album_artist(t: &id3::Tag) -> (r: Option<String>)
    ensures
        opt_text(r) == plain_text_of(frames_of(*t), "TPE2"@),
{
    t.album_artist().map(|s| s.to_string())
}

/// Relies on `id3::TagLike::genre`: the text of the first `TCON` frame, when
/// that frame is a text frame.
#[verifier::external_body]
fn tag_genre(t: &id3::Tag) -> (r: Option<String>)
    ensures
        opt_text(r) == plain_text_of(frames_of(*t), "TCON"@),
{
    t.genre().map(|s| s.to_string())
}

/// Relies on `id3::TagLike::year`: the first `TYER` frame's text, leading
/// zeros removed, parsed as an `i32`.
#[verifier::external_body]
fn tag_year(t: &id3::Tag) -> (r: Option<i32>)
    ensures
        r == year_spec(frames_of(*t)),
{
    t.year()
}

/// The year of the timestamp that `id3::Timestamp`'s parser reads from a
/// `TDRC` text, where it reads one.
pub uninterp spec fn timestamp_year(s: Seq<char>) -> Option<i32>;

/// Relies on `id3::TagLike::date_recorded`: the first `TDRC` frame's text
/// parsed as an `id3::Timestamp`, of which the year is taken.
#[verifier::external_body]
fn tag_recorded_year(t: &id3::Tag) -> (r: Option<i32>)
    ensures
        r == match plain_text_of(frames_of(*t), "TDRC"@) {
            Some(s) => timestamp_year(s),
            None => None,
        },
{
    t.date_recorded().map(|ts| ts.year)
}

/// Relies on `id3::TagLike::track`: the number before the first `/` or NUL
/// in the first `TRCK` frame's text.
#[verifier::external_body]
fn tag_track(t: &id3::Tag) -> (r: Option<u32>)
    ensures
        r == leading_number(frames_of(*t), "TRCK"@),
{
    t.track()
}

/// Relies on `id3::TagLike::disc`: the number before the first `/` or NUL
/// in the first `TPOS` frame's text.
#[verifier::external_body]
fn tag_disc(t: &id3::Tag) -> (r: Option<u32>)
    ensures
        r == leading_number(frames_of(*t), "TPOS"@),
{
    t.disc()
}

/// Relies on `id3::TagLike::duration`: the first `TLEN` frame's text parsed
/// as a `u32`.
#[verifier::external_body]
fn tag_duration(t: &id3::Tag) -> (r: Option<u32>)
    ensures
        r == match plain_text_of(frames_of(*t), "TLEN"@) {
            Some(s) => parse_u32_spec(s),
            None => None,
        },
{
    t.duration()
}

/// `s` without its leading `'0'` characters.
pub open spec fn trim_leading_zeros(s: Seq<char>) -> Seq<char>
    decreases s.len(),
{
    if s.len() > 0 && s[0] == '0' {
        trim_leading_zeros(s.drop_first())
    } else {
        s
    }
}

/// What `str::parse::<i32>` gives: an optional sign, then one or more
/// decimal digits whose signed value fits in 32 bits.
pub open spec fn parse_i32_spec(s: Seq<char>) -> Option<i32> {
    if s.len() > 0 && s[0] == '-' {
        let d = s.drop_first();
        if d.len() > 0 && all_digits(d) && decimal_value(d) <= 0x8000_0000 {
            Some((0 - decimal_value(d)) as i32)
        } else {
            None
        }
    } else {
        let d = unsigned_digits(s);
        if d.len() > 0 && all_digits(d) && decimal_value(d) <= 0x7fff_ffff {
            Some(decimal_value(d) as i32)
        } else {
            None
        }
    }
}

/// The part of `s` before its first `/` or NUL character.
pub open spec fn before_separator(s: Seq<char>) -> Seq<char>
    decreases s.len(),
{
    if s.len() == 0 {
        s
    } else if s[0] == '/' || s[0] == '\0' {
        Seq::empty()
    } else {
        seq![s[0]] + before_separator(s.drop_first())
    }
}

/// The year that a tag's frames give.
pub open spec fn year_spec(fs: Seq<Frame>) -> Option<i32> {
    match plain_text_of(fs, "TYER"@) {
        Some(s) => parse_i32_spec(trim_leading_zeros(s)),
        None => None,
    }
}

/// The year of the recording time that a tag's frames give.
pub open spec fn recorded_year_spec(fs: Seq<Frame>) -> Option<i32> {
    match plain_text_of(fs, "TDRC"@) {
        Some(s) => timestamp_year(s),
        None => None,
    }
}

/// The number at the start of a number pair such as `3/12`.
pub open spec fn leading_number(fs: Seq<Frame>, id: Seq<char>) -> Option<u32> {
    match plain_text_of(fs, id) {
        Some(s) => parse_u32_spec(before_separator(s)),
        None => None,
    }
}

/// The values of the fields that a tag reports through its own accessors.
pub open spec fn basics_of(fs: Seq<Frame>) -> BasicsView {
    BasicsView {
        title: plain_text_of(fs, "TIT2"@),
        artist: plain_text_of(fs, "TPE1"@),
        album: plain_text_of(fs, "TALB"@),
        album_artist: plain_text_of(fs, "TPE2"@),
        genre: plain_text_of(fs, "TCON"@),
        year: year_spec(fs),
        recorded_year: recorded_year_spec(fs),
        track: leading_number(fs, "TRCK"@),
        disc: leading_number(fs, "TPOS"@),
        duration: match plain_text_of(fs, "TLEN"@) {
            Some(s) => parse_u32_spec(s),
            None => None,
        },
    }
}

/// The outcome of parsing a file whose bytes are `b`.
pub open spec fn parse_bytes_spec(b: Seq<u8>) -> Result<MetadataView, ParseErrorView> {
    match decode_outcome(b) {
        Ok(fs) => Ok(metadata_of(fs, basics_of(fs))),
        Err(ReadFailureView::NoTag) => Err(ParseErrorView::NoId3Tag),
        Err(ReadFailureView::Unreadable(m)) => Err(ParseErrorView::IoError(m)),
    }
}

/// All frames of a decoded tag, in tag order.
fn tag_frames(t: &id3::Tag) -> (r: Vec<Frame>)
    ensures
        r@ == frames_of(*t),
{
    let n = frame_count(t);
    let mut v: Vec<Frame> = Vec::new();
    let mut i: usize = 0;
    while i < n
        invariant
            n == frames_of(*t).len(),
            i <= n,
            v@ == frames_of(*t).subrange(0, i as int),
        decreases n - i,
    {
        let f = frame_at(t, i);
        v.push(f);
        i = i + 1;
        assert(v@ =~= frames_of(*t).subrange(0, i as int));
    }
    assert(v@ =~= frames_of(*t));
    v
}

/// The accessor values of a decoded tag.
fn tag_basics(t: &id3::Tag) -> (r: TagBasics)
    ensures
        r@ == basics_of(frames_of(*t)),
{
    TagBasics {
        title: tag_title(t),
        artist: tag_artist(t),
        album: tag_album(t),
        album_artist: tag_album_artist(t),
        genre: tag_genre(t),
        year: tag_year(t),
        recorded_year: tag_recorded_year(t),
        track: tag_track(t),
        disc: tag_disc(t),
        duration: tag_duration(t),
    }
}

/// Builds the record of a decoded tag.
pub fn metadata_from_tag(t: &id3::Tag) -> (r: AudioMetadata)
    ensures
        r@ == metadata_of(frames_of(*t), basics_of(frames_of(*t))),
{
    let frames = tag_frames(t);
    let basics = tag_basics(t);
    map_frames(&frames, basics)
}

/// Parses the ID3v2 tag held in a file's bytes.
pub fn parse_tag_bytes(bytes: &[u8]) -> (r: Result<AudioMetadata, ParseError>)
    ensures
        outcome_view(r) == parse_bytes_spec(bytes@),
        !has_tag_marker(bytes@) ==> r matches Err(ParseError::NoId3Tag),
{
    match read_tag(bytes) {
        Ok(t) => Ok(metadata_from_tag(&t)),
        Err(ReadFailure::NoTag) => Err(ParseError::NoId3Tag),
        Err(ReadFailure::Unreadable(m)) => Err(ParseError::IoError(m)),
    }
}

/// What the caller found at a path: nothing, a read failure, or the bytes.
pub enum FileInput {
    /// No regular file exists at the path.
    Missing,
    /// The file exists but could not be read; the description of the failure.
    Unreadable(String),
    /// The file's contents.
    Bytes(Vec<u8>),
}

/// Parses ID3 metadata from an audio file, given what was found at its path.
/// A missing file is reported before anything is decoded; a read failure
/// is reported with its description; otherwise the bytes are decoded.
pub fn parse_id3(file: FileInput) -> (r: Result<AudioMetadata, ParseError>)
    ensures
        match file {
            FileInput::Missing => r matches Err(ParseError::FileNotFound),
            FileInput::Unreadable(m) => outcome_view(r) == Err::<MetadataView, ParseErrorView>(
                ParseErrorView::IoError(m@),
            ),
            FileInput::Bytes(b) => {
                &&& outcome_view(r) == parse_bytes_spec(b@)
                &&& !has_tag_marker(b@) ==> r matches Err(ParseError::NoId3Tag)
            },
        },
{
    match file {
        FileInput::Missing => Err(ParseError::FileNotFound),
        FileInput::Unreadable(m) => Err(ParseError::IoError(m)),
        FileInput::Bytes(b) => parse_tag_bytes(b.as_slice()),
    }
}

/// Parsing is deterministic: the same bytes give the same record, or the
/// same error, every time.
pub proof fn lemma_parse_deterministic(b1: Seq<u8>, b2: Seq<u8>)
    requires
        b1 == b2,
    ensures
        parse_bytes_spec(b1) == parse_bytes_spec(b2),
{
}


/// A tag whose `TBPM` frame is not a number still parses: the record has
/// no `bpm`, and no error comes of it.
pub proof fn lemma_non_numeric_bpm_parses(b: Seq<u8>, fs: Seq<Frame>, t: Seq<char>)
    requires
        decode_outcome(b) == Ok::<Seq<Frame>, ReadFailureView>(fs),
        text_of(fs, "TBPM"@) == Some(t),
        !all_digits(unsigned_digits(t)),
    ensures
        parse_bytes_spec(b) is Ok,
        parse_bytes_spec(b)->Ok_0.bpm is None,
{
    lemma_non_numeric_bpm(fs, basics_of(fs), t);
}


proof fn lemma_tbpm_distinct()
    ensures
        "TBPM"@ != "TIT2"@,
        "TBPM"@ != "TPE1"@,
        "TBPM"@ != "TALB"@,
        "TBPM"@ != "TPE2"@,
        "TBPM"@ != "TCON"@,
        "TBPM"@ != "TYER"@,
        "TBPM"@ != "TDRC"@,
        "TBPM"@ != "TRCK"@,
        "TBPM"@ != "TPOS"@,
        "TBPM"@ != "TLEN"@,
        "TBPM"@ != "TCOM"@,
        "TBPM"@ != "TPUB"@,
        "TBPM"@ != "TENC"@,
        "TBPM"@ != "TLAN"@,
        "TBPM"@ != "TCOP"@,
        "TBPM"@ != "TOPE"@,
        "TBPM"@ != "TOAL"@,
        "TBPM"@ != "TORY"@,
        "TBPM"@ != "TSRC"@,
        "TBPM"@ != "USLT"@,
        "TBPM"@ != "TPE3"@,
        "TBPM"@ != "TPE4"@,
        "TBPM"@ != "TPRO"@,
        "TBPM"@ != "TIT1"@,
        "TBPM"@ != "TIT3"@,
        "TBPM"@ != "TDAT"@,
{
    reveal_strlit("TBPM");
    reveal_strlit("TIT2");
    assert("TBPM"@[1] != "TIT2"@[1]);
    reveal_strlit("TPE1");
    assert("TBPM"@[1] != "TPE1"@[1]);
    reveal_strlit("TALB");
    assert("TBPM"@[1] != "TALB"@[1]);
    reveal_strlit("TPE2");
    assert("TBPM"@[1] != "TPE2"@[1]);
    reveal_strlit("TCON");
    assert("TBPM"@[1] != "TCON"@[1]);
    reveal_strlit("TYER");
    assert("TBPM"@[1] != "TYER"@[1]);
    reveal_strlit("TDRC");
    assert("TBPM"@[1] != "TDRC"@[1]);
    reveal_strlit("TRCK");
    assert("TBPM"@[1] != "TRCK"@[1]);
    reveal_strlit("TPOS");
    assert("TBPM"@[1] != "TPOS"@[1]);
    reveal_strlit("TLEN");
    assert("TBPM"@[1] != "TLEN"@[1]);
    reveal_strlit("TCOM");
    assert("TBPM"@[1] != "TCOM"@[1]);
    reveal_strlit("TPUB");
    assert("TBPM"@[1] != "TPUB"@[1]);
    reveal_strlit("TENC");
    assert("TBPM"@[1] != "TENC"@[1]);
    reveal_strlit("TLAN");
    assert("TBPM"@[1] != "TLAN"@[1]);
    reveal_strlit("TCOP");
    assert("TBPM"@[1] != "TCOP"@[1]);
    reveal_strlit("TOPE");
    assert("TBPM"@[1] != "TOPE"@[1]);
    reveal_strlit("TOAL");
    assert("TBPM"@[1] != "TOAL"@[1]);
    reveal_strlit("TORY");
    assert("TBPM"@[1] != "TORY"@[1]);
    reveal_strlit("TSRC");
    assert("TBPM"@[1] != "TSRC"@[1]);
    reveal_strlit("USLT");
    assert("TBPM"@[0] != "USLT"@[0]);
    reveal_strlit("TPE3");
    assert("TBPM"@[1] != "TPE3"@[1]);
    reveal_strlit("TPE4");
    assert("TBPM"@[1] != "TPE4"@[1]);
    reveal_strlit("TPRO");
    assert("TBPM"@[1] != "TPRO"@[1]);
    reveal_strlit("TIT1");
    assert("TBPM"@[1] != "TIT1"@[1]);
    reveal_strlit("TIT3");
    assert("TBPM"@[1] != "TIT3"@[1]);
    reveal_strlit("TDAT");
    assert("TBPM"@[1] != "TDAT"@[1]);
}

/// A first `TBPM` frame whose text is not a number changes nothing but
/// `bpm`: the record equals that of the same frames without it, except that
/// `bpm` is absent.
pub proof fn lemma_bad_bpm_only_affects_bpm(fs: Seq<Frame>, k: int)
    requires
        0 <= k < fs.len(),
        fs[k].id@ == "TBPM"@,
        forall|j: int| 0 <= j < k ==> (#[trigger] fs[j]).id@ != "TBPM"@,
        fs[k].content is Text,
        !all_digits(unsigned_digits(fs[k].content->Text_0@)),
    ensures
        metadata_of(fs, basics_of(fs)) == (MetadataView {
            bpm: None,
            ..metadata_of(fs.remove(k), basics_of(fs.remove(k)))
        }),
{
    let rem = fs.remove(k);
    lemma_first_from_at(fs, with_id("TBPM"@), 0, k);
    lemma_tbpm_distinct();
    lemma_remove_keeps_text(fs, k, "TIT2"@);
    lemma_remove_keeps_text(fs, k, "TPE1"@);
    lemma_remove_keeps_text(fs, k, "TALB"@);
    lemma_remove_keeps_text(fs, k, "TPE2"@);
    lemma_remove_keeps_text(fs, k, "TCON"@);
    lemma_remove_keeps_text(fs, k, "TYER"@);
    lemma_remove_keeps_text(fs, k, "TDRC"@);
    lemma_remove_keeps_text(fs, k, "TRCK"@);
    lemma_remove_keeps_text(fs, k, "TPOS"@);
    lemma_remove_keeps_text(fs, k, "TLEN"@);
    lemma_remove_keeps_text(fs, k, "TCOM"@);
    lemma_remove_keeps_text(fs, k, "TPUB"@);
    lemma_remove_keeps_text(fs, k, "TENC"@);
    lemma_remove_keeps_text(fs, k, "TLAN"@);
    lemma_remove_keeps_text(fs, k, "TCOP"@);
    lemma_remove_keeps_text(fs, k, "TOPE"@);
    lemma_remove_keeps_text(fs, k, "TOAL"@);
    lemma_remove_keeps_text(fs, k, "TORY"@);
    lemma_remove_keeps_text(fs, k, "TSRC"@);
    lemma_remove_keeps_text(fs, k, "USLT"@);
    lemma_remove_keeps_text(fs, k, "TPE3"@);
    lemma_remove_keeps_text(fs, k, "TPE4"@);
    lemma_remove_keeps_text(fs, k, "TPRO"@);
    lemma_remove_keeps_text(fs, k, "TIT1"@);
    lemma_remove_keeps_text(fs, k, "TIT3"@);
    lemma_remove_keeps_text(fs, k, "TDAT"@);
    lemma_remove_unmatched(fs, comment_class(), k);
    lemma_remove_unmatched(fs, picture_class(), k);
    assert(custom_entry(fs[k]) is None);
    lemma_remove_custom_free(fs, k);
}

/// Parsing a file whose first `TBPM` frame is not a number succeeds, and
/// gives the record of the same tag without that frame, except that `bpm`
/// is absent.
pub proof fn lemma_bad_bpm_parses_like_without_it(b1: Seq<u8>, b2: Seq<u8>, fs: Seq<Frame>, k: int)
    requires
        decode_outcome(b1) == Ok::<Seq<Frame>, ReadFailureView>(fs),
        decode_outcome(b2) == Ok::<Seq<Frame>, ReadFailureView>(fs.remove(k)),
        0 <= k < fs.len(),
        fs[k].id@ == "TBPM"@,
        forall|j: int| 0 <= j < k ==> (#[trigger] fs[j]).id@ != "TBPM"@,
        fs[k].content is Text,
        !all_digits(unsigned_digits(fs[k].content->Text_0@)),
    ensures
        parse_bytes_spec(b1) == Ok::<MetadataView, ParseErrorView>(MetadataView {
            bpm: None,
            ..parse_bytes_spec(b2)->Ok_0
        }),
{
    lemma_bad_bpm_only_affects_bpm(fs, k);
}

} // verus!
