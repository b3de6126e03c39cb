//! The field mapper: from a tag's frames to one `AudioMetadata` record.

use vstd::prelude::*;
use crate::frame::{
    lemma_first_from_at, comment_class, content_text, decoded_text, find_comment, find_picture, first_where,
    lookup_text, picture_class, text_of, Content, Frame,
};
use crate::metadata::{opt_text, pair_text, AudioMetadata, MetadataView};
use crate::text::{all_digits, parse_u32, parse_u32_spec, same_text, unsigned_digits};

verus! {

/// What a tag's own accessors report for the fields that have one.
pub struct TagBasics {
    pub title: Option<String>,
    pub artist: Option<String>,
    pub album: Option<String>,
    pub album_artist: Option<String>,
    pub genre: Option<String>,
    /// The year of the `TYER` frame.
    pub year: Option<i32>,
    /// The year of the recording time in the `TDRC` frame.
    pub recorded_year: Option<i32>,
    pub track: Option<u32>,
    pub disc: Option<u32>,
    /// The length in milliseconds, from the `TLEN` frame.
    pub duration: Option<u32>,
}

pub struct BasicsView {
    pub title: Option<Seq<char>>,
    pub artist: Option<Seq<char>>,
    pub album: Option<Seq<char>>,
    pub album_artist: Option<Seq<char>>,
    pub genre: Option<Seq<char>>,
    pub year: Option<i32>,
    pub recorded_year: Option<i32>,
    pub track: Option<u32>,
    pub disc: Option<u32>,
    pub duration: Option<u32>,
}

impl View for TagBasics {
    type V = BasicsView;

    open spec fn view(&self) -> BasicsView {
        BasicsView {
            title: opt_text(self.title),
            artist: opt_text(self.artist),
            album: opt_text(self.album),
            album_artist: opt_text(self.album_artist),
            genre: opt_text(self.genre),
            year: self.year,
            recorded_year: self.recorded_year,
            track: self.track,
            disc: self.disc,
            duration: self.duration,
        }
    }
}

/// Identifiers that have a named field, through a tag accessor or the
/// lookup table; their frames never become custom fields.
pub open spec fn is_mapped_id(id: Seq<char>) -> bool {
    ||| id == "TIT2"@
    ||| id == "TPE1"@
    ||| id == "TALB"@
    ||| id == "TYER"@
    ||| id == "TDRC"@
    ||| id == "TCON"@
    ||| id == "TRCK"@
    ||| id == "TPE2"@
    ||| id == "TCOM"@
    ||| id == "COMM"@
    ||| id == "TPOS"@
    ||| id == "TLEN"@
    ||| id == "TPUB"@
    ||| id == "TENC"@
    ||| id == "TLAN"@
    ||| id == "TCOP"@
    ||| id == "TOPE"@
    ||| id == "TOAL"@
    ||| id == "TORY"@
    ||| id == "TBPM"@
    ||| id == "TSRC"@
    ||| id == "USLT"@
    ||| id == "TPE3"@
    ||| id == "TPE4"@
    ||| id == "TPRO"@
    ||| id == "TIT1"@
    ||| id == "TIT3"@
    ||| id == "TDAT"@
    ||| id == "APIC"@
}

/// The custom field that a frame yields: its identifier and text, when the
/// identifier is unmapped and the content decodes to non-empty text.
pub open spec fn custom_entry(f: Frame) -> Option<(Seq<char>, Seq<char>)> {
    if is_mapped_id(f.id@) {
        None
    } else {
        match decoded_text(f.content) {
            Some(t) => if t.len() > 0 { Some((f.id@, t)) } else { None },
            None => None,
        }
    }
}

/// The custom fields of a frame sequence, in frame order.
pub open spec fn custom_fields_of(fs: Seq<Frame>) -> Seq<(Seq<char>, Seq<char>)>
    decreases fs.len(),
{
    if fs.len() == 0 {
        Seq::empty()
    } else {
        let rest = custom_fields_of(fs.drop_last());
        match custom_entry(fs.last()) {
            Some(e) => rest.push(e),
            None => rest,
        }
    }
}

/// A numeric field: the first frame's text, parsed as an unsigned integer;
/// absent when there is no such frame or the text does not parse.
pub open spec fn number_of(fs: Seq<Frame>, id: Seq<char>) -> Option<u32> {
    match text_of(fs, id) {
        Some(t) => parse_u32_spec(t),
        None => None,
    }
}

/// The year as an unsigned number: a negative year counts as absent.
pub open spec fn year_field(y: Option<i32>) -> Option<u32> {
    match y {
        Some(v) => if v >= 0 { Some(v as u32) } else { None },
        None => None,
    }
}

/// The year of the record: the `TYER` year, or failing that the year of
/// the `TDRC` recording time; a negative year counts as absent.
pub open spec fn year_of(year: Option<i32>, recorded_year: Option<i32>) -> Option<u32> {
    match year_field(year) {
        Some(y) => Some(y),
        None => year_field(recorded_year),
    }
}

/// A length in milliseconds as whole seconds.
pub open spec fn seconds_of(ms: Option<u32>) -> Option<u32> {
    match ms {
        Some(v) => Some(v / 1000),
        None => None,
    }
}

/// The text of the first comment frame, whatever its language or description.
pub open spec fn comment_of(fs: Seq<Frame>) -> Option<Seq<char>> {
    match first_where(fs, comment_class()) {
        Some(i) => decoded_text(fs[i].content),
        None => None,
    }
}

/// The image bytes of the first picture frame.
pub open spec fn cover_of(fs: Seq<Frame>) -> Option<Seq<u8>> {
    match first_where(fs, picture_class()) {
        Some(i) => match fs[i].content {
            Content::Picture { mime_type, data } => Some(data@),
            _ => None,
        },
        None => None,
    }
}

/// The MIME type of the first picture frame.
pub open spec fn cover_format_of(fs: Seq<Frame>) -> Option<Seq<char>> {
    match first_where(fs, picture_class()) {
        Some(i) => match fs[i].content {
            Content::Picture { mime_type, data } => Some(mime_type@),
            _ => None,
        },
        None => None,
    }
}

/// The record built from a tag's frames and its accessor values.
pub open spec fn metadata_of(fs: Seq<Frame>, b: BasicsView) -> MetadataView {
    MetadataView {
        title: b.title,
        artist: b.artist,
        album: b.album,
        year: year_of(b.year, b.recorded_year),
        genre: b.genre,
        track: b.track,
        disc: b.disc,
        album_artist: b.album_artist,
        composer: text_of(fs, "TCOM"@),
        comment: comment_of(fs),
        duration: seconds_of(b.duration),
        publisher: text_of(fs, "TPUB"@),
        encoder: text_of(fs, "TENC"@),
        language: text_of(fs, "TLAN"@),
        copyright: text_of(fs, "TCOP"@),
        original_artist: text_of(fs, "TOPE"@),
        original_album: text_of(fs, "TOAL"@),
        original_year: number_of(fs, "TORY"@),
        bpm: number_of(fs, "TBPM"@),
        isrc: text_of(fs, "TSRC"@),
        lyrics: text_of(fs, "USLT"@),
        conductor: text_of(fs, "TPE3"@),
        remixer: text_of(fs, "TPE4"@),
        producer: text_of(fs, "TPRO"@),
        grouping: text_of(fs, "TIT1"@),
        subtitle: text_of(fs, "TIT3"@),
        date: text_of(fs, "TDAT"@),
        cover_art: cover_of(fs),
        cover_art_format: cover_format_of(fs),
        custom_fields: custom_fields_of(fs),
    }
}

/// Whether an identifier has a named field.
pub fn mapped_id(id: &str) -> (r: bool)
    ensures
        r == is_mapped_id(id@),
{
    same_text(id, "TIT2")
        || same_text(id, "TPE1")
        || same_text(id, "TALB")
        || same_text(id, "TYER")
        || same_text(id, "TDRC")
        || same_text(id, "TCON")
        || same_text(id, "TRCK")
        || same_text(id, "TPE2")
        || same_text(id, "TCOM")
        || same_text(id, "COMM")
        || same_text(id, "TPOS")
        || same_text(id, "TLEN")
        || same_text(id, "TPUB")
        || same_text(id, "TENC")
        || same_text(id, "TLAN")
        || same_text(id, "TCOP")
        || same_text(id, "TOPE")
        || same_text(id, "TOAL")
        || same_text(id, "TORY")
        || same_text(id, "TBPM")
        || same_text(id, "TSRC")
        || same_text(id, "USLT")
        || same_text(id, "TPE3")
        || same_text(id, "TPE4")
        || same_text(id, "TPRO")
        || same_text(id, "TIT1")
        || same_text(id, "TIT3")
        || same_text(id, "TDAT")
        || same_text(id, "APIC")
}

/// The parsed number in the first frame with identifier `id`.
pub fn lookup_number(frames: &Vec<Frame>, id: &str) -> (r: Option<u32>)
    ensures
        r == number_of(frames@, id@),
{
    match lookup_text(frames, id) {
        Some(t) => parse_u32(t.as_str()),
        None => None,
    }
}

/// Collects the custom fields of all frames, in frame order.
pub fn custom_fields(frames: &Vec<Frame>) -> (r: Vec<(String, String)>)
    ensures
        r@.map_values(|p: (String, String)| pair_text(p)) == custom_fields_of(frames@),
{
    let mut out: Vec<(String, String)> = Vec::new();
    let mut i: usize = 0;
    while i < frames.len()
        invariant
            i <= frames@.len(),
            out@.map_values(|p: (String, String)| pair_text(p)) == custom_fields_of(frames@.subrange(0, i as int)),
        decreases frames@.len() - i,
    {
        let f = &frames[i];
        let ghost prefix = frames@.subrange(0, i as int + 1);
        assert(prefix.drop_last() =~= frames@.subrange(0, i as int));
        assert(prefix.last() == frames@[i as int]);
        if !mapped_id(f.id.as_str()) {
            match content_text(&f.content) {
                Some(t) => {
                    if t.unicode_len() > 0 {
                        let id = f.id.clone();
                        out.push((id, t));
                        assert(out@.map_values(|p: (String, String)| pair_text(p)) =~= custom_fields_of(prefix));
                    }
                },
                None => {},
            }
        }
        i = i + 1;
    }
    assert(frames@.subrange(0, frames@.len() as int) =~= frames@);
    out
}

/// The year field from the `TYER` and `TDRC` years.
pub fn year_value(year: Option<i32>, recorded_year: Option<i32>) -> (r: Option<u32>)
    ensures
        r == year_of(year, recorded_year),
{
    match year {
        Some(v) if v >= 0 => Some(v as u32),
        _ => match recorded_year {
            Some(v) if v >= 0 => Some(v as u32),
            _ => None,
        },
    }
}

/// The duration field, in seconds, from a length in milliseconds.
pub fn duration_value(ms: Option<u32>) -> (r: Option<u32>)
    ensures
        r == seconds_of(ms),
{
    match ms {
        Some(v) => Some(v / 1000),
        None => None,
    }
}

/// Builds the record from a tag's frames and its accessor values: accessor
/// fields as given, table fields from the first frame with their identifier,
/// the first comment, the first picture, and the custom fields in order.
pub fn map_frames(frames: &Vec<Frame>, basics: TagBasics) -> (r: AudioMetadata)
    ensures
        r@ == metadata_of(frames@, basics@),
{
    let (cover_art, cover_art_format) = match find_picture(frames) {
        Some(i) => match &frames[i].content {
            Content::Picture { mime_type, data } => (Some(data.clone()), Some(mime_type.clone())),
            _ => (None, None),
        },
        None => (None, None),
    };
    let comment = match find_comment(frames) {
        Some(i) => content_text(&frames[i].content),
        None => None,
    };
    let m = AudioMetadata {
        title: basics.title,
        artist: basics.artist,
        album: basics.album,
        year: year_value(basics.year, basics.recorded_year),
        genre: basics.genre,
        track: basics.track,
        disc: basics.disc,
        album_artist: basics.album_artist,
        comment,
        duration: duration_value(basics.duration),
        composer: lookup_text(frames, "TCOM"),
        publisher: lookup_text(frames, "TPUB"),
        encoder: lookup_text(frames, "TENC"),
        language: lookup_text(frames, "TLAN"),
        copyright: lookup_text(frames, "TCOP"),
        original_artist: lookup_text(frames, "TOPE"),
        original_album: lookup_text(frames, "TOAL"),
        isrc: lookup_text(frames, "TSRC"),
        lyrics: lookup_text(frames, "USLT"),
        conductor: lookup_text(frames, "TPE3"),
        remixer: lookup_text(frames, "TPE4"),
        producer: lookup_text(frames, "TPRO"),
        grouping: lookup_text(frames, "TIT1"),
        subtitle: lookup_text(frames, "TIT3"),
        date: lookup_text(frames, "TDAT"),
        original_year: lookup_number(frames, "TORY"),
        bpm: lookup_number(frames, "TBPM"),
        cover_art,
        cover_art_format,
        custom_fields: custom_fields(frames),
    };
    m
}


/// Of two comment frames, the record's comment is the first one's text:
/// later comments are not merged in.
pub proof fn lemma_first_comment_wins(fs: Seq<Frame>, b: BasicsView, i: int, j: int)
    requires
        0 <= i < j < fs.len(),
        fs[i].content is Comment,
        fs[j].content is Comment,
        forall|k: int| 0 <= k < fs.len() && (#[trigger] fs[k]).content is Comment ==> k == i || k == j,
    ensures
        metadata_of(fs, b).comment == decoded_text(fs[i].content),
{
    lemma_first_from_at(fs, comment_class(), 0, i);
}

/// A `TBPM` frame whose text is not a number leaves `bpm` absent; the
/// rest of the record is built as usual.
pub proof fn lemma_non_numeric_bpm(fs: Seq<Frame>, b: BasicsView, t: Seq<char>)
    requires
        text_of(fs, "TBPM"@) == Some(t),
        !all_digits(unsigned_digits(t)),
    ensures
        metadata_of(fs, b).bpm is None,
{
}

/// Custom fields keep frame order: the fields of two frame runs, one after
/// the other, are the fields of the first run followed by those of the second.
pub proof fn lemma_custom_fields_concat(a: Seq<Frame>, c: Seq<Frame>)
    ensures
        custom_fields_of(a + c) == custom_fields_of(a) + custom_fields_of(c),
    decreases c.len(),
{
    if c.len() == 0 {
        assert(a + c =~= a);
        assert(custom_fields_of(a) + custom_fields_of(c) =~= custom_fields_of(a));
    } else {
        assert((a + c).drop_last() =~= a + c.drop_last());
        assert((a + c).last() == c.last());
        lemma_custom_fields_concat(a, c.drop_last());
        match custom_entry(c.last()) {
            Some(e) => {
                assert(custom_fields_of(a) + custom_fields_of(c) =~= (custom_fields_of(a)
                    + custom_fields_of(c.drop_last())).push(e));
            },
            None => {},
        }
    }
}

/// A frame with an unmapped identifier and non-empty text is exactly one
/// custom field: its identifier and its text.
pub proof fn lemma_unmapped_frame_entry(f: Frame, t: Seq<char>)
    requires
        !is_mapped_id(f.id@),
        decoded_text(f.content) == Some(t),
        t.len() > 0,
    ensures
        custom_fields_of(seq![f]) == seq![(f.id@, t)],
{
    assert(seq![f].drop_last() =~= Seq::<Frame>::empty());
    assert(seq![f].last() == f);
    assert(custom_entry(f) == Some((f.id@, t)));
    assert(custom_fields_of(Seq::<Frame>::empty()) == Seq::<(Seq<char>, Seq<char>)>::empty());
    assert(Seq::<(Seq<char>, Seq<char>)>::empty().push((f.id@, t)) =~= seq![(f.id@, t)]);
}


/// Removing a frame that yields no custom field leaves the custom fields
/// as they were.
pub proof fn lemma_remove_custom_free(fs: Seq<Frame>, k: int)
    requires
        0 <= k < fs.len(),
        custom_entry(fs[k]) is None,
    ensures
        custom_fields_of(fs.remove(k)) == custom_fields_of(fs),
{
    let f = fs[k];
    assert(seq![f].drop_last() =~= Seq::<Frame>::empty());
    assert(seq![f].last() == f);
    assert(custom_fields_of(Seq::<Frame>::empty()) == Seq::<(Seq<char>, Seq<char>)>::empty());
    assert(custom_fields_of(seq![f]) == custom_fields_of(seq![f].drop_last()));
    let head = fs.subrange(0, k);
    let tail = fs.subrange(k + 1, fs.len() as int);
    assert(fs =~= head + seq![f] + tail);
    assert(fs.remove(k) =~= head + tail);
    lemma_custom_fields_concat(head, seq![f]);
    lemma_custom_fields_concat(head + seq![f], tail);
    lemma_custom_fields_concat(head, tail);
    assert(custom_fields_of(head + seq![f]) =~= custom_fields_of(head));
}

/// `TXXX` (user-defined text) has no named field.
pub proof fn lemma_txxx_unmapped()
    ensures
        !is_mapped_id("TXXX"@),
{
    reveal_strlit("TXXX");
    reveal_strlit("TIT2");
    reveal_strlit("TPE1");
    reveal_strlit("TALB");
    reveal_strlit("TYER");
    reveal_strlit("TDRC");
    reveal_strlit("TCON");
    reveal_strlit("TRCK");
    reveal_strlit("TPE2");
    reveal_strlit("TCOM");
    reveal_strlit("COMM");
    reveal_strlit("TPOS");
    reveal_strlit("TLEN");
    reveal_strlit("TPUB");
    reveal_strlit("TENC");
    reveal_strlit("TLAN");
    reveal_strlit("TCOP");
    reveal_strlit("TOPE");
    reveal_strlit("TOAL");
    reveal_strlit("TORY");
    reveal_strlit("TBPM");
    reveal_strlit("TSRC");
    reveal_strlit("USLT");
    reveal_strlit("TPE3");
    reveal_strlit("TPE4");
    reveal_strlit("TPRO");
    reveal_strlit("TIT1");
    reveal_strlit("TIT3");
    reveal_strlit("TDAT");
    reveal_strlit("APIC");
    assert("TXXX"@[1] != "TIT2"@[1]);
    assert("TXXX"@[1] != "TPE1"@[1]);
    assert("TXXX"@[1] != "TALB"@[1]);
    assert("TXXX"@[1] != "TYER"@[1]);
    assert("TXXX"@[1] != "TDRC"@[1]);
    assert("TXXX"@[1] != "TCON"@[1]);
    assert("TXXX"@[1] != "TRCK"@[1]);
    assert("TXXX"@[1] != "TPE2"@[1]);
    assert("TXXX"@[1] != "TCOM"@[1]);
    assert("TXXX"@[0] != "COMM"@[0]);
    assert("TXXX"@[1] != "TPOS"@[1]);
    assert("TXXX"@[1] != "TLEN"@[1]);
    assert("TXXX"@[1] != "TPUB"@[1]);
    assert("TXXX"@[1] != "TENC"@[1]);
    assert("TXXX"@[1] != "TLAN"@[1]);
    assert("TXXX"@[1] != "TCOP"@[1]);
    assert("TXXX"@[1] != "TOPE"@[1]);
    assert("TXXX"@[1] != "TOAL"@[1]);
    assert("TXXX"@[1] != "TORY"@[1]);
    assert("TXXX"@[1] != "TBPM"@[1]);
    assert("TXXX"@[1] != "TSRC"@[1]);
    assert("TXXX"@[0] != "USLT"@[0]);
    assert("TXXX"@[1] != "TPE3"@[1]);
    assert("TXXX"@[1] != "TPE4"@[1]);
    assert("TXXX"@[1] != "TPRO"@[1]);
    assert("TXXX"@[1] != "TIT1"@[1]);
    assert("TXXX"@[1] != "TIT3"@[1]);
    assert("TXXX"@[1] != "TDAT"@[1]);
    assert("TXXX"@[0] != "APIC"@[0]);
}

/// A `TXXX` frame with text `Hello`, among frames that yield no custom
/// field, gives exactly one custom field: `("TXXX", "Hello")`.
pub proof fn lemma_single_extended_text(a: Seq<Frame>, f: Frame, c: Seq<Frame>)
    requires
        custom_fields_of(a).len() == 0,
        custom_fields_of(c).len() == 0,
        f.id@ == "TXXX"@,
        decoded_text(f.content) == Some("Hello"@),
    ensures
        custom_fields_of(a + seq![f] + c) == seq![("TXXX"@, "Hello"@)],
{
    lemma_txxx_unmapped();
    reveal_strlit("Hello");
    lemma_unmapped_frame_entry(f, "Hello"@);
    lemma_custom_fields_concat(a, seq![f]);
    lemma_custom_fields_concat(a + seq![f], c);
    assert(custom_fields_of(a) =~= Seq::<(Seq<char>, Seq<char>)>::empty());
    assert(custom_fields_of(c) =~= Seq::<(Seq<char>, Seq<char>)>::empty());
    assert(custom_fields_of(a + seq![f] + c) =~= seq![("TXXX"@, "Hello"@)]);
}

} // verus!
