//! The metadata record that a parse produces, and the parse errors.

use vstd::prelude::*;

verus! {

pub open spec fn opt_text(o: Option<String>) -> Option<Seq<char>> {
    match o {
        Some(s) => Some(s@),
        None => None,
    }
}

pub open spec fn opt_bytes(o: Option<Vec<u8>>) -> Option<Seq<u8>> {
    match o {
        Some(v) => Some(v@),
        None => None,
    }
}

pub open spec fn pair_text(p: (String, String)) -> (Seq<char>, Seq<char>) {
    (p.0@, p.1@)
}

/// The metadata extracted from an ID3v2 tag. An absent field is `None`;
/// an empty string found in the tag is kept as such.
#[derive(Debug, Clone)]
pub struct AudioMetadata {
    pub title: Option<String>,
    pub artist: Option<String>,
    pub album: Option<String>,
    pub year: Option<u32>,
    pub genre: Option<String>,
    pub track: Option<u32>,
    /// Disc number.
    pub disc: Option<u32>,
    pub album_artist: Option<String>,
    pub composer: Option<String>,
    pub comment: Option<String>,
    /// Length in whole seconds.
    pub duration: Option<u32>,
    /// Record label or publisher.
    pub publisher: Option<String>,
    /// Software or hardware used to encode.
    pub encoder: Option<String>,
    pub language: Option<String>,
    pub copyright: Option<String>,
    pub original_artist: Option<String>,
    pub original_album: Option<String>,
    pub original_year: Option<u32>,
    /// Beats per minute.
    pub bpm: Option<u32>,
    /// International Standard Recording Code.
    pub isrc: Option<String>,
    pub lyrics: Option<String>,
    pub conductor: Option<String>,
    pub remixer: Option<String>,
    pub producer: Option<String>,
    /// Content group description.
    pub grouping: Option<String>,
    /// Subtitle or description refinement.
    pub subtitle: Option<String>,
    /// Recording date.
    pub date: Option<String>,
    /// Cover image bytes; present exactly when `cover_art_format` is.
    pub cover_art: Option<Vec<u8>>,
    /// The cover image's MIME type (such as `image/png`).
    pub cover_art_format: Option<String>,
    /// Frames without a named field, as (identifier, text), in tag order.
    pub custom_fields: Vec<(String, String)>,
}

/// `AudioMetadata` with its strings and byte buffers as sequences.
pub struct MetadataView {
    pub title: Option<Seq<char>>,
    pub artist: Option<Seq<char>>,
    pub album: Option<Seq<char>>,
    pub year: Option<u32>,
    pub genre: Option<Seq<char>>,
    pub track: Option<u32>,
    pub disc: Option<u32>,
    pub album_artist: Option<Seq<char>>,
    pub composer: Option<Seq<char>>,
    pub comment: Option<Seq<char>>,
    pub duration: Option<u32>,
    pub publisher: Option<Seq<char>>,
    pub encoder: Option<Seq<char>>,
    pub language: Option<Seq<char>>,
    pub copyright: Option<Seq<char>>,
    pub original_artist: Option<Seq<char>>,
    pub original_album: Option<Seq<char>>,
    pub original_year: Option<u32>,
    pub bpm: Option<u32>,
    pub isrc: Option<Seq<char>>,
    pub lyrics: Option<Seq<char>>,
    pub conductor: Option<Seq<char>>,
    pub remixer: Option<Seq<char>>,
    pub producer: Option<Seq<char>>,
    pub grouping: Option<Seq<char>>,
    pub subtitle: Option<Seq<char>>,
    pub date: Option<Seq<char>>,
    pub cover_art: Option<Seq<u8>>,
    pub cover_art_format: Option<Seq<char>>,
    pub custom_fields: Seq<(Seq<char>, Seq<char>)>,
}

impl View for AudioMetadata {
    type V = MetadataView;

    open spec fn view(&self) -> MetadataView {
        MetadataView {
            title: opt_text(self.title),
            artist: opt_text(self.artist),
            album: opt_text(self.album),
            year: self.year,
            genre: opt_text(self.genre),
            track: self.track,
            disc: self.disc,
            album_artist: opt_text(self.album_artist),
            composer: opt_text(self.composer),
            comment: opt_text(self.comment),
            duration: self.duration,
            publisher: opt_text(self.publisher),
            encoder: opt_text(self.encoder),
            language: opt_text(self.language),
            copyright: opt_text(self.copyright),
            original_artist: opt_text(self.original_artist),
            original_album: opt_text(self.original_album),
            original_year: self.original_year,
            bpm: self.bpm,
            isrc: opt_text(self.isrc),
            lyrics: opt_text(self.lyrics),
            conductor: opt_text(self.conductor),
            remixer: opt_text(self.remixer),
            producer: opt_text(self.producer),
            grouping: opt_text(self.grouping),
            subtitle: opt_text(self.subtitle),
            date: opt_text(self.date),
            cover_art: opt_bytes(self.cover_art),
            cover_art_format: opt_text(self.cover_art_format),
            custom_fields: self.custom_fields@.map_values(|p: (String, String)| pair_text(p)),
        }
    }
}

/// Why a parse produced no record.
#[derive(Debug, Clone)]
pub enum ParseError {
    FileNotFound,
    InvalidFormat,
    NoId3Tag,
    IoError(String),
}

pub enum ParseErrorView {
    FileNotFound,
    InvalidFormat,
    NoId3Tag,
    IoError(Seq<char>),
}

impl View for ParseError {
    type V = ParseErrorView;

    open spec fn view(&self) -> ParseErrorView {
        match self {
            ParseError::FileNotFound => ParseErrorView::FileNotFound,
            ParseError::InvalidFormat => ParseErrorView::InvalidFormat,
            ParseError::NoId3Tag => ParseErrorView::NoId3Tag,
            ParseError::IoError(m) => ParseErrorView::IoError(m@),
        }
    }
}

/// The message shown for each error.
pub open spec fn error_message(e: ParseErrorView) -> Seq<char> {
    match e {
        ParseErrorView::FileNotFound => "File not found"@,
        ParseErrorView::InvalidFormat => "Invalid audio format"@,
        ParseErrorView::NoId3Tag => "No ID3 tag found in file"@,
        ParseErrorView::IoError(m) => "IO error: "@ + m,
    }
}

impl ParseError {
    /// The message to display for this error.
    pub fn message(&self) -> (r: String)
        ensures
            r@ == error_message(self@),
    {
        match self {
            ParseError::FileNotFound => String::from_str("File not found"),
            ParseError::InvalidFormat => String::from_str("Invalid audio format"),
            ParseError::NoId3Tag => String::from_str("No ID3 tag found in file"),
            ParseError::IoError(m) => String::from_str("IO error: ").concat(m.as_str()),
        }
    }
}

pub open spec fn outcome_view(r: Result<AudioMetadata, ParseError>) -> Result<MetadataView, ParseErrorView> {
    match r {
        Ok(m) => Ok(m@),
        Err(e) => Err(e@),
    }
}

} // verus!
