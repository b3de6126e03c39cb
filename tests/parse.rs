use id3::frame::{Comment, ExtendedText, Picture, PictureType};
use id3::{Content, Frame, Tag, TagLike, Version};
use id3_manager::{parse_id3, AudioMetadata, FileInput, ParseError};

fn tag_bytes(tag: &Tag) -> Vec<u8> {
    let mut out: Vec<u8> = Vec::new();
    tag.write_to(&mut out, Version::Id3v24).unwrap();
    out.extend_from_slice(&[0xFF, 0xFB, 0x90, 0x00]);
    out
}

fn parse_tag(tag: &Tag) -> AudioMetadata {
    parse_id3(FileInput::Bytes(tag_bytes(tag))).expect("tag parses")
}

fn comment(description: &str, text: &str) -> Frame {
    Frame::with_content(
        "COMM",
        Content::Comment(Comment {
            lang: "eng".to_string(),
            description: description.to_string(),
            text: text.to_string(),
        }),
    )
}

fn extended(description: &str, value: &str) -> Frame {
    Frame::with_content(
        "TXXX",
        Content::ExtendedText(ExtendedText {
            description: description.to_string(),
            value: value.to_string(),
        }),
    )
}

fn picture(mime: &str, data: &[u8]) -> Frame {
    Frame::with_content(
        "APIC",
        Content::Picture(Picture {
            mime_type: mime.to_string(),
            picture_type: PictureType::CoverFront,
            description: String::new(),
            data: data.to_vec(),
        }),
    )
}

#[test]
fn parsing_twice_gives_the_same_record() {
    let mut tag = Tag::new();
    tag.set_title("Song");
    tag.set_artist("Artist");
    tag.add_frame(Frame::text("TCOM", "Composer"));
    tag.add_frame(extended("mood", "calm"));
    let bytes = tag_bytes(&tag);
    let a = parse_id3(FileInput::Bytes(bytes.clone())).unwrap();
    let b = parse_id3(FileInput::Bytes(bytes)).unwrap();
    assert_eq!(format!("{:?}", a), format!("{:?}", b));
}

#[test]
fn no_header_is_no_tag() {
    let bytes = vec![0xFF, 0xFB, 0x90, 0x00, 1, 2, 3, 4, 5, 6, 7, 8, 9, 10, 11, 12];
    assert!(matches!(parse_id3(FileInput::Bytes(bytes)), Err(ParseError::NoId3Tag)));
}

#[test]
fn empty_file_is_no_tag() {
    assert!(matches!(parse_id3(FileInput::Bytes(Vec::new())), Err(ParseError::NoId3Tag)));
}

#[test]
fn missing_file_is_file_not_found() {
    assert!(matches!(parse_id3(FileInput::Missing), Err(ParseError::FileNotFound)));
}

#[test]
fn unreadable_file_is_io_error() {
    match parse_id3(FileInput::Unreadable("denied".to_string())) {
        Err(ParseError::IoError(m)) => assert_eq!(m, "denied"),
        _ => panic!("expected an IO error"),
    }
}

#[test]
fn unsupported_version_is_io_error() {
    let mut bytes = b"ID3".to_vec();
    bytes.extend_from_slice(&[9, 0, 0, 0, 0, 0, 0, 0]);
    assert!(matches!(parse_id3(FileInput::Bytes(bytes)), Err(ParseError::IoError(_))));
}

#[test]
fn two_comments_keep_the_first() {
    let mut tag = Tag::new();
    tag.add_frame(comment("first", "one"));
    tag.add_frame(comment("second", "two"));
    let m = parse_tag(&tag);
    assert_eq!(m.comment.as_deref(), Some("one"));
}

#[test]
fn non_numeric_bpm_is_absent() {
    let mut tag = Tag::new();
    tag.set_title("Song");
    tag.add_frame(Frame::text("TBPM", "fast"));
    let m = parse_tag(&tag);
    assert_eq!(m.bpm, None);
    assert_eq!(m.title.as_deref(), Some("Song"));
}

#[test]
fn numeric_bpm_and_original_year() {
    let mut tag = Tag::new();
    tag.add_frame(Frame::text("TBPM", "128"));
    tag.add_frame(Frame::text("TORY", "1999"));
    let m = parse_tag(&tag);
    assert_eq!(m.bpm, Some(128));
    assert_eq!(m.original_year, Some(1999));
}

#[test]
fn png_cover_is_kept_with_its_type() {
    let mut tag = Tag::new();
    tag.add_frame(picture("image/png", &[1, 2, 3]));
    let m = parse_tag(&tag);
    assert_eq!(m.cover_art, Some(vec![1, 2, 3]));
    assert_eq!(m.cover_art_format.as_deref(), Some("image/png"));
    assert_eq!(id3_manager::determine_image_extension(&m.cover_art_format), "png");
}

#[test]
fn extended_text_becomes_a_custom_field() {
    let mut tag = Tag::new();
    tag.add_frame(extended("greeting", "Hello"));
    let m = parse_tag(&tag);
    assert_eq!(m.custom_fields, vec![("TXXX".to_string(), "Hello".to_string())]);
}

#[test]
fn custom_fields_keep_tag_order() {
    let mut tag = Tag::new();
    tag.add_frame(Frame::text("TMOO", "calm"));
    tag.add_frame(extended("a", "first"));
    tag.add_frame(Frame::text("TKEY", "Am"));
    tag.add_frame(Frame::text("TEXT", ""));
    let m = parse_tag(&tag);
    assert_eq!(
        m.custom_fields,
        vec![
            ("TMOO".to_string(), "calm".to_string()),
            ("TXXX".to_string(), "first".to_string()),
            ("TKEY".to_string(), "Am".to_string()),
        ]
    );
}

#[test]
fn minimal_title_and_artist() {
    let mut tag = Tag::new();
    tag.add_frame(Frame::text("TIT2", "Song"));
    tag.add_frame(Frame::text("TPE1", "Artist"));
    let m = parse_tag(&tag);
    assert_eq!(m.title.as_deref(), Some("Song"));
    assert_eq!(m.artist.as_deref(), Some("Artist"));
    assert!(m.album.is_none() && m.year.is_none() && m.genre.is_none() && m.track.is_none());
    assert!(m.disc.is_none() && m.album_artist.is_none() && m.composer.is_none());
    assert!(m.comment.is_none() && m.duration.is_none() && m.publisher.is_none());
    assert!(m.encoder.is_none() && m.language.is_none() && m.copyright.is_none());
    assert!(m.original_artist.is_none() && m.original_album.is_none());
    assert!(m.original_year.is_none() && m.bpm.is_none() && m.isrc.is_none());
    assert!(m.lyrics.is_none() && m.conductor.is_none() && m.remixer.is_none());
    assert!(m.producer.is_none() && m.grouping.is_none() && m.subtitle.is_none());
    assert!(m.date.is_none() && m.cover_art.is_none() && m.cover_art_format.is_none());
    assert!(m.custom_fields.is_empty());
}

#[test]
fn accessor_fields_are_read() {
    let mut tag = Tag::new();
    tag.set_album("Album");
    tag.set_album_artist("Band");
    tag.set_genre("Rock");
    tag.set_year(2014);
    tag.add_frame(Frame::text("TRCK", "3/12"));
    tag.add_frame(Frame::text("TPOS", "2/2"));
    tag.set_duration(215_000);
    let m = parse_tag(&tag);
    assert_eq!(m.album.as_deref(), Some("Album"));
    assert_eq!(m.album_artist.as_deref(), Some("Band"));
    assert_eq!(m.genre.as_deref(), Some("Rock"));
    assert_eq!(m.year, Some(2014));
    assert_eq!(m.track, Some(3));
    assert_eq!(m.disc, Some(2));
    assert_eq!(m.duration, Some(215));
    assert!(m.custom_fields.is_empty());
}

#[test]
fn table_fields_are_read() {
    let mut tag = Tag::new();
    for (id, text) in [
        ("TCOM", "Composer"),
        ("TPUB", "Label"),
        ("TENC", "Encoder"),
        ("TLAN", "eng"),
        ("TCOP", "2020 Someone"),
        ("TOPE", "Original"),
        ("TOAL", "Old Album"),
        ("TSRC", "USRC17607839"),
        ("TPE3", "Conductor"),
        ("TPE4", "Remixer"),
        ("TPRO", "Producer"),
        ("TIT1", "Group"),
        ("TIT3", "Sub"),
        ("TDAT", "0101"),
    ] {
        tag.add_frame(Frame::text(id, text));
    }
    let m = parse_tag(&tag);
    assert_eq!(m.composer.as_deref(), Some("Composer"));
    assert_eq!(m.publisher.as_deref(), Some("Label"));
    assert_eq!(m.encoder.as_deref(), Some("Encoder"));
    assert_eq!(m.language.as_deref(), Some("eng"));
    assert_eq!(m.copyright.as_deref(), Some("2020 Someone"));
    assert_eq!(m.original_artist.as_deref(), Some("Original"));
    assert_eq!(m.original_album.as_deref(), Some("Old Album"));
    assert_eq!(m.isrc.as_deref(), Some("USRC17607839"));
    assert_eq!(m.conductor.as_deref(), Some("Conductor"));
    assert_eq!(m.remixer.as_deref(), Some("Remixer"));
    assert_eq!(m.producer.as_deref(), Some("Producer"));
    assert_eq!(m.grouping.as_deref(), Some("Group"));
    assert_eq!(m.subtitle.as_deref(), Some("Sub"));
    assert_eq!(m.date.as_deref(), Some("0101"));
    assert!(m.custom_fields.is_empty());
}

#[test]
fn lyrics_are_read() {
    let mut tag = Tag::new();
    tag.add_frame(Frame::with_content(
        "USLT",
        Content::Lyrics(id3::frame::Lyrics {
            lang: "eng".to_string(),
            description: String::new(),
            text: "la la".to_string(),
        }),
    ));
    let m = parse_tag(&tag);
    assert_eq!(m.lyrics.as_deref(), Some("la la"));
}

#[test]
fn empty_title_is_kept_as_empty() {
    let mut tag = Tag::new();
    tag.add_frame(Frame::text("TIT2", ""));
    let m = parse_tag(&tag);
    assert_eq!(m.title.as_deref(), Some(""));
}

#[test]
fn error_messages() {
    assert_eq!(ParseError::FileNotFound.message(), "File not found");
    assert_eq!(ParseError::InvalidFormat.message(), "Invalid audio format");
    assert_eq!(ParseError::NoId3Tag.message(), "No ID3 tag found in file");
    assert_eq!(ParseError::IoError("disk".to_string()).message(), "IO error: disk");
}

#[test]
fn recording_time_gives_the_year() {
    let mut tag = Tag::new();
    tag.add_frame(Frame::text("TDRC", "2020-05-01"));
    let m = parse_tag(&tag);
    assert_eq!(m.year, Some(2020));
    assert!(m.custom_fields.is_empty());
}

#[test]
fn tlen_milliseconds_become_seconds() {
    let mut tag = Tag::new();
    tag.add_frame(Frame::text("TLEN", "1000"));
    assert_eq!(parse_tag(&tag).duration, Some(1));
}

#[test]
fn short_container_marker_is_no_tag() {
    assert!(matches!(parse_id3(FileInput::Bytes(b"FORM".to_vec())), Err(ParseError::NoId3Tag)));
    let riff = b"RIFF\0\0\0\0AVI ".to_vec();
    assert!(matches!(parse_id3(FileInput::Bytes(riff)), Err(ParseError::NoId3Tag)));
}

#[test]
fn bad_bpm_changes_only_bpm() {
    let mut with_bpm = Tag::new();
    with_bpm.set_title("Song");
    with_bpm.add_frame(Frame::text("TBPM", "fast"));
    with_bpm.add_frame(Frame::text("TMOO", "calm"));
    let mut without = Tag::new();
    without.set_title("Song");
    without.add_frame(Frame::text("TMOO", "calm"));
    let a = parse_tag(&with_bpm);
    let b = parse_tag(&without);
    assert_eq!(format!("{:?}", a), format!("{:?}", b));
}
