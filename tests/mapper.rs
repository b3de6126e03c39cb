use id3_manager::frame::{Content, Frame};
use id3_manager::mapper::{map_frames, TagBasics};
use id3_manager::text::parse_u32;

fn text(id: &str, t: &str) -> Frame {
    Frame { id: id.to_string(), content: Content::Text(t.to_string()) }
}

fn no_basics() -> TagBasics {
    TagBasics {
        title: None,
        artist: None,
        album: None,
        album_artist: None,
        genre: None,
        year: None,
        recorded_year: None,
        track: None,
        disc: None,
        duration: None,
    }
}

#[test]
fn mapper_first_comment_only() {
    let frames = vec![
        Frame { id: "COMM".to_string(), content: Content::Comment("first".to_string()) },
        Frame { id: "COMM".to_string(), content: Content::Comment("second".to_string()) },
    ];
    let m = map_frames(&frames, no_basics());
    assert_eq!(m.comment.as_deref(), Some("first"));
    assert!(m.custom_fields.is_empty());
}

#[test]
fn mapper_first_duplicate_text_frame_wins() {
    let frames = vec![text("TCOM", "A"), text("TCOM", "B")];
    let m = map_frames(&frames, no_basics());
    assert_eq!(m.composer.as_deref(), Some("A"));
}

#[test]
fn mapper_bpm_fast_is_none() {
    let m = map_frames(&vec![text("TBPM", "fast")], no_basics());
    assert_eq!(m.bpm, None);
}

#[test]
fn mapper_bpm_plus_sign_and_overflow() {
    assert_eq!(map_frames(&vec![text("TBPM", "+90")], no_basics()).bpm, Some(90));
    assert_eq!(map_frames(&vec![text("TBPM", "4294967296")], no_basics()).bpm, None);
    assert_eq!(map_frames(&vec![text("TBPM", "4294967295")], no_basics()).bpm, Some(u32::MAX));
}

#[test]
fn mapper_custom_fields_in_order_without_empty_or_binary() {
    let frames = vec![
        Frame { id: "TXXX".to_string(), content: Content::Extended("Hello".to_string()) },
        text("TIT2", "Song"),
        Frame { id: "PRIV".to_string(), content: Content::Other },
        text("TMOO", ""),
        Frame { id: "WOAR".to_string(), content: Content::Link("http://a.example".to_string()) },
        text("TLEN", "1000"),
    ];
    let m = map_frames(&frames, no_basics());
    assert_eq!(
        m.custom_fields,
        vec![
            ("TXXX".to_string(), "Hello".to_string()),
            ("WOAR".to_string(), "http://a.example".to_string()),
        ]
    );
}

#[test]
fn mapper_first_picture_is_cover() {
    let frames = vec![
        Frame {
            id: "APIC".to_string(),
            content: Content::Picture { mime_type: "image/gif".to_string(), data: vec![7] },
        },
        Frame {
            id: "APIC".to_string(),
            content: Content::Picture { mime_type: "image/png".to_string(), data: vec![8] },
        },
    ];
    let m = map_frames(&frames, no_basics());
    assert_eq!(m.cover_art, Some(vec![7]));
    assert_eq!(m.cover_art_format.as_deref(), Some("image/gif"));
}

#[test]
fn mapper_negative_year_is_absent() {
    let mut b = no_basics();
    b.year = Some(-5);
    assert_eq!(map_frames(&Vec::new(), b).year, None);
    let mut b = no_basics();
    b.year = Some(1987);
    b.title = Some("T".to_string());
    let m = map_frames(&Vec::new(), b);
    assert_eq!(m.year, Some(1987));
    assert_eq!(m.title.as_deref(), Some("T"));
}

#[test]
fn parse_u32_cases() {
    assert_eq!(parse_u32("0"), Some(0));
    assert_eq!(parse_u32("120"), Some(120));
    assert_eq!(parse_u32(""), None);
    assert_eq!(parse_u32("+"), None);
    assert_eq!(parse_u32("-1"), None);
    assert_eq!(parse_u32("12a"), None);
}

#[test]
fn mapper_year_falls_back_to_recording_time() {
    let mut b = no_basics();
    b.recorded_year = Some(2020);
    assert_eq!(map_frames(&Vec::new(), b).year, Some(2020));
    let mut b = no_basics();
    b.year = Some(1999);
    b.recorded_year = Some(2020);
    assert_eq!(map_frames(&Vec::new(), b).year, Some(1999));
    let mut b = no_basics();
    b.year = Some(-1);
    b.recorded_year = Some(2020);
    assert_eq!(map_frames(&Vec::new(), b).year, Some(2020));
}

#[test]
fn mapper_duration_in_seconds() {
    let mut b = no_basics();
    b.duration = Some(1000);
    assert_eq!(map_frames(&Vec::new(), b).duration, Some(1));
    let mut b = no_basics();
    b.duration = Some(999);
    assert_eq!(map_frames(&Vec::new(), b).duration, Some(0));
}
