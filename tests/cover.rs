use id3_manager::cover::{cover_filename, cover_identifier};
use id3_manager::{determine_image_extension, generate_cover_filename, sanitize_filename, AudioMetadata};

fn record(title: Option<&str>, artist: Option<&str>) -> AudioMetadata {
    AudioMetadata {
        title: title.map(|s| s.to_string()),
        artist: artist.map(|s| s.to_string()),
        album: None,
        year: None,
        genre: None,
        track: None,
        disc: None,
        album_artist: None,
        composer: None,
        comment: None,
        duration: None,
        publisher: None,
        encoder: None,
        language: None,
        copyright: None,
        original_artist: None,
        original_album: None,
        original_year: None,
        bpm: None,
        isrc: None,
        lyrics: None,
        conductor: None,
        remixer: None,
        producer: None,
        grouping: None,
        subtitle: None,
        date: None,
        cover_art: None,
        cover_art_format: None,
        custom_fields: Vec::new(),
    }
}

#[test]
fn extension_png() {
    assert_eq!(determine_image_extension(&Some("image/png".to_string())), "png");
}

#[test]
fn extension_bmp_defaults_to_jpg() {
    assert_eq!(determine_image_extension(&Some("image/bmp".to_string())), "jpg");
}

#[test]
fn extension_other_types() {
    assert_eq!(determine_image_extension(&Some("image/jpeg".to_string())), "jpg");
    assert_eq!(determine_image_extension(&Some("image/jpg".to_string())), "jpg");
    assert_eq!(determine_image_extension(&Some("image/gif".to_string())), "gif");
    assert_eq!(determine_image_extension(&Some("image/webp".to_string())), "webp");
    assert_eq!(determine_image_extension(&None), "jpg");
}

#[test]
fn sanitize_replaces_and_trims() {
    assert_eq!(sanitize_filename("  Hello, World!  "), "Hello__World");
    assert_eq!(sanitize_filename("a-b_c"), "a-b_c");
    assert_eq!(sanitize_filename("___"), "");
    assert_eq!(sanitize_filename("Café"), "Caf");
}

#[test]
fn identifier_joins_title_and_artist() {
    assert_eq!(cover_identifier(&record(Some("My Song"), Some("The Band")), 0), "My_Song_The_Band");
    assert_eq!(cover_identifier(&record(Some("Only"), None), 0), "Only");
    assert_eq!(cover_identifier(&record(None, Some("Solo!")), 0), "Solo");
    assert_eq!(cover_identifier(&record(None, None), 1700000000), "cover_1700000000");
}

#[test]
fn filename_truncates_and_appends_hash() {
    assert_eq!(cover_filename("abc", 255), "abc_ff.jpg");
    let long = "x".repeat(60);
    assert_eq!(cover_filename(&long, 0), format!("{}_0.jpg", "x".repeat(50)));
}

#[test]
fn generated_name_starts_with_identifier() {
    let name = generate_cover_filename(&record(Some("My Song"), Some("The Band")));
    assert!(name.starts_with("My_Song_The_Band_"));
    assert!(name.ends_with(".jpg"));
    assert_eq!(name, generate_cover_filename(&record(Some("My Song"), Some("The Band"))));
}

#[test]
fn sanitize_twice_is_sanitize_once() {
    for name in ["  Hello, World!  ", "__a__b__", "Café au lait", ""] {
        let once = sanitize_filename(name);
        assert_eq!(sanitize_filename(&once), once);
    }
}
