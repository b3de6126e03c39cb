//! Reading ID3v2 metadata from audio files: the tag is decoded with the
//! `id3` crate, and the mapping of its frames to a metadata record is proved.

pub mod cover;
pub mod decoder;
pub mod frame;
pub mod mapper;
pub mod metadata;
pub mod recent;
pub mod session;
pub mod text;

pub use cover::{determine_image_extension, generate_cover_filename, sanitize_filename};
pub use decoder::{parse_id3, FileInput};
pub use metadata::{AudioMetadata, ParseError};
pub use recent::{load_recent_files, AppTheme};
pub use session::{update, Action, Message, State};
