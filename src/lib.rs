//! Read-modify-write of an audio file's tag data: a normalized record of the
//! fields a tag container holds, a merge of form edits onto it, and the
//! construction of cover art from raw image bytes.
//!
//! Reading and writing the container itself is left to a codec outside this
//! library; everything between the two ends is verified here.

pub mod cover;
pub mod decimal;
pub mod input;
pub mod merge;
pub mod record;

pub use cover::{ingest, picture_from_sniffed};
pub use decimal::{parse_i32, parse_u8};
pub use input::screen_digit_input;
pub use merge::{merge, merge_date, Edits};
pub use record::{AlbumInfo, Picture, TagError, TagRecord, Timestamp};
