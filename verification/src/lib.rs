//! Verified core of the Suno music-video maker: the browser bridge protocol,
//! Suno metadata extraction, FFmpeg argument construction and the decisions
//! that drive the program's network and process work.
pub mod text;
pub mod bridge;
pub mod json;
pub mod metadata;
pub mod html;
pub mod names;
pub mod settings;
pub mod ffmpeg;
pub mod fetch;
pub mod generate;
pub mod clip;
