//! streamsmith: the planning, argument-building and text logic behind a tool
//! that turns a video into an HLS adaptive-bitrate bundle.

pub mod encoder;
pub mod ladder;
pub mod media;
pub mod package;
pub mod probe;
pub mod serve;
pub mod text;
pub mod ui;
