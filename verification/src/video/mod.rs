//! H.264 screen streaming.

pub mod capture;
pub mod config;
pub mod encoder;
pub mod history;
pub mod nal;
pub mod packet;
pub mod stream;

pub use nal::{annexb_nals, nal_type, to_avcc};
pub use packet::{StreamPacket, STREAM_FLAG_KEYFRAME, STREAM_KIND_CONFIG, STREAM_KIND_VIDEO};
