pub mod ffmpeg;
pub mod ffprobe;
