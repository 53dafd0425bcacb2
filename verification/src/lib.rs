//! Verified core of a Telegram bot: MarkdownV2 escaping, command parsing,
//! caption building and the selection rules behind each command.
pub mod command;
pub mod currency;
pub mod error;
pub mod escape;
pub mod ffmpeg;
pub mod gpt;
pub mod jewtube;
pub mod json;
pub mod nhentai;
pub mod number;
pub mod pattern;
pub mod random;
pub mod reddit;
pub mod shorten;
pub mod shorts;
pub mod text;
pub mod tts;
pub mod urban;
pub mod xkcd;
pub mod yt_audio;
pub mod yt_download;
