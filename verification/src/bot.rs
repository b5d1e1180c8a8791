//! Chat-facing rules: the supported commands with their replies, and the
//! mapping from a failed request's error to the text shown to the user.
//! Sending and editing messages is the transport's business, not decided
//! here.

use vstd::prelude::*;
use crate::models::DownloadError;

verus! {

/// The commands the bot understands.
#[derive(Debug, Clone)]
pub enum BotCommand {
    Start,
    Help,
    Status,
}

/// The reply sent for each command.
pub fn command_reply(cmd: &BotCommand) -> (r: String)
    ensures
        cmd is Start ==> r@
            == "Social Media Downloader Bot. Send me a link from YouTube, TikTok, Instagram or Twitter/X and I will download the video and send it to you. Commands: /start, /help, /status. Videos are deleted after download."@,
        cmd is Help ==> r@
            == "How to use: send any supported social media URL, wait for processing, and receive the video file. Supported platforms: YouTube, TikTok, Instagram, Twitter/X. Max file size: 2GB."@,
        cmd is Status ==> r@ == "Bot is running and ready to download!"@,
{
    match cmd {
        BotCommand::Start => String::from_str(
            "Social Media Downloader Bot. Send me a link from YouTube, TikTok, Instagram or Twitter/X and I will download the video and send it to you. Commands: /start, /help, /status. Videos are deleted after download.",
        ),
        BotCommand::Help => String::from_str(
            "How to use: send any supported social media URL, wait for processing, and receive the video file. Supported platforms: YouTube, TikTok, Instagram, Twitter/X. Max file size: 2GB.",
        ),
        BotCommand::Status => String::from_str("Bot is running and ready to download!"),
    }
}

/// The text shown to the user when a request fails. Oversized files and
/// budget-exhausted format lists get distinct wording; every other failure
/// falls back to a generic message, with the tool's diagnostics appended
/// when there are any.
pub fn user_facing_message(error: &DownloadError) -> (r: String)
    ensures
        error is FileTooLarge ==> r@ == "File too large. Maximum size is 2GB."@,
        error is NoSuitableFormat ==> r@
            == "No downloadable video found or video is too large."@,
        error matches DownloadError::ToolInvocation(detail) ==> r@ == "Download failed: "@
            + detail@,
        error is MetadataParse ==> r@ == "Download failed: could not read video metadata."@,
        error is OutputNotFound ==> r@ == "Download failed: produced file not found."@,
        error is Timeout ==> r@ == "Download failed: timed out."@,
{
    match error {
        DownloadError::FileTooLarge { .. } => String::from_str(
            "File too large. Maximum size is 2GB.",
        ),
        DownloadError::NoSuitableFormat => String::from_str(
            "No downloadable video found or video is too large.",
        ),
        DownloadError::ToolInvocation(detail) => {
            let mut s = String::from_str("Download failed: ");
            s.append(detail.as_str());
            s
        },
        DownloadError::MetadataParse => String::from_str(
            "Download failed: could not read video metadata.",
        ),
        DownloadError::OutputNotFound => String::from_str(
            "Download failed: produced file not found.",
        ),
        DownloadError::Timeout => String::from_str("Download failed: timed out."),
    }
}

} // verus!
