//! Command replies and the user-facing wording for each failure.

use media_bot::bot::{command_reply, user_facing_message, BotCommand};
use media_bot::models::DownloadError;

#[test]
fn status_command_reply() {
    assert_eq!(command_reply(&BotCommand::Status), "Bot is running and ready to download!");
}

#[test]
fn start_and_help_replies_mention_platforms() {
    let start = command_reply(&BotCommand::Start);
    let help = command_reply(&BotCommand::Help);
    assert!(start.contains("YouTube"));
    assert!(help.contains("Supported platforms"));
}

#[test]
fn too_large_gets_distinct_wording() {
    let msg = user_facing_message(&DownloadError::FileTooLarge { size: 3, max: 2 });
    assert_eq!(msg, "File too large. Maximum size is 2GB.");
}

#[test]
fn no_suitable_format_gets_distinct_wording() {
    let msg = user_facing_message(&DownloadError::NoSuitableFormat);
    assert_eq!(msg, "No downloadable video found or video is too large.");
}

#[test]
fn tool_failure_appends_diagnostics() {
    let msg = user_facing_message(&DownloadError::ToolInvocation("exit 1".to_string()));
    assert_eq!(msg, "Download failed: exit 1");
}

#[test]
fn remaining_errors_fall_back_to_generic_wording() {
    assert_eq!(
        user_facing_message(&DownloadError::MetadataParse),
        "Download failed: could not read video metadata."
    );
    assert_eq!(
        user_facing_message(&DownloadError::OutputNotFound),
        "Download failed: produced file not found."
    );
    assert_eq!(user_facing_message(&DownloadError::Timeout), "Download failed: timed out.");
}
