//! Filename sanitizing and the platform allowlist.

use media_bot::utils::{
    contains_sub, get_file_extension, is_social_media_url, is_valid_url, sanitize_filename,
    starts_with_sub, str_eq,
};

#[test]
fn sanitize_replaces_unsafe_characters() {
    assert_eq!(sanitize_filename("my video: part#1.mp4"), "my_video__part_1.mp4");
}

#[test]
fn sanitize_keeps_safe_characters() {
    assert_eq!(sanitize_filename("clip-01_final.mp4"), "clip-01_final.mp4");
}

#[test]
fn sanitize_empty_is_empty() {
    assert_eq!(sanitize_filename(""), "");
}

#[test]
fn sanitize_is_idempotent() {
    let once = sanitize_filename("a b/c\\d*e?.mp4");
    let twice = sanitize_filename(&once);
    assert_eq!(twice, once);
}

#[test]
fn sanitize_output_only_safe_characters() {
    let out = sanitize_filename("weird \u{263a} title / with: stuff");
    assert!(out.chars().all(|c| c.is_alphanumeric() || c == '-' || c == '_' || c == '.'));
}

#[test]
fn unlisted_host_is_rejected() {
    assert!(!is_valid_url("https://example.com/video"));
}

#[test]
fn listed_hosts_are_accepted() {
    assert!(is_valid_url("https://youtube.com/watch?v=abc"));
    assert!(is_valid_url("https://youtu.be/abc"));
    assert!(is_valid_url("https://www.tiktok.com/@u/video/1"));
    assert!(is_valid_url("https://instagram.com/p/xyz"));
    assert!(is_valid_url("https://twitter.com/u/status/1"));
    assert!(is_valid_url("https://x.com/u/status/1"));
}

#[test]
fn listed_host_without_http_prefix_is_rejected() {
    assert!(!is_valid_url("see youtube.com/watch?v=abc"));
}

#[test]
fn social_media_filter_matches_anywhere_in_text() {
    assert!(is_social_media_url("look at this https://youtu.be/abc !"));
    assert!(!is_social_media_url("just some text"));
}

#[test]
fn extension_is_canonical_for_every_host() {
    assert_eq!(get_file_extension("https://youtube.com/watch?v=a"), "mp4");
    assert_eq!(get_file_extension("https://unknown.example/clip"), "mp4");
}

#[test]
fn substring_search_agrees_with_std() {
    assert!(contains_sub("abcdef", "cde"));
    assert!(contains_sub("abcdef", ""));
    assert!(!contains_sub("abcdef", "cdf"));
    assert!(!contains_sub("ab", "abc"));
    assert!(starts_with_sub("https://x.com", "http"));
    assert!(!starts_with_sub("ftp://x.com", "http"));
    assert!(str_eq("mp4", "mp4"));
    assert!(!str_eq("mp4", "mp3"));
    assert!(!str_eq("mp4", "mp40"));
}
