//! The cache store: one text value, kept as the whole content of one file.
//!
//! The file itself is read and written by the caller. This module says which
//! bytes go into it, what text a read yields, and which failures are reported.

use vstd::prelude::*;
use vstd::utf8::*;
use std::path::PathBuf;
use crate::notifier::{display_notification, reports, Notice};
use crate::paths::{path_from, path_is_file, path_text};
use crate::text::string_from_utf8;

verus! {

/// Name of the cache file, relative to the working directory.
pub const CACHE_FILE: &'static str = "cache.dat";

/// Summary of every notification about the cache file.
pub const CACHE_SUMMARY: &'static str = "std::fs";

/// What an attempt to read the cache file came to.
#[derive(Debug)]
pub enum CacheRead {
    /// There is no cache file.
    Absent,
    /// The file could not be opened; the system's message.
    OpenFailed(String),
    /// The file was opened and could not be read; the system's message.
    ReadFailed(String),
    /// The whole content of the file.
    Contents(Vec<u8>),
}

/// What an attempt to write the cache file came to.
#[derive(Debug)]
pub enum CacheWrite {
    /// The file now holds the bytes that were handed out.
    Written,
    /// The file could not be created; the system's message.
    CreateFailed(String),
    /// The file was created and could not be written; the system's message.
    WriteFailed(String),
}

/// The cached text, with the notification that reports a failed read, if any.
#[derive(Debug)]
pub struct CacheLoad {
    pub text: String,
    pub notice: Option<Notice>,
}

/// The content of the cache file that holds `text`: its UTF-8 encoding, with
/// nothing before or after it.
pub open spec fn cache_bytes_of(text: Seq<char>) -> Seq<u8> {
    encode_utf8(text)
}

/// The message for content that is not text.
pub open spec fn not_text() -> Seq<char> {
    "stream did not contain valid UTF-8"@
}

/// The text that a read yields: the decoded content where there is a file
/// whose content is well-formed UTF-8, and the empty string in every other case.
pub open spec fn cached_text(read: CacheRead) -> Seq<char> {
    match read {
        CacheRead::Contents(bytes) => if valid_utf8(bytes@) {
            decode_utf8(bytes@)
        } else {
            Seq::empty()
        },
        _ => Seq::empty(),
    }
}

/// The body of the notification that a read calls for, if it calls for one.
/// A missing file is no failure.
pub open spec fn read_failure_of(read: CacheRead) -> Option<Seq<char>> {
    match read {
        CacheRead::Absent => None,
        CacheRead::OpenFailed(error) => Some(
            "Error upon calling read_cache (File::open): "@ + error@,
        ),
        CacheRead::ReadFailed(error) => Some(
            "Error upon calling read_cache (File.read_to_string): "@ + error@,
        ),
        CacheRead::Contents(bytes) => if valid_utf8(bytes@) {
            None
        } else {
            Some("Error upon calling read_cache (File.read_to_string): "@ + not_text())
        },
    }
}

/// The body of the notification that a write calls for, if it calls for one.
pub open spec fn write_failure_of(outcome: CacheWrite) -> Option<Seq<char>> {
    match outcome {
        CacheWrite::Written => None,
        CacheWrite::CreateFailed(error) => Some(
            "Error upon calling write_cache (File::create): "@ + error@,
        ),
        CacheWrite::WriteFailed(error) => Some(
            "Error upon calling write_cache (File.write_all): "@ + error@,
        ),
    }
}

/// Gives the path of the cache file: its fixed name, relative to the working
/// directory.
pub fn cache_path() -> (file: PathBuf)
    ensures
        path_text(file) == CACHE_FILE@,
{
    path_from(CACHE_FILE)
}

/// Asks the filesystem whether the cache file is there as a regular file:
/// whether [`cache_path`] names one. The answer is whatever the disk holds at
/// the moment of the call.
pub fn cache_exists() -> (found: bool) {
    let file = cache_path();
    path_is_file(&file)
}

/// Gives the bytes that replace the whole content of the cache file when
/// `text` is saved.
pub fn write_cache(text: &str) -> (bytes: Vec<u8>)
    ensures
        bytes@ == cache_bytes_of(text@),
{
    text.as_bytes_vec()
}

/// Gives the notification for a write that failed, and none for one that
/// succeeded. Its body is also the line to log.
pub fn write_cache_report(outcome: &CacheWrite) -> (notice: Option<Notice>)
    ensures
        reports(notice, CACHE_SUMMARY@, write_failure_of(*outcome)),
{
    match outcome {
        CacheWrite::Written => None,
        CacheWrite::CreateFailed(error) => {
            let body = String::from_str("Error upon calling write_cache (File::create): ").concat(
                error.as_str(),
            );
            Some(display_notification(CACHE_SUMMARY, body.as_str()))
        },
        CacheWrite::WriteFailed(error) => {
            let body = String::from_str(
                "Error upon calling write_cache (File.write_all): ",
            ).concat(error.as_str());
            Some(display_notification(CACHE_SUMMARY, body.as_str()))
        },
    }
}

/// Turns the outcome of reading the cache file into the cached text. Every
/// failure yields the empty string; all but a missing file are reported.
pub fn read_cache(read: CacheRead) -> (load: CacheLoad)
    ensures
        load.text@ == cached_text(read),
        reports(load.notice, CACHE_SUMMARY@, read_failure_of(read)),
{
    match read {
        CacheRead::Absent => CacheLoad { text: String::new(), notice: None },
        CacheRead::OpenFailed(error) => {
            let body = String::from_str("Error upon calling read_cache (File::open): ").concat(
                error.as_str(),
            );
            CacheLoad {
                text: String::new(),
                notice: Some(display_notification(CACHE_SUMMARY, body.as_str())),
            }
        },
        CacheRead::ReadFailed(error) => {
            let body = String::from_str(
                "Error upon calling read_cache (File.read_to_string): ",
            ).concat(error.as_str());
            CacheLoad {
                text: String::new(),
                notice: Some(display_notification(CACHE_SUMMARY, body.as_str())),
            }
        },
        CacheRead::Contents(bytes) => {
            match string_from_utf8(bytes) {
                Some(text) => {
                    proof {
                        encode_utf8_decode_utf8(text@);
                    }
                    CacheLoad { text: text, notice: None }
                },
                None => {
                    let body = String::from_str(
                        "Error upon calling read_cache (File.read_to_string): ",
                    ).concat("stream did not contain valid UTF-8");
                    CacheLoad {
                        text: String::new(),
                        notice: Some(display_notification(CACHE_SUMMARY, body.as_str())),
                    }
                },
            }
        },
    }
}

/// Saving then loading gives back what was saved: a file that holds the bytes
/// written for `text` reads as `text`, for every text, and nothing is reported.
pub proof fn lemma_cache_round_trip(text: Seq<char>, content: Vec<u8>)
    requires
        content@ == cache_bytes_of(text),
    ensures
        cached_text(CacheRead::Contents(content)) == text,
        read_failure_of(CacheRead::Contents(content)) is None,
{
    encode_utf8_valid_utf8(text);
    encode_utf8_decode_utf8(text);
}

/// Without a cache file the cached text is the empty string, and nothing is
/// reported.
pub proof fn lemma_absent_cache_is_empty()
    ensures
        cached_text(CacheRead::Absent) == Seq::<char>::empty(),
        read_failure_of(CacheRead::Absent) is None,
{
}

} // verus!
