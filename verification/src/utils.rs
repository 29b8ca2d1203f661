//! Helpers on file paths and durations.

use crate::text::{extension, file_stem, lowercase, path_extension, path_file_stem, str_eq, str_lowercase};
use vstd::prelude::*;
use vstd::string::*;

verus! {

/// The title given to a file whose path has no stem.
pub open spec fn unknown_name() -> Seq<char> {
    "Unknown"@
}

/// The display name of a file: its stem, or "Unknown" where it has none.
pub open spec fn name_or_unknown(stem: Option<Seq<char>>) -> Seq<char> {
    match stem {
        Some(s) => s,
        None => unknown_name(),
    }
}

/// Whether a lowercase extension is one of the audio formats known here.
pub open spec fn is_audio_extension(ext: Seq<char>) -> bool {
    ||| ext == "mp3"@
    ||| ext == "wav"@
    ||| ext == "flac"@
    ||| ext == "ogg"@
    ||| ext == "m4a"@
    ||| ext == "aac"@
}

/// Whether a path names an audio file, going by its extension in any case.
pub open spec fn names_audio_file(path: Seq<char>) -> bool {
    match path_extension(path) {
        Some(ext) => is_audio_extension(str_lowercase(ext)),
        None => false,
    }
}

/// Turns the stem found in a path into a display name.
pub fn file_name_or_unknown(stem: Option<String>) -> (name: String)
    ensures
        name@ == name_or_unknown(crate::text::opt_chars(stem)),
{
    match stem {
        Some(s) => s,
        None => "Unknown".to_owned(),
    }
}

/// Tells whether an extension, already in lowercase, is a known audio format.
pub fn audio_extension_matches(ext: &str) -> (known: bool)
    ensures
        known == is_audio_extension(ext@),
{
    str_eq(ext, "mp3") || str_eq(ext, "wav") || str_eq(ext, "flac") || str_eq(ext, "ogg")
        || str_eq(ext, "m4a") || str_eq(ext, "aac")
}

/// The display name of the file at `path`: its stem, or "Unknown".
pub fn get_file_name_from_path(path: &str) -> (name: String)
    ensures
        name@ == name_or_unknown(path_file_stem(path@)),
{
    file_name_or_unknown(file_stem(path))
}

/// Whether `path` has the extension of a known audio format, in any case.
pub fn is_audio_file(path: &str) -> (audio: bool)
    ensures
        audio == names_audio_file(path@),
{
    match extension(path) {
        Some(ext) => {
            let lower = lowercase(ext.as_str());
            audio_extension_matches(lower.as_str())
        },
        None => false,
    }
}

/// The text of one decimal digit.
pub open spec fn digit_text(digit: nat) -> Seq<char> {
    if digit == 0 {
        "0"@
    } else if digit == 1 {
        "1"@
    } else if digit == 2 {
        "2"@
    } else if digit == 3 {
        "3"@
    } else if digit == 4 {
        "4"@
    } else if digit == 5 {
        "5"@
    } else if digit == 6 {
        "6"@
    } else if digit == 7 {
        "7"@
    } else if digit == 8 {
        "8"@
    } else {
        "9"@
    }
}

/// A number in decimal, without leading zeros.
pub open spec fn decimal_text(n: nat) -> Seq<char>
    decreases n,
{
    if n < 10 {
        digit_text(n)
    } else {
        decimal_text(n / 10) + digit_text(n % 10)
    }
}

/// A number in decimal, with a leading zero where it has one digit.
pub open spec fn two_digit_text(n: nat) -> Seq<char> {
    if n < 10 {
        "0"@ + digit_text(n)
    } else {
        decimal_text(n)
    }
}

/// A duration as minutes and seconds, two digits each at least, with a
/// colon between them.
pub open spec fn duration_text(seconds: nat) -> Seq<char> {
    two_digit_text(seconds / 60) + ":"@ + two_digit_text(seconds % 60)
}

fn digit_str(digit: u64) -> (text: &'static str)
    requires
        digit < 10,
    ensures
        text@ == digit_text(digit as nat),
{
    if digit == 0 {
        "0"
    } else if digit == 1 {
        "1"
    } else if digit == 2 {
        "2"
    } else if digit == 3 {
        "3"
    } else if digit == 4 {
        "4"
    } else if digit == 5 {
        "5"
    } else if digit == 6 {
        "6"
    } else if digit == 7 {
        "7"
    } else if digit == 8 {
        "8"
    } else {
        "9"
    }
}

fn push_decimal(text: &mut String, n: u64)
    ensures
        final(text)@ == old(text)@ + decimal_text(n as nat),
    decreases n,
{
    if n >= 10 {
        push_decimal(text, n / 10);
    }
    text.append(digit_str(n % 10));
    proof {
        if n >= 10 {
            assert(text@ =~= old(text)@ + (decimal_text((n / 10) as nat) + digit_text(
                (n % 10) as nat,
            )));
        }
    }
}

fn push_two_digits(text: &mut String, n: u64)
    ensures
        final(text)@ == old(text)@ + two_digit_text(n as nat),
{
    if n < 10 {
        text.append("0");
        text.append(digit_str(n));
        assert(text@ =~= old(text)@ + ("0"@ + digit_text(n as nat)));
    } else {
        push_decimal(text, n);
    }
}

/// Writes a duration of whole seconds as minutes and seconds, such as
/// `03:07`.
pub fn format_duration(seconds: u64) -> (text: String)
    ensures
        text@ == duration_text(seconds as nat),
{
    let mut text = String::new();
    push_two_digits(&mut text, seconds / 60);
    text.append(":");
    push_two_digits(&mut text, seconds % 60);
    assert(text@ =~= two_digit_text((seconds / 60) as nat) + ":"@ + two_digit_text(
        (seconds % 60) as nat,
    ));
    text
}

} // verus!
