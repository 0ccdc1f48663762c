//! Application directories, timestamp display and name validation.

use vstd::prelude::*;
use vstd::string::*;
use vstd::utf8::encode_utf8;
use crate::paths::{
    dir_view, ends_with, host_data_local_dir, host_home_dir, join_or_current, join_path, joined,
    lemma_folder_names_plain, or_current,
};

verus! {

/// Longest container name accepted, in bytes.
pub const MAX_CONTAINER_NAME_BYTES: usize = 64;

/// The application data directory for a looked-up local data directory.
pub open spec fn app_data_dir_from(data_local: Option<Seq<char>>) -> Seq<char> {
    joined(or_current(data_local), "quantum-exegol"@)
}

/// The workspace directory for a looked-up home directory.
pub open spec fn workspace_dir_from(home: Option<Seq<char>>) -> Seq<char> {
    joined(or_current(home), "quantum-workspace"@)
}

/// The application data directory: the platform's local data directory (or
/// the current directory when there is none) joined with `quantum-exegol`.
pub fn get_app_data_dir() -> (r: String)
    ensures
        exists|d: Option<Seq<char>>| r@ == app_data_dir_from(d),
        ends_with(r@, "quantum-exegol"@),
{
    proof {
        lemma_folder_names_plain();
    }
    let found = host_data_local_dir();
    let ghost d = dir_view(found);
    let r = join_or_current(found, "quantum-exegol");
    assert(r@ == app_data_dir_from(d));
    r
}

/// The logs directory, inside the application data directory.
pub fn get_logs_dir() -> (r: String)
    ensures
        exists|d: Option<Seq<char>>| r@ == joined(app_data_dir_from(d), "logs"@),
        ends_with(r@, "logs"@),
{
    let data = get_app_data_dir();
    proof {
        lemma_folder_names_plain();
    }
    join_path(data.as_str(), "logs")
}

/// The workspace directory: the home directory (or the current directory when
/// there is none) joined with `quantum-workspace`.
pub fn get_workspace_dir() -> (r: String)
    ensures
        exists|h: Option<Seq<char>>| r@ == workspace_dir_from(h),
        ends_with(r@, "quantum-workspace"@),
{
    proof {
        lemma_folder_names_plain();
    }
    let found = host_home_dir();
    let ghost h = dir_view(found);
    let r = join_or_current(found, "quantum-workspace");
    assert(r@ == workspace_dir_from(h));
    r
}

/// A timestamp for display: each `T` becomes a space and each `Z` is dropped.
pub open spec fn display_timestamp(s: Seq<char>) -> Seq<char>
    decreases s.len(),
{
    if s.len() == 0 {
        s
    } else {
        let rest = display_timestamp(s.drop_last());
        let c = s.last();
        if c == 'T' {
            rest.push(' ')
        } else if c == 'Z' {
            rest
        } else {
            rest.push(c)
        }
    }
}

/// Formats an ISO-8601 timestamp for display (`2026-02-20T10:00:00Z` becomes
/// `2026-02-20 10:00:00`).
pub fn format_timestamp(timestamp: &str) -> (r: String)
    ensures
        r@ == display_timestamp(timestamp@),
{
    let n = timestamp.unicode_len();
    let mut out = String::new();
    let mut i: usize = 0;
    while i < n
        invariant
            n == timestamp@.len(),
            i <= n,
            out@ == display_timestamp(timestamp@.subrange(0, i as int)),
        decreases n - i,
    {
        let c = timestamp.get_char(i);
        let ghost prefix = timestamp@.subrange(0, i as int);
        let ghost next = timestamp@.subrange(0, i + 1);
        assert(next.drop_last() == prefix);
        assert(next.last() == c);
        if c == 'T' {
            out.append(" ");
            proof {
                reveal_strlit(" ");
            }
        } else if c != 'Z' {
            let piece = timestamp.substring_char(i, i + 1);
            assert(piece@ == seq![c]);
            out.append(piece);
        }
        i = i + 1;
    }
    assert(timestamp@.subrange(0, n as int) == timestamp@);
    out
}

/// Whether a character is alphabetic or numeric in Unicode's sense.
pub uninterp spec fn char_alphanumeric(c: char) -> bool;

/// Relies on `char::is_alphanumeric`: the Unicode alphabetic or numeric
/// property of `c`, which depends on `c` alone.
#[verifier::external_body]
fn is_alphanumeric(c: char) -> (r: bool)
    ensures
        r == char_alphanumeric(c),
{
    c.is_alphanumeric()
}

/// A character that may stand in a container name, given whether it is
/// alphanumeric.
pub open spec fn name_char_ok(c: char, alphanumeric: bool) -> bool {
    alphanumeric || c == '-' || c == '_'
}

/// Whether `c` may stand in a container name, given whether it is alphanumeric.
pub fn container_name_char_allowed(c: char, alphanumeric: bool) -> (r: bool)
    ensures
        r == name_char_ok(c, alphanumeric),
{
    alphanumeric || c == '-' || c == '_'
}

/// Every character of the name may stand in a container name.
pub open spec fn container_name_chars_ok(s: Seq<char>) -> bool {
    forall|i: int| 0 <= i < s.len() ==> name_char_ok(#[trigger] s[i], char_alphanumeric(s[i]))
}

/// The message for the first rule a container name breaks, if any.
pub open spec fn container_name_error(s: Seq<char>) -> Option<Seq<char>> {
    if s.len() == 0 {
        Some("Container name cannot be empty"@)
    } else if encode_utf8(s).len() > MAX_CONTAINER_NAME_BYTES {
        Some("Container name too long (max 64 characters)"@)
    } else if !container_name_chars_ok(s) {
        Some("Container name contains invalid characters"@)
    } else {
        None
    }
}

/// Validates a container name: not empty, at most 64 bytes, and only
/// alphanumeric characters, `-` and `_`.
pub fn validate_container_name(name: &str) -> (r: Result<(), String>)
    ensures
        match r {
            Ok(()) => container_name_error(name@) is None,
            Err(m) => container_name_error(name@) == Some(m@),
        },
{
    if name.is_empty() {
        return Err(String::from_str("Container name cannot be empty"));
    }
    let bytes = name.as_bytes();
    if bytes.len() > MAX_CONTAINER_NAME_BYTES {
        return Err(String::from_str("Container name too long (max 64 characters)"));
    }
    let n = name.unicode_len();
    let mut i: usize = 0;
    while i < n
        invariant
            n == name@.len(),
            i <= n,
            0 < n,
            encode_utf8(name@).len() <= MAX_CONTAINER_NAME_BYTES,
            forall|j: int| 0 <= j < i ==> name_char_ok(#[trigger] name@[j], char_alphanumeric(name@[j])),
        decreases n - i,
    {
        let c = name.get_char(i);
        if !container_name_char_allowed(c, is_alphanumeric(c)) {
            assert(!name_char_ok(name@[i as int], char_alphanumeric(name@[i as int])));
            assert(!container_name_chars_ok(name@));
            return Err(String::from_str("Container name contains invalid characters"));
        }
        i = i + 1;
    }
    Ok(())
}

/// The message for the first rule an image name breaks, if any: it must not
/// be empty, and must hold a `/` or a `:`.
pub open spec fn image_name_error(s: Seq<char>) -> Option<Seq<char>> {
    if s.len() == 0 {
        Some("Image name cannot be empty"@)
    } else if !s.contains('/') && !s.contains(':') {
        Some("Invalid image name format"@)
    } else {
        None
    }
}

/// Validates an image name: not empty, and holding a `/` or a `:`.
pub fn validate_image_name(name: &str) -> (r: Result<(), String>)
    ensures
        match r {
            Ok(()) => image_name_error(name@) is None,
            Err(m) => image_name_error(name@) == Some(m@),
        },
{
    if name.is_empty() {
        return Err(String::from_str("Image name cannot be empty"));
    }
    let n = name.unicode_len();
    let mut i: usize = 0;
    while i < n
        invariant
            n == name@.len(),
            i <= n,
            forall|j: int| 0 <= j < i ==> name@[j] != '/' && name@[j] != ':',
        decreases n - i,
    {
        let c = name.get_char(i);
        if c == '/' || c == ':' {
            assert(name@[i as int] == c);
            return Ok(());
        }
        i = i + 1;
    }
    Err(String::from_str("Invalid image name format"))
}

} // verus!
