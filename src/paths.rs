//! Platform directories and path joining.

use vstd::prelude::*;

verus! {

/// `s` ends with `suffix`.
pub open spec fn ends_with(s: Seq<char>, suffix: Seq<char>) -> bool {
    suffix.len() <= s.len() && s.subrange(s.len() - suffix.len(), s.len() as int) == suffix
}

/// Relies on `dirs::config_dir`: the user's configuration directory, if the
/// platform reports one. It reads the environment, so nothing is promised of it.
#[verifier::external_body]
pub(crate) fn host_config_dir() -> (r: Option<String>) {
    match dirs::config_dir() {
        Some(p) => Some(p.to_string_lossy().into_owned()),
        None => None,
    }
}

/// Relies on `dirs::data_local_dir`: the user's local data directory, if the
/// platform reports one. It reads the environment, so nothing is promised of it.
#[verifier::external_body]
pub(crate) fn host_data_local_dir() -> (r: Option<String>) {
    match dirs::data_local_dir() {
        Some(p) => Some(p.to_string_lossy().into_owned()),
        None => None,
    }
}

/// Relies on `dirs::home_dir`: the user's home directory, if the platform
/// reports one. It reads the environment, so nothing is promised of it.
#[verifier::external_body]
pub(crate) fn host_home_dir() -> (r: Option<String>) {
    match dirs::home_dir() {
        Some(p) => Some(p.to_string_lossy().into_owned()),
        None => None,
    }
}

/// A single path component with no separator in it, other than `.` and `..`.
pub open spec fn is_plain_name(s: Seq<char>) -> bool {
    &&& s.len() > 0
    &&& forall|i: int| 0 <= i < s.len() ==> #[trigger] s[i] != '/' && s[i] != '\\'
    &&& s != seq!['.']
    &&& s != seq!['.', '.']
}

/// The folder and file names that this library places under the user's
/// directories are plain names.
pub proof fn lemma_folder_names_plain()
    ensures
        is_plain_name("quantum-exegol"@),
        is_plain_name("quantum-workspace"@),
        is_plain_name("config.json"@),
        is_plain_name("logs"@),
{
    reveal_strlit("quantum-exegol");
    reveal_strlit("quantum-workspace");
    reveal_strlit("config.json");
    reveal_strlit("logs");
    let exegol = "quantum-exegol"@;
    assert forall|i: int| 0 <= i < exegol.len() implies #[trigger] exegol[i] != '/' && exegol[i] != '\\' by {
        if i < 7 {
        } else {
        }
    }
    let workspace = "quantum-workspace"@;
    assert forall|i: int| 0 <= i < workspace.len() implies #[trigger] workspace[i] != '/' && workspace[i] != '\\' by {
        if i < 8 {
        } else {
        }
    }
    assert("quantum-exegol"@ != seq!['.', '.']);
    assert("quantum-workspace"@ != seq!['.', '.']);
    assert("config.json"@ != seq!['.', '.']);
    assert("logs"@ != seq!['.', '.']);
}

/// The path `base` adjoined with `part`, as text.
pub uninterp spec fn joined(base: Seq<char>, part: Seq<char>) -> Seq<char>;

/// Relies on `std::path::Path::join`: `part` is adjoined to `base` (after a
/// separator where one is needed), which depends on the two texts alone for
/// a given build target; the result ends with `part` when `part` is one plain
/// component (a verbatim Windows base would otherwise normalize separators
/// and dots). Both texts are UTF-8, so the lossy conversion is exact.
#[verifier::external_body]
pub(crate) fn join_path(base: &str, part: &str) -> (r: String)
    requires
        is_plain_name(part@),
    ensures
        r@ == joined(base@, part@),
        ends_with(r@, part@),
{
    std::path::Path::new(base).join(part).to_string_lossy().into_owned()
}

/// The text of an optional directory.
pub open spec fn dir_view(dir: Option<String>) -> Option<Seq<char>> {
    match dir {
        Some(d) => Some(d@),
        None => None,
    }
}

/// A looked-up directory, or the current directory `.` when there is none.
pub open spec fn or_current(dir: Option<Seq<char>>) -> Seq<char> {
    match dir {
        Some(d) => d,
        None => "."@,
    }
}

/// `dir` adjoined with `part`, where a missing `dir` stands for the current
/// directory.
pub fn join_or_current(dir: Option<String>, part: &str) -> (r: String)
    requires
        is_plain_name(part@),
    ensures
        r@ == joined(or_current(dir_view(dir)), part@),
        ends_with(r@, part@),
{
    match dir {
        Some(d) => join_path(d.as_str(), part),
        None => join_path(".", part),
    }
}

} // verus!
