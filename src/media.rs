//! Which paths are audio files this application takes, and the small
//! decisions of the desktop shell around a session.
use crate::history::{display_name, normalize_file_name};
use crate::text::{ascii_lowercase, lower, owned, str_eq, trim, trimmed};
use vstd::prelude::*;

verus! {

/// Index of the last `.` among the first `i` characters of `name`, or -1.
pub open spec fn last_dot(name: Seq<char>, i: int) -> int
    decreases i,
{
    if i <= 0 || i > name.len() {
        -1
    } else if name[i - 1] == '.' {
        i - 1
    } else {
        last_dot(name, i - 1)
    }
}

/// The extension of a file name as `Path::extension` defines it: the part
/// after the last `.`, where that dot is not the name's first character.
pub open spec fn extension_of(name: Seq<char>) -> Option<Seq<char>> {
    let k = last_dot(name, name.len() as int);
    if k <= 0 {
        None
    } else {
        Some(name.subrange(k + 1, name.len() as int))
    }
}

/// The audio extensions this application accepts, in lower case.
pub open spec fn supported_extension(e: Seq<char>) -> bool {
    e == "mp3"@ || e == "wav"@ || e == "m4a"@ || e == "flac"@ || e == "ogg"@ || e == "aac"@ || e
        == "aiff"@ || e == "wma"@
}

/// The lower-cased extension of the file a path names.
pub open spec fn normalized_extension(path: Seq<char>) -> Option<Seq<char>> {
    match extension_of(display_name(path)) {
        Some(e) => Some(lower(e)),
        None => None,
    }
}

/// Whether a path names a file with a supported audio extension, in any
/// case.
pub open spec fn is_audio_path(path: Seq<char>) -> bool {
    normalized_extension(path) matches Some(e) && supported_extension(e)
}

proof fn lemma_last_dot_bounds(name: Seq<char>, i: int)
    requires
        0 <= i <= name.len(),
    ensures
        -1 <= last_dot(name, i) < i,
        last_dot(name, i) >= 0 ==> name[last_dot(name, i)] == '.',
    decreases i,
{
    if i > 0 && name[i - 1] != '.' {
        lemma_last_dot_bounds(name, i - 1);
    }
}

/// The extension of a file name (`Path::extension`).
pub fn file_extension(name: &str) -> (r: Option<&str>)
    ensures
        r matches Some(e) ==> extension_of(name@) == Some(e@),
        r is None ==> extension_of(name@) is None,
{
    let n = name.unicode_len();
    let mut i: usize = n;
    while i > 0 && name.get_char(i - 1) != '.'
        invariant
            0 <= i <= n,
            n == name@.len(),
            last_dot(name@, n as int) == last_dot(name@, i as int),
        decreases i,
    {
        i = i - 1;
    }
    proof {
        lemma_last_dot_bounds(name@, n as int);
    }
    if i <= 1 {
        None
    } else {
        Some(name.substring_char(i, n))
    }
}

/// The lower-cased extension of the file a path names.
pub fn normalize_extension(path: &str) -> (r: Option<String>)
    ensures
        r matches Some(e) ==> normalized_extension(path@) == Some(e@),
        r is None ==> normalized_extension(path@) is None,
{
    let name = normalize_file_name(path);
    match file_extension(name.as_str()) {
        Some(e) => Some(ascii_lowercase(e)),
        None => None,
    }
}

/// Whether `e` is a supported audio extension.
pub fn is_supported_extension_name(e: &str) -> (r: bool)
    ensures
        r == supported_extension(e@),
{
    str_eq(e, "mp3") || str_eq(e, "wav") || str_eq(e, "m4a") || str_eq(e, "flac") || str_eq(
        e,
        "ogg",
    ) || str_eq(e, "aac") || str_eq(e, "aiff") || str_eq(e, "wma")
}

/// Whether a path names a file with a supported audio extension.
pub fn is_supported_extension(path: &str) -> (r: bool)
    ensures
        r == is_audio_path(path@),
{
    match normalize_extension(path) {
        Some(e) => is_supported_extension_name(e.as_str()),
        None => false,
    }
}

/// Whether a path names a file with a supported audio extension.
pub fn is_supported_audio_path(path: &str) -> (r: bool)
    ensures
        r == is_audio_path(path@),
{
    is_supported_extension(path)
}

/// The supported extension of an audio path, or why it is refused.
pub fn validate_audio_extension(path: &str) -> (r: Result<String, String>)
    ensures
        normalized_extension(path@) is None ==> (r is Err && r->Err_0@ == "Missing file extension: "@
            + path@),
        normalized_extension(path@) matches Some(e) ==> (supported_extension(e) ==> (r is Ok
            && r->Ok_0@ == e)),
        normalized_extension(path@) matches Some(e) ==> (!supported_extension(e) ==> (r is Err
            && r->Err_0@ == "Unsupported audio format '"@ + e + "': "@ + path@)),
{
    let extension = match normalize_extension(path) {
        Some(e) => e,
        None => {
            let mut m = String::from_str("Missing file extension: ");
            m.append(path);
            return Err(m);
        },
    };
    if is_supported_extension_name(extension.as_str()) {
        return Ok(extension);
    }
    let mut m = String::from_str("Unsupported audio format '");
    m.append(extension.as_str());
    m.append("': ");
    m.append(path);
    Err(m)
}

/// The audio paths among `paths`, in their order.
pub open spec fn audio_paths(paths: Seq<String>) -> Seq<Seq<char>>
    decreases paths.len(),
{
    if paths.len() == 0 {
        Seq::empty()
    } else if is_audio_path(paths.last()@) {
        audio_paths(paths.drop_last()).push(paths.last()@)
    } else {
        audio_paths(paths.drop_last())
    }
}

/// Keeps the paths that name supported audio files, in their order.
pub fn filter_audio_file_paths(paths: Vec<String>) -> (r: Vec<String>)
    ensures
        r@.map_values(|s: String| s@) == audio_paths(paths@),
{
    let n = paths.len();
    let mut out: Vec<String> = Vec::new();
    let mut i: usize = 0;
    while i < n
        invariant
            0 <= i <= n,
            n == paths@.len(),
            out@.map_values(|s: String| s@) == audio_paths(paths@.subrange(0, i as int)),
        decreases n - i,
    {
        proof {
            assert(paths@.subrange(0, i + 1).drop_last() =~= paths@.subrange(0, i as int));
            assert(paths@.subrange(0, i + 1).last() == paths@[i as int]);
        }
        let p = &paths[i];
        if is_supported_audio_path(p.as_str()) {
            let ghost before = out@;
            out.push(owned(p.as_str()));
            assert(out@.map_values(|s: String| s@) =~= before.map_values(|s: String| s@).push(
                p@,
            ));
        }
        i = i + 1;
    }
    assert(paths@.subrange(0, n as int) =~= paths@);
    out
}

/// What the application menu needs to know of the queue.
#[derive(Debug, Clone, Copy, Default, PartialEq, Eq)]
pub struct MenuState {
    pub has_items: bool,
    pub is_processing: bool,
}

/// Whether the start and stop items are enabled: start needs queued items
/// and no session running; stop needs a session running.
pub fn menu_enabled_flags(state: MenuState) -> (r: (bool, bool))
    ensures
        r.0 == (state.has_items && !state.is_processing),
        r.1 == state.is_processing,
{
    let can_start = state.has_items && !state.is_processing;
    let can_stop = state.is_processing;
    (can_start, can_stop)
}

/// The text of bytes decoded as UTF-8 with invalid sequences replaced.
pub uninterp spec fn utf8_lossy(bytes: Seq<u8>) -> Seq<char>;

/// Relies on `String::from_utf8_lossy`: the decoded text depends on the
/// bytes alone.
#[verifier::external_body]
pub fn lossy_text(bytes: &[u8]) -> (r: String)
    ensures
        r@ == utf8_lossy(bytes@),
{
    String::from_utf8_lossy(bytes).to_string()
}

/// Whether the output of a notification permission check grants it: the
/// word `granted` in any case, with whitespace around it.
pub fn parse_permission_output(output: &[u8]) -> (r: bool)
    ensures
        r == (lower(trimmed(utf8_lossy(output@))) == "granted"@),
{
    let text = lossy_text(output);
    let lowered = ascii_lowercase(trim(text.as_str()));
    str_eq(lowered.as_str(), "granted")
}

/// Notification permission on a system without a permission model for
/// desktop notifications: it is granted. (Where the system has one, the
/// application asks it and reads the answer with `parse_permission_output`.)
pub fn check_permission() -> (r: bool)
    ensures
        r,
{
    true
}

/// Requests notification permission on a system without a permission model
/// for desktop notifications: it is granted.
pub fn request_permission() -> (r: bool)
    ensures
        r,
{
    true
}

} // verus!
