//! Reading a provider's capability report, as the `--capabilities` probe
//! prints it, into [`Capabilities`].
use crate::json::{decode_json_bytes, decoded_json_bytes, deref_opt, get, member, Json};
use crate::registry::{views, Capabilities};
use crate::text::str_eq;
use vstd::prelude::*;

verus! {

/// A field that may be spelled two ways: `Some(m)` with the member found
/// (`m` is `None` where neither spelling is present), or `None` where both
/// are present, which the decoder refuses as a duplicate.
pub open spec fn slot(j: Json, camel: Seq<char>, snake: Seq<char>) -> Option<Option<Json>> {
    let a = member(j, camel);
    let b = if camel == snake {
        None
    } else {
        member(j, snake)
    };
    if a is Some && b is Some {
        None
    } else if a is Some {
        Some(a)
    } else {
        Some(b)
    }
}

/// A list of strings, where an absent member stands for the empty list.
pub open spec fn string_list_ok(v: Option<Json>) -> bool {
    match v {
        None => true,
        Some(Json::Array(items)) => forall|i: int|
            0 <= i < items@.len() ==> #[trigger] items@[i] is Text,
        _ => false,
    }
}

/// The strings of a list (empty where the member is absent).
pub open spec fn string_list(v: Option<Json>) -> Seq<Seq<char>> {
    match v {
        Some(Json::Array(items)) => items@.map_values(
            |x: Json|
                match x {
                    Json::Text(s) => s@,
                    _ => Seq::empty(),
                },
        ),
        _ => Seq::empty(),
    }
}

/// An optional whole number no larger than `max`: `Some(None)` where absent
/// or null, `Some(Some(n))` for such a number, `None` for anything else.
pub open spec fn optional_unsigned(v: Option<Json>, max: u64) -> Option<Option<u64>> {
    match v {
        None => Some(None),
        Some(Json::Null) => Some(None),
        Some(Json::Number(n)) => if n.unsigned is Some && n.unsigned.unwrap() <= max {
            Some(n.unsigned)
        } else {
            None
        },
        _ => None,
    }
}

/// An optional boolean: `Some(None)` where absent or null, `Some(Some(b))`
/// for a boolean, `None` for anything else.
pub open spec fn optional_bool(v: Option<Json>) -> Option<Option<bool>> {
    match v {
        None => Some(None),
        Some(Json::Null) => Some(None),
        Some(Json::Bool(b)) => Some(Some(b)),
        _ => None,
    }
}

/// Whether a decoded value is a well-formed capability report.
pub open spec fn capabilities_ok(j: Json) -> bool {
    &&& j is Object
    &&& slot(j, "supportedModels"@, "supported_models"@) matches Some(m) && string_list_ok(m)
    &&& slot(j, "supportedFormats"@, "supported_formats"@) matches Some(m) && string_list_ok(m)
    &&& slot(j, "maxFileSize"@, "max_file_size"@) matches Some(m) && optional_unsigned(
        m,
        u64::MAX,
    ) is Some
    &&& slot(j, "concurrentFiles"@, "concurrent_files"@) matches Some(m) && optional_unsigned(
        m,
        u32::MAX as u64,
    ) is Some
    &&& slot(j, "wordTimestamps"@, "word_timestamps"@) matches Some(m) && optional_bool(m) is Some
    &&& slot(j, "speakerDiarization"@, "speaker_diarization"@) matches Some(m) && optional_bool(
        m,
    ) is Some
    &&& slot(j, "languageDetection"@, "language_detection"@) matches Some(m) && optional_bool(
        m,
    ) is Some
    &&& slot(j, "translation"@, "translation"@) matches Some(m) && optional_bool(m) is Some
}

/// Whether `c` holds what the well-formed report `j` states.
pub open spec fn capabilities_match(c: Capabilities, j: Json) -> bool {
    &&& views(c.supported_models@) == string_list(
        slot(j, "supportedModels"@, "supported_models"@).unwrap(),
    )
    &&& views(c.supported_formats@) == string_list(
        slot(j, "supportedFormats"@, "supported_formats"@).unwrap(),
    )
    &&& c.max_file_size == optional_unsigned(
        slot(j, "maxFileSize"@, "max_file_size"@).unwrap(),
        u64::MAX,
    ).unwrap()
    &&& (c.concurrent_files matches Some(n) ==> optional_unsigned(
        slot(j, "concurrentFiles"@, "concurrent_files"@).unwrap(),
        u32::MAX as u64,
    ).unwrap() == Some(n as u64))
    &&& (c.concurrent_files is None ==> optional_unsigned(
        slot(j, "concurrentFiles"@, "concurrent_files"@).unwrap(),
        u32::MAX as u64,
    ).unwrap() is None)
    &&& c.word_timestamps == optional_bool(
        slot(j, "wordTimestamps"@, "word_timestamps"@).unwrap(),
    ).unwrap()
    &&& c.speaker_diarization == optional_bool(
        slot(j, "speakerDiarization"@, "speaker_diarization"@).unwrap(),
    ).unwrap()
    &&& c.language_detection == optional_bool(
        slot(j, "languageDetection"@, "language_detection"@).unwrap(),
    ).unwrap()
    &&& c.translation == optional_bool(slot(j, "translation"@, "translation"@).unwrap()).unwrap()
}

/// The member spelled `camel` or `snake`; see [`slot`].
pub fn find_slot<'a>(j: &'a Json, camel: &str, snake: &str) -> (r: Option<Option<&'a Json>>)
    ensures
        r matches Some(m) ==> slot(*j, camel@, snake@) == Some(deref_opt(m)),
        r is None ==> slot(*j, camel@, snake@) is None,
{
    let a = get(j, camel);
    let b = if str_eq(camel, snake) {
        None
    } else {
        get(j, snake)
    };
    if a.is_some() && b.is_some() {
        None
    } else if a.is_some() {
        Some(a)
    } else {
        Some(b)
    }
}

/// The strings of a list member; `None` where it is not a list of strings.
pub fn read_string_list(v: Option<&Json>) -> (r: Option<Vec<String>>)
    ensures
        r is Some <==> string_list_ok(deref_opt(v)),
        r matches Some(l) ==> views(l@) == string_list(deref_opt(v)),
{
    match v {
        None => Some(Vec::new()),
        Some(Json::Array(items)) => {
            let n = items.len();
            let mut out: Vec<String> = Vec::new();
            let mut i: usize = 0;
            while i < n
                invariant
                    0 <= i <= n,
                    n == items@.len(),
                    deref_opt(v) == Some(Json::Array(*items)),
                    forall|k: int| 0 <= k < i ==> #[trigger] items@[k] is Text,
                    views(out@) == string_list(deref_opt(v)).subrange(0, i as int),
                decreases n - i,
            {
                match &items[i] {
                    Json::Text(s) => {
                        let ghost before = out@;
                        out.push(s.clone());
                        assert(views(out@) =~= views(before).push(s@));
                        assert(string_list(deref_opt(v)).subrange(0, i + 1) =~= string_list(
                            deref_opt(v),
                        ).subrange(0, i as int).push(s@));
                    },
                    _ => {
                        return None;
                    },
                }
                i = i + 1;
            }
            assert(string_list(deref_opt(v)).subrange(0, n as int) =~= string_list(deref_opt(v)));
            Some(out)
        },
        _ => None,
    }
}

/// An optional whole number no larger than `max`; see [`optional_unsigned`].
pub fn read_optional_unsigned(v: Option<&Json>, max: u64) -> (r: Option<Option<u64>>)
    ensures
        r == optional_unsigned(deref_opt(v), max),
{
    match v {
        None => Some(None),
        Some(Json::Null) => Some(None),
        Some(Json::Number(n)) => match n.unsigned {
            Some(u) => if u <= max {
                Some(Some(u))
            } else {
                None
            },
            None => None,
        },
        _ => None,
    }
}

/// An optional boolean; see [`optional_bool`].
pub fn read_optional_bool(v: Option<&Json>) -> (r: Option<Option<bool>>)
    ensures
        r == optional_bool(deref_opt(v)),
{
    match v {
        None => Some(None),
        Some(Json::Null) => Some(None),
        Some(Json::Bool(b)) => Some(Some(*b)),
        _ => None,
    }
}

/// The capability report held in a decoded value, or `None` where the value
/// is not a well-formed report.
pub fn capabilities_from_json(j: &Json) -> (r: Option<Capabilities>)
    ensures
        r is Some <==> capabilities_ok(*j),
        r matches Some(c) ==> capabilities_match(c, *j),
{
    match j {
        Json::Object(_) => {},
        _ => {
            return None;
        },
    }
    let supported_models = match find_slot(j, "supportedModels", "supported_models") {
        Some(m) => match read_string_list(m) {
            Some(l) => l,
            None => return None,
        },
        None => return None,
    };
    let supported_formats = match find_slot(j, "supportedFormats", "supported_formats") {
        Some(m) => match read_string_list(m) {
            Some(l) => l,
            None => return None,
        },
        None => return None,
    };
    let max_file_size = match find_slot(j, "maxFileSize", "max_file_size") {
        Some(m) => match read_optional_unsigned(m, u64::MAX) {
            Some(x) => x,
            None => return None,
        },
        None => return None,
    };
    let concurrent = match find_slot(j, "concurrentFiles", "concurrent_files") {
        Some(m) => match read_optional_unsigned(m, u32::MAX as u64) {
            Some(x) => x,
            None => return None,
        },
        None => return None,
    };
    let concurrent_files: Option<u32> = match concurrent {
        Some(n) => Some(n as u32),
        None => None,
    };
    let word_timestamps = match find_slot(j, "wordTimestamps", "word_timestamps") {
        Some(m) => match read_optional_bool(m) {
            Some(x) => x,
            None => return None,
        },
        None => return None,
    };
    let speaker_diarization = match find_slot(j, "speakerDiarization", "speaker_diarization") {
        Some(m) => match read_optional_bool(m) {
            Some(x) => x,
            None => return None,
        },
        None => return None,
    };
    let language_detection = match find_slot(j, "languageDetection", "language_detection") {
        Some(m) => match read_optional_bool(m) {
            Some(x) => x,
            None => return None,
        },
        None => return None,
    };
    let translation = match find_slot(j, "translation", "translation") {
        Some(m) => match read_optional_bool(m) {
            Some(x) => x,
            None => return None,
        },
        None => return None,
    };
    Some(
        Capabilities {
            supported_models,
            supported_formats,
            max_file_size,
            concurrent_files,
            word_timestamps,
            speaker_diarization,
            language_detection,
            translation,
        },
    )
}

/// Whether `bytes` decode to a well-formed capability report.
pub open spec fn report_ok(bytes: Seq<u8>) -> bool {
    decoded_json_bytes(bytes) matches Some(j) && capabilities_ok(j)
}

/// The capability report that the probe printed, or `None` where the output
/// is not one.
pub fn parse_capabilities_output(output: &[u8]) -> (r: Option<Capabilities>)
    ensures
        r is Some <==> report_ok(output@),
        r matches Some(c) ==> capabilities_match(c, decoded_json_bytes(output@).unwrap()),
{
    match decode_json_bytes(output) {
        Some(j) => capabilities_from_json(&j),
        None => None,
    }
}

} // verus!
