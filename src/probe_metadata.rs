//! The audio details read from an ffprobe report of a file.
use crate::json::{as_text, deref_opt, get, member, member_of, text_of, Json};
use crate::text::str_eq;
use vstd::prelude::*;

verus! {

/// What is known of an audio file's encoding.
#[derive(Debug, Clone, PartialEq, Eq)]
pub struct AudioMetadata {
    pub codec: Option<String>,
    pub bitrate: Option<u32>,
    pub sample_rate: Option<u32>,
    pub channels: Option<u8>,
}

/// Whether `c` is an ASCII decimal digit.
pub open spec fn is_digit(c: char) -> bool {
    '0' <= c && c <= '9'
}

/// The value of a string of decimal digits.
pub open spec fn digits_value(s: Seq<char>) -> nat
    decreases s.len(),
{
    if s.len() == 0 {
        0
    } else {
        digits_value(s.drop_last()) * 10 + ((s.last() as u32) - ('0' as u32)) as nat
    }
}

/// The digits of an unsigned number's text, which may start with `+`.
pub open spec fn unsigned_digits(s: Seq<char>) -> Seq<char> {
    if s.len() > 0 && s[0] == '+' {
        s.drop_first()
    } else {
        s
    }
}

/// An unsigned number no larger than `max` as `str::parse` reads it: an
/// optional `+` and one or more decimal digits.
pub open spec fn parsed_unsigned(s: Seq<char>, max: nat) -> Option<nat> {
    let d = unsigned_digits(s);
    if d.len() > 0 && (forall|i: int| 0 <= i < d.len() ==> is_digit(#[trigger] d[i])) && digits_value(
        d,
    ) <= max {
        Some(digits_value(d))
    } else {
        None
    }
}

proof fn lemma_digits_monotone(s: Seq<char>, i: int)
    requires
        0 <= i <= s.len(),
        forall|k: int| 0 <= k < s.len() ==> is_digit(#[trigger] s[k]),
    ensures
        digits_value(s.subrange(0, i)) <= digits_value(s),
    decreases s.len() - i,
{
    if i < s.len() {
        lemma_digits_monotone(s, i + 1);
        assert(s.subrange(0, i + 1).drop_last() =~= s.subrange(0, i));
    } else {
        assert(s.subrange(0, i) =~= s);
    }
}

/// An unsigned number no larger than `max` read from text (`str::parse`
/// for `u32` and `u8`).
pub fn parse_unsigned_text(s: &str, max: u32) -> (r: Option<u32>)
    ensures
        r matches Some(v) ==> parsed_unsigned(s@, max as nat) == Some(v as nat),
        r is None ==> parsed_unsigned(s@, max as nat) is None,
{
    let n = s.unicode_len();
    let start: usize = if n > 0 && s.get_char(0) == '+' {
        1
    } else {
        0
    };
    let ghost d = unsigned_digits(s@);
    assert(d =~= s@.subrange(start as int, n as int));
    if start >= n {
        return None;
    }
    let mut value: u64 = 0;
    let mut i: usize = start;
    while i < n
        invariant
            start <= i <= n,
            n == s@.len(),
            start < n,
            d == unsigned_digits(s@),
            d =~= s@.subrange(start as int, n as int),
            forall|k: int| 0 <= k < i - start ==> is_digit(#[trigger] d[k]),
            value == digits_value(d.subrange(0, i - start)),
            value <= max,
        decreases n - i,
    {
        let c = s.get_char(i);
        if c < '0' || c > '9' {
            assert(!is_digit(d[i - start]));
            assert(!(forall|k: int| 0 <= k < d.len() ==> is_digit(#[trigger] d[k])));
            assert(parsed_unsigned(s@, max as nat) is None);
            return None;
        }
        let digit_value = (c as u32 - '0' as u32) as u64;
        assert(d.subrange(0, i - start + 1).drop_last() =~= d.subrange(0, i - start));
        assert(d.subrange(0, i - start + 1).last() == c);
        value = value * 10 + digit_value;
        assert(value == digits_value(d.subrange(0, i - start + 1)));
        if value > max as u64 {
            proof {
                if forall|j: int| 0 <= j < d.len() ==> is_digit(#[trigger] d[j]) {
                    lemma_digits_monotone(d, i - start + 1);
                }
            }
            return None;
        }
        i = i + 1;
    }
    assert(d.subrange(0, n - start) =~= d);
    Some(value as u32)
}

/// An unsigned number no larger than `max` held in a JSON value: a whole
/// number, or a string that parses as one.
pub open spec fn unsigned_field(j: Option<Json>, max: nat) -> Option<nat> {
    match j {
        Some(Json::Number(n)) => match n.unsigned {
            Some(u) => if u <= max {
                Some(u as nat)
            } else {
                None
            },
            None => None,
        },
        Some(Json::Text(t)) => parsed_unsigned(t@, max),
        _ => None,
    }
}

/// An unsigned number no larger than `max` held in a JSON value.
pub fn read_unsigned_field(j: Option<&Json>, max: u32) -> (r: Option<u32>)
    ensures
        r matches Some(v) ==> unsigned_field(deref_opt(j), max as nat) == Some(v as nat),
        r is None ==> unsigned_field(deref_opt(j), max as nat) is None,
{
    match j {
        Some(Json::Number(n)) => match n.unsigned {
            Some(u) => if u <= max as u64 {
                Some(u as u32)
            } else {
                None
            },
            None => None,
        },
        Some(Json::Text(t)) => parse_unsigned_text(t.as_str(), max),
        _ => None,
    }
}

/// Index of the first stream whose `codec_type` is `audio`, from `i` on;
/// the number of streams where there is none.
pub open spec fn first_audio_from(streams: Seq<Json>, i: int) -> int
    decreases streams.len() - i,
{
    if i < 0 || i >= streams.len() {
        streams.len() as int
    } else if text_of(member(streams[i], "codec_type"@)) == Some("audio"@) {
        i
    } else {
        first_audio_from(streams, i + 1)
    }
}

/// The stream the details are read from: the first audio stream, else the
/// first stream.
pub open spec fn chosen_stream(payload: Json) -> Option<Json> {
    match member(payload, "streams"@) {
        Some(Json::Array(streams)) => if first_audio_from(streams@, 0) < streams@.len() {
            Some(streams@[first_audio_from(streams@, 0)])
        } else if streams@.len() > 0 {
            Some(streams@[0])
        } else {
            None
        },
        _ => None,
    }
}

proof fn lemma_first_audio_bounds(streams: Seq<Json>, i: int)
    requires
        0 <= i <= streams.len(),
    ensures
        i <= first_audio_from(streams, i) <= streams.len(),
    decreases streams.len() - i,
{
    if i < streams.len() && text_of(member(streams[i], "codec_type"@)) != Some("audio"@) {
        lemma_first_audio_bounds(streams, i + 1);
    }
}

/// The stream the details are read from.
pub fn audio_stream(payload: &Json) -> (r: Option<&Json>)
    ensures
        deref_opt(r) == chosen_stream(*payload),
{
    match get(payload, "streams") {
        Some(Json::Array(streams)) => {
            let n = streams.len();
            let mut i: usize = 0;
            while i < n
                invariant
                    0 <= i <= n,
                    n == streams@.len(),
                    member(*payload, "streams"@) == Some(Json::Array(*streams)),
                    first_audio_from(streams@, 0) == first_audio_from(streams@, i as int),
                decreases n - i,
            {
                let kind = as_text(get(&streams[i], "codec_type"));
                let is_audio = match &kind {
                    Some(k) => str_eq(k.as_str(), "audio"),
                    None => false,
                };
                if is_audio {
                    assert(text_of(member(streams@[i as int], "codec_type"@)) == Some("audio"@));
                    return Some(&streams[i]);
                }
                i = i + 1;
            }
            proof {
                lemma_first_audio_bounds(streams@, 0);
            }
            if n > 0 {
                Some(&streams[0])
            } else {
                None
            }
        },
        _ => None,
    }
}

/// A 32-bit value as a natural number.
pub open spec fn nat32(v: Option<u32>) -> Option<nat> {
    match v {
        Some(x) => Some(x as nat),
        None => None,
    }
}

/// An 8-bit value as a natural number.
pub open spec fn nat8(v: Option<u8>) -> Option<nat> {
    match v {
        Some(x) => Some(x as nat),
        None => None,
    }
}

/// Whether `m` holds what the ffprobe report `payload` states: the bit rate
/// of the format, and the codec, sample rate and channel count of the chosen
/// stream.
pub open spec fn metadata_matches(m: AudioMetadata, payload: Json) -> bool {
    let stream = chosen_stream(payload);
    &&& crate::outcome::opt_view(m.codec) == text_of(member_of(stream, "codec_name"@))
    &&& nat32(m.bitrate) == unsigned_field(
        member_of(member(payload, "format"@), "bit_rate"@),
        u32::MAX as nat,
    )
    &&& nat32(m.sample_rate) == unsigned_field(
        member_of(stream, "sample_rate"@),
        u32::MAX as nat,
    )
    &&& nat8(m.channels) == unsigned_field(
        member_of(stream, "channels"@),
        u8::MAX as nat,
    )
}

/// The audio details of an ffprobe report; `None` where it states none of
/// them.
pub fn parse_metadata_payload(payload: &Json) -> (r: Option<AudioMetadata>)
    ensures
        r matches Some(m) ==> metadata_matches(m, *payload),
        r is None ==> exists|m: AudioMetadata|
            metadata_matches(m, *payload) && m.codec is None && m.bitrate is None
                && m.sample_rate is None && m.channels is None,
{
    let format = get(payload, "format");
    let stream = audio_stream(payload);
    let bitrate = read_unsigned_field(crate::json::get_in(format, "bit_rate"), u32::MAX);
    let codec = as_text(crate::json::get_in(stream, "codec_name"));
    let sample_rate = read_unsigned_field(crate::json::get_in(stream, "sample_rate"), u32::MAX);
    let channels = match read_unsigned_field(crate::json::get_in(stream, "channels"), 255) {
        Some(c) => Some(c as u8),
        None => None,
    };
    let metadata = AudioMetadata { codec, bitrate, sample_rate, channels };
    if metadata.codec.is_none() && metadata.bitrate.is_none() && metadata.sample_rate.is_none()
        && metadata.channels.is_none() {
        assert(metadata_matches(metadata, *payload));
        None
    } else {
        Some(metadata)
    }
}

} // verus!
