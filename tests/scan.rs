use aura_worker::json::decode_json;
use aura_worker::probe_metadata::{parse_metadata_payload, parse_unsigned_text, AudioMetadata};

#[test]
fn parses_ffprobe_payload_into_metadata() {
    let payload = decode_json(
        r#"{
            "format": {"duration": "12.5", "bit_rate": "192000"},
            "streams": [
                {"codec_type": "video", "codec_name": "png"},
                {"codec_type": "audio", "codec_name": "aac", "sample_rate": "48000", "channels": 2}
            ]
        }"#,
    )
    .expect("fixture should be JSON");

    assert_eq!(
        parse_metadata_payload(&payload),
        Some(AudioMetadata {
            codec: Some("aac".to_string()),
            bitrate: Some(192_000),
            sample_rate: Some(48_000),
            channels: Some(2),
        })
    );
}

#[test]
fn metadata_falls_back_to_first_stream_and_to_none() {
    let first = decode_json(r#"{"streams":[{"codec_name":"mp3","channels":"1"}]}"#).unwrap();
    let parsed = parse_metadata_payload(&first).unwrap();
    assert_eq!(parsed.codec.as_deref(), Some("mp3"));
    assert_eq!(parsed.channels, Some(1));
    let empty = decode_json(r#"{"format":{"bit_rate":"fast"},"streams":[]}"#).unwrap();
    assert_eq!(parse_metadata_payload(&empty), None);
}

#[test]
fn unsigned_text_follows_std_parsing() {
    assert_eq!(parse_unsigned_text("48000", u32::MAX), Some(48000));
    assert_eq!(parse_unsigned_text("+7", u32::MAX), Some(7));
    assert_eq!(parse_unsigned_text("007", u32::MAX), Some(7));
    assert_eq!(parse_unsigned_text("4294967295", u32::MAX), Some(u32::MAX));
    assert_eq!(parse_unsigned_text("4294967296", u32::MAX), None);
    assert_eq!(parse_unsigned_text("256", 255), None);
    assert_eq!(parse_unsigned_text("", u32::MAX), None);
    assert_eq!(parse_unsigned_text("+", u32::MAX), None);
    assert_eq!(parse_unsigned_text("-1", u32::MAX), None);
    assert_eq!(parse_unsigned_text(" 1", u32::MAX), None);
    for text in ["0", "12", "+3", "99999999999", "1e3", ""] {
        assert_eq!(parse_unsigned_text(text, u32::MAX), text.parse::<u32>().ok(), "{text:?}");
    }
}
