use openai_api_rs::audio::{decode_audio, encode_audio, pcm16_from_le_bytes, pcm16_to_le_bytes, try_decode_audio};

#[test]
fn pcm16_bytes_are_little_endian() {
    assert_eq!(pcm16_to_le_bytes(&[1, -1, 256, i16::MIN]), vec![1, 0, 0xff, 0xff, 0, 1, 0, 0x80]);
    assert_eq!(pcm16_from_le_bytes(&[1, 0, 0xff, 0xff, 0, 1, 0, 0x80]), vec![1, -1, 256, i16::MIN]);
    assert_eq!(pcm16_from_le_bytes(&[]), Vec::<i16>::new());
}

#[test]
fn encode_audio_is_base64_of_le_bytes() {
    assert_eq!(encode_audio(&[1]), "AQA=");
    assert_eq!(encode_audio(&[]), "");
    assert_eq!(encode_audio(&[0x4241, 0x4443]), "QUJDRA==");
    assert_eq!(encode_audio(&[0x0102]), "AgE=");
    assert_eq!(encode_audio(&[0x6261, 0x2063]), "YWJjIA==");
    assert_eq!(encode_audio(&[-1, -1, -1]), "////////");
}

#[test]
fn decode_audio_reads_samples() {
    assert_eq!(decode_audio("AQA="), vec![1]);
    assert_eq!(decode_audio("QUJDRA=="), vec![0x4241, 0x4443]);
}

#[test]
fn audio_roundtrip() {
    let samples: Vec<i16> = vec![0, 1, -1, 12345, -32768, 32767, 255, -256];
    let text = encode_audio(&samples);
    assert_eq!(try_decode_audio(&text), Some(samples.clone()));
    assert_eq!(decode_audio(&text), samples);
}

#[test]
fn undecodable_audio_is_none() {
    assert_eq!(try_decode_audio("not base64!"), None);
    // "QQ==" decodes to one byte: not a whole sample.
    assert_eq!(try_decode_audio("QQ=="), None);
    assert_eq!(try_decode_audio(""), Some(Vec::new()));
    // Not canonical: trailing bits set, or padding missing.
    assert_eq!(try_decode_audio("AQB="), None);
    assert_eq!(try_decode_audio("AQA"), None);
}
