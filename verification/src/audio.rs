//! Audio of the realtime API: 16-bit PCM samples, little-endian, carried as
//! base64 text.
use vstd::prelude::*;

verus! {

/// The sample that two little-endian bytes encode, as `i16::from_le_bytes`.
pub open spec fn sample_of(lo: u8, hi: u8) -> i16 {
    let u = lo as int + 256 * hi as int;
    if u >= 32768 {
        (u - 65536) as i16
    } else {
        u as i16
    }
}

/// The unsigned 16-bit pattern of a sample (two's complement).
pub open spec fn sample_bits(s: i16) -> int {
    if s < 0 {
        s as int + 65536
    } else {
        s as int
    }
}

/// The low byte of a sample, as `i16::to_le_bytes` gives it first.
pub open spec fn low_byte(s: i16) -> u8 {
    (sample_bits(s) % 256) as u8
}

/// The high byte of a sample, as `i16::to_le_bytes` gives it second.
pub open spec fn high_byte(s: i16) -> u8 {
    (sample_bits(s) / 256) as u8
}

/// The samples of a sequence of bytes read two at a time, little-endian.
pub open spec fn pcm16_samples(bytes: Seq<u8>) -> Seq<i16> {
    Seq::new(bytes.len() / 2, |i: int| sample_of(bytes[2 * i], bytes[2 * i + 1]))
}

/// The bytes of a sequence of samples, each written little-endian.
pub open spec fn pcm16_bytes(samples: Seq<i16>) -> Seq<u8> {
    Seq::new(
        2 * samples.len(),
        |i: int|
            if i % 2 == 0 {
                low_byte(samples[i / 2])
            } else {
                high_byte(samples[i / 2])
            },
    )
}

proof fn lemma_sample_bytes(s: i16)
    ensures
        sample_of(low_byte(s), high_byte(s)) == s,
        0 <= sample_bits(s) < 65536,
{
    let u = sample_bits(s);
    assert(u == (u % 256) + 256 * (u / 256)) by (nonlinear_arith)
        requires
            0 <= u,
    ;
    assert(0 <= u / 256 < 256) by (nonlinear_arith)
        requires
            0 <= u < 65536,
    ;
}

proof fn lemma_bytes_sample(lo: u8, hi: u8)
    ensures
        low_byte(sample_of(lo, hi)) == lo,
        high_byte(sample_of(lo, hi)) == hi,
{
    let u = lo as int + 256 * hi as int;
    assert(sample_bits(sample_of(lo, hi)) == u);
    assert(u % 256 == lo as int && u / 256 == hi as int) by (nonlinear_arith)
        requires
            u == lo as int + 256 * hi as int,
            0 <= lo < 256,
            0 <= hi < 256,
    ;
}

/// Reading the bytes that samples are written to gives the samples back.
pub proof fn lemma_pcm16_samples_of_bytes(samples: Seq<i16>)
    ensures
        pcm16_samples(pcm16_bytes(samples)) == samples,
{
    let b = pcm16_bytes(samples);
    assert forall|i: int| 0 <= i < samples.len() implies #[trigger] pcm16_samples(b)[i] == samples[i] by {
        assert((2 * i) % 2 == 0 && (2 * i) / 2 == i);
        assert((2 * i + 1) % 2 == 1 && (2 * i + 1) / 2 == i);
        lemma_sample_bytes(samples[i]);
    }
    assert(pcm16_samples(b) =~= samples);
}

/// Writing the samples that an even number of bytes encode gives the bytes
/// back.
pub proof fn lemma_pcm16_bytes_of_samples(bytes: Seq<u8>)
    requires
        bytes.len() % 2 == 0,
    ensures
        pcm16_bytes(pcm16_samples(bytes)) == bytes,
{
    let s = pcm16_samples(bytes);
    assert forall|i: int| 0 <= i < bytes.len() implies #[trigger] pcm16_bytes(s)[i] == bytes[i] by {
        let k = i / 2;
        assert(0 <= k < bytes.len() / 2);
        lemma_bytes_sample(bytes[2 * k], bytes[2 * k + 1]);
        if i % 2 == 0 {
            assert(i == 2 * k);
        } else {
            assert(i == 2 * k + 1);
        }
    }
    assert(pcm16_bytes(s) =~= bytes);
}

/// Samples are little-endian: a byte followed by a zero byte reads as
/// that byte's value, and a sample from 0 to 255 is written as its value
/// followed by a zero byte.
pub proof fn lemma_pcm16_little_endian(lo: u8, s: i16)
    ensures
        pcm16_samples(seq![lo, 0u8]) == seq![lo as i16],
        0 <= s < 256 ==> pcm16_bytes(seq![s]) == seq![s as u8, 0u8],
{
    assert(pcm16_samples(seq![lo, 0u8]) =~= seq![lo as i16]);
    if 0 <= s < 256 {
        assert(pcm16_bytes(seq![s]) =~= seq![s as u8, 0u8]);
    }
}

fn sample_from_bytes(lo: u8, hi: u8) -> (s: i16)
    ensures
        s == sample_of(lo, hi),
{
    let u: u32 = lo as u32 + (hi as u32) * 256;
    if u >= 32768 {
        (u as i32 - 65536) as i16
    } else {
        u as i16
    }
}

/// Reads 16-bit little-endian samples from bytes, two bytes per sample.
pub fn pcm16_from_le_bytes(bytes: &[u8]) -> (samples: Vec<i16>)
    requires
        bytes@.len() % 2 == 0,
    ensures
        samples@ == pcm16_samples(bytes@),
{
    let n = bytes.len();
    let mut out: Vec<i16> = Vec::new();
    let mut i: usize = 0;
    while i < n
        invariant
            n == bytes@.len(),
            n % 2 == 0,
            i % 2 == 0,
            i <= n,
            out@.len() == i / 2,
            forall|j: int| 0 <= j < out@.len() ==> out@[j] == sample_of(bytes@[2 * j], bytes@[2 * j + 1]),
        decreases n - i,
    {
        let s = sample_from_bytes(bytes[i], bytes[i + 1]);
        out.push(s);
        i = i + 2;
    }
    assert(out@ =~= pcm16_samples(bytes@));
    out
}

/// Writes samples as 16-bit little-endian bytes, two bytes per sample.
pub fn pcm16_to_le_bytes(samples: &[i16]) -> (bytes: Vec<u8>)
    requires
        2 * samples@.len() <= usize::MAX,
    ensures
        bytes@ == pcm16_bytes(samples@),
{
    let n = samples.len();
    let mut out: Vec<u8> = Vec::new();
    let mut i: usize = 0;
    while i < n
        invariant
            n == samples@.len(),
            i <= n,
            out@.len() == 2 * i,
            forall|j: int|
                0 <= j < out@.len() ==> out@[j] == (if j % 2 == 0 {
                    low_byte(samples@[j / 2])
                } else {
                    high_byte(samples@[j / 2])
                }),
        decreases n - i,
    {
        let s = samples[i];
        let u: u32 = if s < 0 {
            (s as i32 + 65536) as u32
        } else {
            s as u32
        };
        proof { lemma_sample_bytes(s); }
        let ghost before = out@;
        out.push((u % 256) as u8);
        out.push((u / 256) as u8);
        assert forall|j: int| 0 <= j < out@.len() implies out@[j] == (if j % 2 == 0 {
            low_byte(samples@[j / 2])
        } else {
            high_byte(samples@[j / 2])
        }) by {
            if j < 2 * i {
                assert(out@[j] == before[j]);
            } else if j == 2 * i {
                assert(j % 2 == 0 && j / 2 == i);
            } else {
                assert(j == 2 * i + 1);
                assert(j % 2 == 1 && j / 2 == i);
            }
        }
        i = i + 1;
    }
    assert(out@ =~= pcm16_bytes(samples@));
    out
}

/// The character of a 6-bit value in the standard base64 alphabet
/// (RFC 4648): `A`-`Z`, `a`-`z`, `0`-`9`, `+`, `/`.
pub open spec fn base64_char(v: int) -> char
    recommends
        0 <= v < 64,
{
    if v < 26 {
        (65 + v) as char
    } else if v < 52 {
        (97 + (v - 26)) as char
    } else if v < 62 {
        (48 + (v - 52)) as char
    } else if v == 62 {
        '+'
    } else {
        '/'
    }
}

/// Standard base64 with padding (RFC 4648): each group of three bytes
/// becomes four characters of six bits each; a final group of one or two
/// bytes is filled with zero bits and padded with `=` to four characters.
pub open spec fn base64_encoded(bytes: Seq<u8>) -> Seq<char>
    decreases bytes.len(),
{
    if bytes.len() == 0 {
        seq![]
    } else if bytes.len() == 1 {
        let b0 = bytes[0] as int;
        seq![base64_char(b0 / 4), base64_char((b0 % 4) * 16), '=', '=']
    } else if bytes.len() == 2 {
        let b0 = bytes[0] as int;
        let b1 = bytes[1] as int;
        seq![base64_char(b0 / 4), base64_char((b0 % 4) * 16 + b1 / 16), base64_char((b1 % 16) * 4), '=']
    } else {
        let b0 = bytes[0] as int;
        let b1 = bytes[1] as int;
        let b2 = bytes[2] as int;
        seq![
            base64_char(b0 / 4),
            base64_char((b0 % 4) * 16 + b1 / 16),
            base64_char((b1 % 16) * 4 + b2 / 64),
            base64_char(b2 % 64),
        ] + base64_encoded(bytes.subrange(3, bytes.len() as int))
    }
}

/// The base64 text of `n` bytes has `4 * ceil(n / 3)` characters.
pub proof fn lemma_base64_len(bytes: Seq<u8>)
    ensures
        base64_encoded(bytes).len() == 4 * ((bytes.len() + 2) / 3),
    decreases bytes.len(),
{
    if bytes.len() >= 3 {
        lemma_base64_len(bytes.subrange(3, bytes.len() as int));
    }
}

proof fn lemma_split(x: int, y: int, x2: int, y2: int)
    requires
        0 <= y < 16,
        0 <= y2 < 16,
        x * 16 + y == x2 * 16 + y2,
    ensures
        x == x2,
        y == y2,
{
}

proof fn lemma_first_byte(a0: int, b0: int, a1: int, b1: int)
    requires
        0 <= a0 < 256,
        0 <= b0 < 256,
        0 <= a1 < 256,
        0 <= b1 < 256,
        a0 / 4 == b0 / 4,
        (a0 % 4) * 16 + a1 / 16 == (b0 % 4) * 16 + b1 / 16,
    ensures
        a0 == b0,
        a1 / 16 == b1 / 16,
{
    lemma_split(a0 % 4, a1 / 16, b0 % 4, b1 / 16);
}

/// Different bytes have different standard base64 texts.
pub proof fn lemma_base64_injective(a: Seq<u8>, b: Seq<u8>)
    requires
        base64_encoded(a) == base64_encoded(b),
    ensures
        a == b,
    decreases a.len(),
{
    let e = base64_encoded(a);
    lemma_base64_len(a);
    lemma_base64_len(b);
    if a.len() == 0 || b.len() == 0 {
        assert(a.len() == 0 && b.len() == 0);
        assert(a =~= b);
        return;
    }
    let a0 = a[0] as int;
    let b0 = b[0] as int;
    assert(e[0] == base64_char(a0 / 4) && e[0] == base64_char(b0 / 4));
    assert(a0 / 4 == b0 / 4);
    if a.len() == 1 {
        assert(e[2] == '=');
        if b.len() >= 2 {
            assert(base64_encoded(b)[2] != '=');
        }
        assert(e[1] == base64_char((a0 % 4) * 16) && e[1] == base64_char((b0 % 4) * 16));
        lemma_first_byte(a0, b0, 0, 0);
        assert(a =~= b);
    } else if a.len() == 2 {
        if b.len() == 1 {
            assert(e[2] != '=');
        }
        assert(e[3] == '=');
        if b.len() >= 3 {
            assert(base64_encoded(b)[3] != '=');
        }
        let a1 = a[1] as int;
        let b1 = b[1] as int;
        assert(e[1] == base64_char((a0 % 4) * 16 + a1 / 16));
        assert(e[1] == base64_char((b0 % 4) * 16 + b1 / 16));
        lemma_first_byte(a0, b0, a1, b1);
        assert(e[2] == base64_char((a1 % 16) * 4) && e[2] == base64_char((b1 % 16) * 4));
        assert(a1 % 16 == b1 % 16);
        assert(a1 == b1);
        assert(a =~= b);
    } else {
        if b.len() < 3 {
            assert(e[3] != '=');
        }
        let a1 = a[1] as int;
        let b1 = b[1] as int;
        let a2 = a[2] as int;
        let b2 = b[2] as int;
        assert(e[1] == base64_char((a0 % 4) * 16 + a1 / 16));
        assert(e[1] == base64_char((b0 % 4) * 16 + b1 / 16));
        lemma_first_byte(a0, b0, a1, b1);
        assert(e[2] == base64_char((a1 % 16) * 4 + a2 / 64));
        assert(e[2] == base64_char((b1 % 16) * 4 + b2 / 64));
        assert((a1 % 16) * 4 + a2 / 64 == (b1 % 16) * 4 + b2 / 64);
        assert(a1 % 16 == b1 % 16 && a2 / 64 == b2 / 64);
        assert(a1 == b1);
        assert(e[3] == base64_char(a2 % 64) && e[3] == base64_char(b2 % 64));
        assert(a2 == b2);
        let ra = a.subrange(3, a.len() as int);
        let rb = b.subrange(3, b.len() as int);
        assert(base64_encoded(ra) =~= e.subrange(4, e.len() as int));
        assert(base64_encoded(rb) =~= e.subrange(4, e.len() as int));
        lemma_base64_injective(ra, rb);
        assert(a =~= seq![a[0], a[1], a[2]] + ra);
        assert(b =~= seq![b[0], b[1], b[2]] + rb);
    }
}

/// The bytes whose standard padded base64 text is `text`, or `None` where
/// no bytes have that text (there is at most one, by
/// [`lemma_base64_injective`]).
pub open spec fn base64_decoded(text: Seq<char>) -> Option<Seq<u8>> {
    if exists|b: Seq<u8>| #[trigger] base64_encoded(b) == text {
        Some(choose|b: Seq<u8>| #[trigger] base64_encoded(b) == text)
    } else {
        None
    }
}

/// Decoding the base64 text of some bytes gives those bytes.
pub proof fn lemma_base64_decoded_of_encoded(bytes: Seq<u8>)
    ensures
        base64_decoded(base64_encoded(bytes)) == Some(bytes),
{
    let text = base64_encoded(bytes);
    assert(exists|b: Seq<u8>| #[trigger] base64_encoded(b) == text);
    let c = choose|b: Seq<u8>| #[trigger] base64_encoded(b) == text;
    lemma_base64_injective(c, bytes);
}

/// `base64::encode` (the `STANDARD` engine: standard alphabet, padded): the
/// contract claims that the text is the standard padded base64 of the bytes,
/// [`base64_encoded`].
#[verifier::external_body]
#[allow(deprecated)]
fn base64_encode(bytes: &[u8]) -> (text: String)
    ensures
        text@ == base64_encoded(bytes@),
{
    base64::encode(bytes)
}

/// `base64::decode` (the `STANDARD` engine, which requires canonical
/// padding and zero trailing bits, so that it accepts exactly the texts
/// that `base64::encode` produces): the contract claims that a result is
/// bytes whose standard padded base64 is the text, and that an error (turned
/// into `None`) comes only for text that no bytes encode to.
#[verifier::external_body]
#[allow(deprecated)]
fn base64_decode(text: &str) -> (bytes: Option<Vec<u8>>)
    ensures
        match bytes {
            Some(v) => base64_encoded(v@) == text@,
            None => forall|b: Seq<u8>| #[trigger] base64_encoded(b) != text@,
        },
{
    base64::decode(text).ok()
}

/// The samples that base64 text carries: the decoded bytes read as 16-bit
/// little-endian samples, or `None` where the text is not base64 or does
/// not hold whole samples.
pub open spec fn decoded_samples(text: Seq<char>) -> Option<Seq<i16>> {
    match base64_decoded(text) {
        Some(b) => if b.len() % 2 == 0 {
            Some(pcm16_samples(b))
        } else {
            None
        },
        None => None,
    }
}

/// Whether base64 text decodes to whole 16-bit samples.
pub open spec fn decodes_to_samples(text: Seq<char>) -> bool {
    decoded_samples(text) is Some
}

/// Decoding what samples were encoded to gives the samples back.
pub proof fn lemma_audio_roundtrip(samples: Seq<i16>)
    ensures
        decoded_samples(base64_encoded(pcm16_bytes(samples))) == Some(samples),
{
    lemma_base64_decoded_of_encoded(pcm16_bytes(samples));
    lemma_pcm16_samples_of_bytes(samples);
    assert(pcm16_bytes(samples).len() % 2 == 0);
}

/// Decodes base64 text to bytes: the bytes are [`base64_decoded`] of the
/// text.
fn decode_base64(text: &str) -> (bytes: Option<Vec<u8>>)
    ensures
        match bytes {
            Some(v) => base64_decoded(text@) == Some(v@),
            None => base64_decoded(text@) is None,
        },
{
    let r = base64_decode(text);
    proof {
        if r is Some {
            lemma_base64_decoded_of_encoded(r->0@);
        }
    }
    r
}

/// Encodes samples as the standard padded base64 text of their
/// little-endian bytes; decoding that text gives the samples back.
pub fn encode_audio(audio_data: &[i16]) -> (text: String)
    requires
        2 * audio_data@.len() <= usize::MAX,
    ensures
        text@ == base64_encoded(pcm16_bytes(audio_data@)),
        decoded_samples(text@) == Some(audio_data@),
{
    let pcm_bytes = pcm16_to_le_bytes(audio_data);
    let text = base64_encode(pcm_bytes.as_slice());
    proof { lemma_audio_roundtrip(audio_data@); }
    text
}

/// Decodes base64 text into samples; the text must decode to an even number
/// of bytes.
pub fn decode_audio(base64_audio: &str) -> (samples: Vec<i16>)
    requires
        decodes_to_samples(base64_audio@),
    ensures
        decoded_samples(base64_audio@) == Some(samples@),
{
    let decoded = decode_base64(base64_audio).unwrap();
    pcm16_from_le_bytes(decoded.as_slice())
}

/// Decodes base64 text into samples, or `None` where the text is not base64
/// or does not hold whole samples.
pub fn try_decode_audio(base64_audio: &str) -> (samples: Option<Vec<i16>>)
    ensures
        match samples {
            Some(v) => decoded_samples(base64_audio@) == Some(v@),
            None => decoded_samples(base64_audio@) is None,
        },
{
    match decode_base64(base64_audio) {
        Some(bytes) => {
            if bytes.len() % 2 == 0 {
                Some(pcm16_from_le_bytes(bytes.as_slice()))
            } else {
                None
            }
        },
        None => None,
    }
}

} // verus!
