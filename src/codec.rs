use vstd::prelude::*;

verus! {

/// Largest number of samples sent for transcription: the base64 text of
/// their WAV stream still fits a 32-bit `usize`.
pub const MAX_TRANSCRIBED_SAMPLES: usize = 0x1fff_ffff;

/// The standard base64 alphabet: `A`-`Z`, `a`-`z`, `0`-`9`, `+`, `/`.
pub open spec fn b64(v: int) -> char {
    "ABCDEFGHIJKLMNOPQRSTUVWXYZabcdefghijklmnopqrstuvwxyz0123456789+/"@[v]
}

/// Padded, standard-alphabet base64: each group of three bytes becomes four
/// characters of six bits each; a last group of one or two bytes is padded
/// with `=` to four characters.
pub open spec fn base64_standard(b: Seq<u8>) -> Seq<char>
    decreases b.len(),
{
    if b.len() == 0 {
        Seq::empty()
    } else {
        let x = b[0] as int;
        let y = if b.len() > 1 { b[1] as int } else { 0 };
        let z = if b.len() > 2 { b[2] as int } else { 0 };
        let c0 = b64(x / 4);
        let c1 = b64((x % 4) * 16 + y / 16);
        if b.len() == 1 {
            seq![c0, c1, '=', '=']
        } else if b.len() == 2 {
            seq![c0, c1, b64((y % 16) * 4), '=']
        } else {
            seq![c0, c1, b64((y % 16) * 4 + z / 64), b64(z % 64)] + base64_standard(
                b.subrange(3, b.len() as int),
            )
        }
    }
}

/// Size of a WAV header with a plain PCM format chunk.
pub const WAV_HEADER_LEN: usize = 44;

/// Largest sample rate accepted: twice it, the byte rate, still fits a `u32`.
pub const MAX_SAMPLE_RATE: u32 = 0x7fff_ffff;

/// `v` as two little-endian bytes.
pub open spec fn le16(v: int) -> Seq<u8> {
    seq![(v % 256) as u8, (v / 256 % 256) as u8]
}

/// `v` as four little-endian bytes.
pub open spec fn le32(v: int) -> Seq<u8> {
    seq![(v % 256) as u8, (v / 256 % 256) as u8, (v / 65536 % 256) as u8, (v / 16777216 % 256) as u8]
}

/// One sample in two's complement, little-endian.
pub open spec fn sample_bytes(x: i16) -> Seq<u8> {
    le16(if x < 0 { x + 65536 } else { x as int })
}

/// The data chunk's contents: each sample in turn.
pub open spec fn pcm16_data(samples: Seq<i16>) -> Seq<u8>
    decreases samples.len(),
{
    if samples.len() == 0 {
        Seq::empty()
    } else {
        pcm16_data(samples.drop_last()) + sample_bytes(samples.last())
    }
}

/// The RIFF header, a PCM format chunk for one 16-bit channel at `rate`,
/// and the data chunk's header for `n` samples.
pub open spec fn wav_header(n: nat, rate: u32) -> Seq<u8> {
    seq![82u8, 73, 70, 70] + le32(36 + 2 * n as int) + seq![87u8, 65, 86, 69]
        + seq![102u8, 109, 116, 32] + le32(16) + le16(1) + le16(1) + le32(rate as int)
        + le32(2 * rate as int) + le16(2) + le16(16)
        + seq![100u8, 97, 116, 97] + le32(2 * n as int)
}

/// A mono, 16-bit signed PCM WAV stream of these samples at `rate`.
pub open spec fn wav_pcm16_mono(samples: Seq<i16>, rate: u32) -> Seq<u8> {
    wav_header(samples.len(), rate) + pcm16_data(samples)
}

/// Relies on hound's `WavWriter::new`, `write_sample` and `finalize` over an
/// in-memory cursor: with a 16-bit mono integer spec hound writes the plain
/// PCM header, then each sample as two little-endian bytes, and finalizing
/// fills in the two lengths. Writing to memory cannot fail; a zero rate, or
/// one whose double overflows, would panic in the header's byte-rate field.
#[verifier::external_body]
fn write_wav_pcm16(samples: &Vec<i16>, sample_rate: u32) -> (r: Result<Vec<u8>, String>)
    requires
        WAV_HEADER_LEN + 2 * samples@.len() <= u32::MAX,
        0 < sample_rate <= MAX_SAMPLE_RATE,
    ensures
        r is Ok,
        r matches Ok(bytes) ==> bytes@ == wav_pcm16_mono(samples@, sample_rate),
{
    let spec = hound::WavSpec { channels: 1, sample_rate, bits_per_sample: 16, sample_format: hound::SampleFormat::Int };
    let mut cursor = std::io::Cursor::new(Vec::new());
    let mut writer = hound::WavWriter::new(&mut cursor, spec).map_err(|e| format!("Failed to create WAV writer: {}", e))?;
    for s in samples.iter() {
        writer.write_sample(*s).map_err(|e| format!("Failed to write sample: {}", e))?;
    }
    writer.finalize().map_err(|e| format!("Failed to finalize WAV: {}", e))?;
    Ok(cursor.into_inner())
}

/// Relies on base64's `STANDARD.encode`: the standard alphabet with `=`
/// padding, four characters for every three bytes begun; it panics only
/// when that length overflows.
#[verifier::external_body]
fn encode_base64(bytes: &Vec<u8>) -> (r: String)
    requires
        4 * ((bytes@.len() + 2) / 3) <= usize::MAX,
    ensures
        r@ == base64_standard(bytes@),
        r@.len() == 4 * ((bytes@.len() + 2) / 3),
{
    base64::Engine::encode(&base64::engine::general_purpose::STANDARD, bytes)
}

/// Encodes samples as a mono 16-bit PCM WAV stream at `sample_rate`.
pub fn samples_to_wav_bytes(samples: &Vec<i16>, sample_rate: u32) -> (r: Result<Vec<u8>, String>)
    requires
        WAV_HEADER_LEN + 2 * samples@.len() <= u32::MAX,
        0 < sample_rate <= MAX_SAMPLE_RATE,
    ensures
        r is Ok,
        r matches Ok(bytes) ==> bytes@ == wav_pcm16_mono(samples@, sample_rate)
            && bytes@.len() == WAV_HEADER_LEN + 2 * samples@.len(),
{
    let r = write_wav_pcm16(samples, sample_rate);
    proof {
        lemma_wav_len(samples@, sample_rate);
    }
    r
}

/// Base64 text of an encoded recording, as sent inline to the provider.
pub fn audio_base64(wav: &Vec<u8>) -> (r: String)
    requires
        wav@.len() <= WAV_HEADER_LEN + 2 * MAX_TRANSCRIBED_SAMPLES,
    ensures
        r@ == base64_standard(wav@),
        r@.len() == 4 * ((wav@.len() + 2) / 3),
{
    encode_base64(wav)
}

proof fn lemma_pcm16_data_len(samples: Seq<i16>)
    ensures
        pcm16_data(samples).len() == 2 * samples.len(),
    decreases samples.len(),
{
    if samples.len() > 0 {
        lemma_pcm16_data_len(samples.drop_last());
    }
}

/// The `k`-th sample sits at bytes `2k` and `2k + 1` of the data.
proof fn lemma_pcm16_data_at(samples: Seq<i16>, k: int)
    requires
        0 <= k < samples.len(),
    ensures
        pcm16_data(samples)[2 * k] == sample_bytes(samples[k])[0],
        pcm16_data(samples)[2 * k + 1] == sample_bytes(samples[k])[1],
    decreases samples.len(),
{
    lemma_pcm16_data_len(samples.drop_last());
    if k < samples.len() - 1 {
        lemma_pcm16_data_at(samples.drop_last(), k);
    }
}

proof fn lemma_wav_len(samples: Seq<i16>, rate: u32)
    ensures
        wav_pcm16_mono(samples, rate).len() == WAV_HEADER_LEN + 2 * samples.len(),
{
    lemma_pcm16_data_len(samples);
}

/// The little-endian 32-bit number at `at`.
pub open spec fn read_le32(b: Seq<u8>, at: int) -> int {
    b[at] + 256 * b[at + 1] + 65536 * b[at + 2] + 16777216 * b[at + 3]
}

/// The little-endian 16-bit sample at `at`, read back as signed.
pub open spec fn read_sample(b: Seq<u8>, at: int) -> int {
    let u = b[at] + 256 * b[at + 1];
    if u >= 32768 {
        u - 65536
    } else {
        u
    }
}

/// An encoded stream decodes to exactly the samples it was given: its
/// data-length field counts two bytes per sample, and sample `k` reads back
/// from the two bytes at offset `44 + 2k`.
pub proof fn lemma_wav_decodes(samples: Seq<i16>, rate: u32, k: int)
    requires
        WAV_HEADER_LEN + 2 * samples.len() <= u32::MAX,
        0 <= k < samples.len(),
    ensures
        wav_pcm16_mono(samples, rate).len() == WAV_HEADER_LEN + 2 * samples.len(),
        read_le32(wav_pcm16_mono(samples, rate), 40) == 2 * samples.len(),
        read_sample(wav_pcm16_mono(samples, rate), WAV_HEADER_LEN + 2 * k) == samples[k] as int,
{
    let b = wav_pcm16_mono(samples, rate);
    let n = samples.len();
    lemma_wav_len(samples, rate);
    lemma_pcm16_data_at(samples, k);
    let h = wav_header(n, rate);
    let d = pcm16_data(samples);
    assert(h.len() == 44);
    let v: int = 2 * n as int;
    assert(b[40] == (v % 256) as u8);
    assert(b[41] == (v / 256 % 256) as u8);
    assert(b[42] == (v / 65536 % 256) as u8);
    assert(b[43] == (v / 16777216 % 256) as u8);
    assert(read_le32(b, 40) == v) by (nonlinear_arith)
        requires
            0 <= v < 4294967296,
            b[40] == (v % 256) as u8,
            b[41] == (v / 256 % 256) as u8,
            b[42] == (v / 65536 % 256) as u8,
            b[43] == (v / 16777216 % 256) as u8,
    ;
    assert(b[44 + 2 * k] == d[2 * k]);
    assert(b[45 + 2 * k] == d[2 * k + 1]);
    let x = samples[k];
    let u: int = if x < 0 { x + 65536 } else { x as int };
    assert(read_sample(b, 44 + 2 * k) == x as int) by (nonlinear_arith)
        requires
            0 <= u < 65536,
            x < 0 ==> u == x + 65536,
            x >= 0 ==> u == x,
            -32768 <= x < 32768,
            b[44 + 2 * k] == (u % 256) as u8,
            b[45 + 2 * k] == (u / 256 % 256) as u8,
    ;
}

} // verus!
