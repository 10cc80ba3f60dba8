//! WAV framing for recordings: the RIFF header and the 16-bit PCM data of a
//! stereo recording, and the file names recordings are saved under.
use vstd::prelude::*;

verus! {

/// The two little-endian bytes of a 16-bit value.
pub open spec fn le16(v: int) -> Seq<u8> {
    seq![(v % 256) as u8, ((v / 256) % 256) as u8]
}

/// The four little-endian bytes of a 32-bit value.
pub open spec fn le32(v: int) -> Seq<u8> {
    seq![
        (v % 256) as u8,
        ((v / 256) % 256) as u8,
        ((v / 65536) % 256) as u8,
        ((v / 16777216) % 256) as u8,
    ]
}

/// The value of the 32-bit data-size field for `num_samples` 16-bit samples:
/// two bytes per sample, kept to 32 bits.
pub open spec fn data_size_field(num_samples: nat) -> int {
    (2 * num_samples) as int % 0x1_0000_0000
}

/// The 44-byte header of a 16-bit PCM stereo WAV file holding `num_samples`
/// samples (both channels counted) at `sample_rate` frames per second.
pub open spec fn wav_header(num_samples: nat, sample_rate: nat) -> Seq<u8> {
    let data_size = data_size_field(num_samples);
    seq![0x52u8, 0x49, 0x46, 0x46]  // "RIFF"
     + le32(36 + data_size) + seq![0x57u8, 0x41, 0x56, 0x45]  // "WAVE"
     + seq![0x66u8, 0x6d, 0x74, 0x20]  // "fmt "
     + le32(16)  // chunk size
     + le16(1)  // PCM
     + le16(2)  // channels
     + le32(sample_rate as int) + le32(4 * sample_rate as int)  // byte rate
     + le16(4)  // block align
     + le16(16)  // bits per sample
     + seq![0x64u8, 0x61, 0x74, 0x61]  // "data"
     + le32(data_size)
}

/// The 16-bit two's complement code of a sample.
pub open spec fn sample_code(s: i16) -> int {
    if s < 0 {
        s + 65536
    } else {
        s as int
    }
}

/// The little-endian bytes of a sequence of 16-bit samples.
pub open spec fn pcm16_bytes(samples: Seq<i16>) -> Seq<u8>
    decreases samples.len(),
{
    if samples.len() == 0 {
        Seq::empty()
    } else {
        pcm16_bytes(samples.drop_last()) + le16(sample_code(samples.last()))
    }
}

/// Appends the little-endian bytes of a 16-bit value.
fn push_le16(out: &mut Vec<u8>, v: u16)
    ensures
        final(out)@ == old(out)@ + le16(v as int),
{
    out.push((v % 256) as u8);
    out.push((v / 256) as u8);
    assert(final(out)@ =~= old(out)@ + le16(v as int));
}

/// Appends the little-endian bytes of a 32-bit value.
fn push_le32(out: &mut Vec<u8>, v: u32)
    ensures
        final(out)@ == old(out)@ + le32(v as int),
{
    out.push((v % 256) as u8);
    out.push(((v / 256) % 256) as u8);
    out.push(((v / 65536) % 256) as u8);
    out.push((v / 16777216) as u8);
    assert(final(out)@ =~= old(out)@ + le32(v as int));
}

/// Appends four bytes.
fn push4(out: &mut Vec<u8>, a: u8, b: u8, c: u8, d: u8)
    ensures
        final(out)@ == old(out)@ + seq![a, b, c, d],
{
    out.push(a);
    out.push(b);
    out.push(c);
    out.push(d);
    assert(final(out)@ =~= old(out)@ + seq![a, b, c, d]);
}

/// The bytes of a WAV file holding the interleaved stereo `samples` (16-bit
/// PCM) at `sample_rate` frames per second.
pub fn wav_bytes(samples: &[i16], sample_rate: u32) -> (r: Vec<u8>)
    requires
        2 * samples@.len() <= usize::MAX,
        36 + data_size_field(samples@.len()) <= u32::MAX,
        32 * sample_rate <= u32::MAX,
    ensures
        r@ == wav_header(samples@.len(), sample_rate as nat) + pcm16_bytes(samples@),
{
    let num_channels: u16 = 2;
    let bits_per_sample: u16 = 16;
    let data_size: usize = samples.len() * 2;
    let wide: u64 = data_size as u64;
    let data_size_u32: u32 = (wide % 0x1_0000_0000) as u32;
    let file_size: u32 = 36 + data_size_u32;
    let mut out: Vec<u8> = Vec::new();
    push4(&mut out, 0x52, 0x49, 0x46, 0x46);
    push_le32(&mut out, file_size);
    push4(&mut out, 0x57, 0x41, 0x56, 0x45);
    push4(&mut out, 0x66, 0x6d, 0x74, 0x20);
    push_le32(&mut out, 16);
    push_le16(&mut out, 1);
    push_le16(&mut out, num_channels);
    push_le32(&mut out, sample_rate);
    let byte_rate: u32 = sample_rate * num_channels as u32 * bits_per_sample as u32 / 8;
    push_le32(&mut out, byte_rate);
    let block_align: u16 = num_channels * bits_per_sample / 8;
    push_le16(&mut out, block_align);
    push_le16(&mut out, bits_per_sample);
    push4(&mut out, 0x64, 0x61, 0x74, 0x61);
    push_le32(&mut out, data_size_u32);
    let ghost header = out@;
    assert(header =~= wav_header(samples@.len(), sample_rate as nat));
    let mut i: usize = 0;
    while i < samples.len()
        invariant
            i <= samples@.len(),
            out@ == header + pcm16_bytes(samples@.take(i as int)),
        decreases samples@.len() - i,
    {
        let s = samples[i];
        let code: u16 = s as u16;
        assert(code as int == sample_code(s)) by (bit_vector)
            requires
                code == s as u16,
        ;
        push_le16(&mut out, code);
        proof {
            assert(samples@.take(i + 1).drop_last() =~= samples@.take(i as int));
            assert(samples@.take(i + 1).last() == s);
        }
        i = i + 1;
    }
    assert(samples@.take(samples@.len() as int) =~= samples@);
    out
}

/// The name of the file a recording made at `timestamp` is saved as.
pub open spec fn recording_file_name(timestamp: Seq<char>) -> Seq<char> {
    seq!['r', 'e', 'c', 'o', 'r', 'd', 'i', 'n', 'g', '_'] + timestamp + seq!['.', 'w', 'a', 'v']
}

/// `n` in decimal, zero-padded (or cut) to its last `width` digits.
pub open spec fn padded_decimal(n: nat, width: nat) -> Seq<char>
    decreases width,
{
    if width == 0 {
        Seq::empty()
    } else {
        padded_decimal(n / 10, (width - 1) as nat) + seq![crate::keyboard::digit_char((n % 10) as int)]
    }
}

/// A year as chrono's `%Y` writes it: four digits, zero-padded, for years
/// up to 9999, and a `+` sign followed by all the digits beyond that.
pub open spec fn year_text(year: nat) -> Seq<char> {
    if year <= 9999 {
        padded_decimal(year, 4)
    } else {
        seq!['+'] + crate::keyboard::nat_decimal(year)
    }
}

/// The time stamp of a recording made at the given local date and time:
/// `YYYYmmdd_HHMMSS`.
pub open spec fn timestamp_text(year: nat, month: nat, day: nat, hour: nat, minute: nat, second: nat) -> Seq<char> {
    year_text(year) + padded_decimal(month, 2) + padded_decimal(day, 2) + seq!['_']
        + padded_decimal(hour, 2) + padded_decimal(minute, 2) + padded_decimal(second, 2)
}

/// Appends the last `width` decimal digits of `n`, zero-padded.
fn append_padded(s: &mut String, n: u32, width: u32)
    ensures
        final(s)@ == old(s)@ + padded_decimal(n as nat, width as nat),
    decreases width,
{
    if width > 0 {
        append_padded(s, n / 10, width - 1);
        s.append(crate::keyboard::digit_str((n % 10) as u8));
        assert(final(s)@ =~= old(s)@ + padded_decimal(n as nat, width as nat));
    }
}

/// Appends `n` in decimal, without leading zeros.
fn append_decimal(s: &mut String, n: u32)
    ensures
        final(s)@ == old(s)@ + crate::keyboard::nat_decimal(n as nat),
    decreases n,
{
    if n >= 10 {
        append_decimal(s, n / 10);
    }
    s.append(crate::keyboard::digit_str((n % 10) as u8));
    assert(final(s)@ =~= old(s)@ + crate::keyboard::nat_decimal(n as nat));
}

/// The file name for a recording made at `timestamp`.
pub fn recording_filename(timestamp: &str) -> (r: String)
    ensures
        r@ == recording_file_name(timestamp@),
{
    proof {
        reveal_strlit("recording_");
        reveal_strlit(".wav");
    }
    let mut name = String::from_str("recording_");
    name.append(timestamp);
    name.append(".wav");
    name
}

/// The file name for a recording made at the given local date and time:
/// `recording_YYYYmmdd_HHMMSS.wav`, the year written as chrono's `%Y` writes
/// it and the other fields as two digits.
pub fn generate_filename(year: u32, month: u32, day: u32, hour: u32, minute: u32, second: u32) -> (r: String)
    requires
        1 <= month <= 12,
        1 <= day <= 31,
        hour < 24,
        minute < 60,
        second < 60,
    ensures
        r@ == recording_file_name(
            timestamp_text(year as nat, month as nat, day as nat, hour as nat, minute as nat, second as nat),
        ),
{
    proof {
        reveal_strlit("_");
        reveal_strlit("+");
    }
    let mut stamp = String::new();
    if year <= 9999 {
        append_padded(&mut stamp, year, 4);
    } else {
        stamp.append("+");
        append_decimal(&mut stamp, year);
    }
    append_padded(&mut stamp, month, 2);
    append_padded(&mut stamp, day, 2);
    stamp.append("_");
    append_padded(&mut stamp, hour, 2);
    append_padded(&mut stamp, minute, 2);
    append_padded(&mut stamp, second, 2);
    assert(stamp@ =~= timestamp_text(year as nat, month as nat, day as nat, hour as nat, minute as nat, second as nat));
    recording_filename(stamp.as_str())
}

/// Two bytes per sample.
pub proof fn lemma_pcm16_len(samples: Seq<i16>)
    ensures
        pcm16_bytes(samples).len() == 2 * samples.len(),
    decreases samples.len(),
{
    if samples.len() > 0 {
        lemma_pcm16_len(samples.drop_last());
    }
}

/// Law: a WAV file of `samples` is a 44-byte header and two bytes per
/// sample; when the data fits the 32-bit size fields, the RIFF size field
/// holds the file length less 8 and the data size field the length of the
/// data.
pub proof fn law_wav_sizes(samples: Seq<i16>, sample_rate: nat)
    ensures
        ({
            let header = wav_header(samples.len(), sample_rate);
            let file = header + pcm16_bytes(samples);
            &&& header.len() == 44
            &&& file.len() == 44 + 2 * samples.len()
            &&& 36 + 2 * samples.len() <= u32::MAX ==> {
                &&& file.subrange(4, 8) == le32(file.len() - 8)
                &&& file.subrange(40, 44) == le32((2 * samples.len()) as int)
            }
        }),
{
    lemma_pcm16_len(samples);
    let header = wav_header(samples.len(), sample_rate);
    let file = header + pcm16_bytes(samples);
    assert(header.len() == 44);
    if 36 + 2 * samples.len() <= u32::MAX {
        assert(data_size_field(samples.len()) == 2 * samples.len()) by {
            vstd::arithmetic::div_mod::lemma_small_mod((2 * samples.len()) as nat, 0x1_0000_0000nat);
        }
        assert(file.subrange(4, 8) =~= le32(file.len() - 8));
        assert(file.subrange(40, 44) =~= le32((2 * samples.len()) as int));
    }
}

} // verus!
