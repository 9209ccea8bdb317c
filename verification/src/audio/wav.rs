//! Writes stereo 16-bit PCM frames as a WAV file (the sound preview pack).

use vstd::prelude::*;

verus! {

/// Sample rate of every generated sound, in frames per second.
pub const SAMPLE_RATE: u32 = 22050;

/// Why frames cannot be written as a WAV file.
#[derive(Clone, Copy, Debug, PartialEq, Eq, Structural)]
pub enum WavError {
    /// There is no frame to write.
    Empty,
    /// The sample data is larger than a WAV file can describe.
    TooLong,
}

/// Little-endian bytes of a 16-bit value.
pub open spec fn le16(v: u16) -> Seq<u8> {
    seq![(v % 256) as u8, (v / 256) as u8]
}

/// Little-endian bytes of a 32-bit value.
pub open spec fn le32(v: u32) -> Seq<u8> {
    seq![(v % 256) as u8, ((v / 256) % 256) as u8, ((v / 65536) % 256) as u8, (v / 16777216) as u8]
}

/// Bytes of the sample data: each frame's left then right sample, each
/// sample as its two's-complement 16 bits, little-endian.
pub open spec fn pcm_bytes(frames: Seq<[i16; 2]>) -> Seq<u8>
    decreases frames.len(),
{
    if frames.len() == 0 {
        Seq::empty()
    } else {
        pcm_bytes(frames.drop_last()) + le16(frames.last()[0] as u16) + le16(frames.last()[1] as u16)
    }
}

/// The 44-byte header of a stereo 16-bit PCM WAV file with `data_len` bytes
/// of sample data.
pub open spec fn wav_header(data_len: u32) -> Seq<u8> {
    seq![82u8, 73u8, 70u8, 70u8] + le32((data_len + 36) as u32) + seq![87u8, 65u8, 86u8, 69u8, 102u8, 109u8, 116u8, 32u8]
        + le32(16) + le16(1) + le16(2) + le32(SAMPLE_RATE) + le32((SAMPLE_RATE * 4) as u32) + le16(4) + le16(16)
        + seq![100u8, 97u8, 116u8, 97u8] + le32(data_len)
}

fn push_le16(out: &mut Vec<u8>, v: u16)
    ensures
        final(out)@ == old(out)@ + le16(v),
{
    out.push((v % 256) as u8);
    out.push((v / 256) as u8);
    assert(final(out)@ =~= old(out)@ + le16(v));
}

fn push_le32(out: &mut Vec<u8>, v: u32)
    ensures
        final(out)@ == old(out)@ + le32(v),
{
    out.push((v % 256) as u8);
    out.push(((v / 256) % 256) as u8);
    out.push(((v / 65536) % 256) as u8);
    out.push((v / 16777216) as u8);
    assert(final(out)@ =~= old(out)@ + le32(v));
}

fn push_tag(out: &mut Vec<u8>, a: u8, b: u8, c: u8, d: u8)
    ensures
        final(out)@ == old(out)@ + seq![a, b, c, d],
{
    out.push(a);
    out.push(b);
    out.push(c);
    out.push(d);
    assert(final(out)@ =~= old(out)@ + seq![a, b, c, d]);
}

/// A WAV file of stereo 16-bit frames at the sample rate: a 44-byte header
/// (`RIFF`, `WAVE`, a PCM `fmt ` chunk of 2 channels and 16 bits, and a
/// `data` chunk of 4 bytes per frame) followed by the samples. No frame at
/// all, or more data than 32 bits can count, is refused.
pub fn encode_wav(frames: &[[i16; 2]]) -> (r: Result<Vec<u8>, WavError>)
    requires
        frames@.len() * 4 > u32::MAX || frames@.len() * 4 + 36 <= u32::MAX,
    ensures
        frames@.len() == 0 ==> r == Err::<Vec<u8>, WavError>(WavError::Empty),
        frames@.len() > 0 && frames@.len() * 4 > u32::MAX ==> r == Err::<Vec<u8>, WavError>(WavError::TooLong),
        frames@.len() > 0 && frames@.len() * 4 <= u32::MAX ==> (r matches Ok(w) && w@ == wav_header(
            (frames@.len() * 4) as u32,
        ) + pcm_bytes(frames@)),
{
    if frames.len() == 0 {
        return Err(WavError::Empty);
    }
    if frames.len() > 0x3fff_ffff {
        return Err(WavError::TooLong);
    }
    let data_len: u32 = (frames.len() * 4) as u32;
    let mut wav: Vec<u8> = Vec::new();
    push_tag(&mut wav, 82, 73, 70, 70);
    push_le32(&mut wav, data_len + 36);
    push_tag(&mut wav, 87, 65, 86, 69);
    push_tag(&mut wav, 102, 109, 116, 32);
    push_le32(&mut wav, 16);
    push_le16(&mut wav, 1);
    push_le16(&mut wav, 2);
    push_le32(&mut wav, SAMPLE_RATE);
    push_le32(&mut wav, SAMPLE_RATE * 4);
    push_le16(&mut wav, 4);
    push_le16(&mut wav, 16);
    push_tag(&mut wav, 100, 97, 116, 97);
    push_le32(&mut wav, data_len);
    let ghost header = wav@;
    assert(header =~= wav_header(data_len));
    let mut i: usize = 0;
    while i < frames.len()
        invariant
            i <= frames@.len(),
            wav@ == header + pcm_bytes(frames@.take(i as int)),
        decreases frames@.len() - i,
    {
        let frame = frames[i];
        push_le16(&mut wav, frame[0] as u16);
        push_le16(&mut wav, frame[1] as u16);
        proof {
            assert(frames@.take(i + 1).drop_last() =~= frames@.take(i as int));
            assert(frames@.take(i + 1).last() == frame);
            assert(wav@ =~= header + pcm_bytes(frames@.take(i + 1)));
        }
        i = i + 1;
    }
    assert(frames@.take(frames@.len() as int) =~= frames@);
    Ok(wav)
}

} // verus!
