use vstd::prelude::*;

verus! {

/// Samples per second of the generated chimes.
pub const SAMPLE_RATE: u32 = 44100;

/// The two bytes of `x` (below 2^16), least significant first.
pub open spec fn le16(x: nat) -> Seq<u8> {
    seq![(x % 256) as u8, ((x / 256) % 256) as u8]
}

/// The four bytes of `x` (below 2^32), least significant first.
pub open spec fn le32(x: nat) -> Seq<u8> {
    seq![
        (x % 256) as u8,
        ((x / 256) % 256) as u8,
        ((x / 65536) % 256) as u8,
        ((x / 16777216) % 256) as u8,
    ]
}

/// The little-endian bytes of a signed 16-bit sample (two's complement).
pub open spec fn sample_le(sample: i16) -> Seq<u8> {
    if sample < 0 {
        le16((sample + 65536) as nat)
    } else {
        le16(sample as nat)
    }
}

/// The bytes of a run of samples, one after another.
pub open spec fn samples_le(samples: Seq<i16>) -> Seq<u8>
    decreases samples.len(),
{
    if samples.len() == 0 {
        Seq::empty()
    } else {
        samples_le(samples.drop_last()) + sample_le(samples.last())
    }
}

/// The 44-byte header of a 16-bit mono PCM RIFF/WAVE file at `SAMPLE_RATE`
/// holding `num_samples` samples.
pub open spec fn wav_header(num_samples: nat) -> Seq<u8> {
    let data_size = num_samples * 2;
    seq![82u8, 73, 70, 70]  // "RIFF"
     + le32(36 + data_size) + seq![87u8, 65, 86, 69]  // "WAVE"
     + seq![102u8, 109, 116, 32]  // "fmt "
     + le32(16)  // chunk size
     + le16(1)  // PCM
     + le16(1)  // mono
     + le32(44100)  // sample rate
     + le32(88200)  // byte rate
     + le16(2)  // block align
     + le16(16)  // bits per sample
     + seq![100u8, 97, 116, 97]  // "data"
     + le32(data_size)
}

fn push_le16(data: &mut Vec<u8>, x: u16)
    ensures
        final(data)@ == old(data)@ + le16(x as nat),
{
    data.push((x % 256) as u8);
    data.push((x / 256) as u8);
    assert(final(data)@ =~= old(data)@ + le16(x as nat));
}

fn push_le32(data: &mut Vec<u8>, x: u32)
    ensures
        final(data)@ == old(data)@ + le32(x as nat),
{
    data.push((x % 256) as u8);
    data.push(((x / 256) % 256) as u8);
    data.push(((x / 65536) % 256) as u8);
    data.push((x / 16777216) as u8);
    assert(final(data)@ =~= old(data)@ + le32(x as nat));
}

fn push_tag(data: &mut Vec<u8>, a: u8, b: u8, c: u8, d: u8)
    ensures
        final(data)@ == old(data)@ + seq![a, b, c, d],
{
    data.push(a);
    data.push(b);
    data.push(c);
    data.push(d);
    assert(final(data)@ =~= old(data)@ + seq![a, b, c, d]);
}

/// A complete in-memory WAV file (16-bit mono PCM at `SAMPLE_RATE`) holding
/// `samples`: the RIFF header, then each sample in little-endian order.
pub fn chime_wav(samples: &Vec<i16>) -> (data: Vec<u8>)
    requires
        samples.len() * 2 + 36 <= u32::MAX,
    ensures
        data@ == wav_header(samples.len() as nat) + samples_le(samples@),
{
    let num_samples = samples.len() as u32;
    let data_size = num_samples * 2;
    let file_size = 36 + data_size;
    let mut data: Vec<u8> = Vec::new();
    push_tag(&mut data, 82, 73, 70, 70);
    push_le32(&mut data, file_size);
    push_tag(&mut data, 87, 65, 86, 69);
    push_tag(&mut data, 102, 109, 116, 32);
    push_le32(&mut data, 16);
    push_le16(&mut data, 1);
    push_le16(&mut data, 1);
    push_le32(&mut data, SAMPLE_RATE);
    push_le32(&mut data, SAMPLE_RATE * 2);
    push_le16(&mut data, 2);
    push_le16(&mut data, 16);
    push_tag(&mut data, 100, 97, 116, 97);
    push_le32(&mut data, data_size);
    let ghost header = data@;
    assert(header =~= wav_header(samples.len() as nat));
    let mut i: usize = 0;
    while i < samples.len()
        invariant
            i <= samples.len(),
            data@ == header + samples_le(samples@.take(i as int)),
        decreases samples.len() - i,
    {
        let sample = samples[i];
        let bits: u16 = if sample < 0 {
            (sample as i32 + 65536) as u16
        } else {
            sample as u16
        };
        push_le16(&mut data, bits);
        assert(samples@.take(i + 1).drop_last() =~= samples@.take(i as int));
        assert(sample_le(sample) == le16(bits as nat));
        i = i + 1;
    }
    assert(samples@.take(samples.len() as int) =~= samples@);
    data
}

} // verus!
