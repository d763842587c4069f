//! Screen (and optional microphone) recording to an MP4 file.

use crate::errors::AppError;
use vstd::prelude::*;

verus! {

/// A recording in progress; stopping it finalizes the file.
pub trait RecordingHandle {
    fn stop(self: Box<Self>) -> (r: Result<(), AppError>);
}

/// Starts recording the primary display to `output_path`.
pub trait RecordingEngine {
    fn start(&self, output_path: &str, include_audio: bool) -> (r: Result<Box<dyn RecordingHandle>, AppError>);
}

/// The two little-endian bytes of a 16-bit sample.
pub open spec fn pcm16_bytes(sample: i16) -> Seq<u8> {
    let u = sample as u16;
    seq![(u % 256) as u8, (u / 256) as u8]
}

/// The bytes of interleaved 16-bit samples, each little-endian.
pub open spec fn pcm16_stream(samples: Seq<i16>) -> Seq<u8>
    decreases samples.len(),
{
    if samples.len() == 0 {
        Seq::empty()
    } else {
        pcm16_stream(samples.drop_last()) + pcm16_bytes(samples.last())
    }
}

/// Serializes interleaved 16-bit samples as little-endian PCM bytes.
pub fn i16_to_pcm16(samples: &[i16]) -> (r: Vec<u8>)
    ensures
        r@ == pcm16_stream(samples@),
{
    let mut bytes: Vec<u8> = Vec::new();
    let mut i: usize = 0;
    while i < samples.len()
        invariant
            i <= samples@.len(),
            bytes@ == pcm16_stream(samples@.take(i as int)),
        decreases samples@.len() - i,
    {
        let u: u16 = samples[i] as u16;
        let lo: u8 = (u % 256) as u8;
        let hi: u8 = (u / 256) as u8;
        bytes.push(lo);
        bytes.push(hi);
        proof {
            assert(samples@.take(i + 1).drop_last() =~= samples@.take(i as int));
            assert(bytes@ =~= pcm16_stream(samples@.take(i as int)) + pcm16_bytes(samples@[i as int]));
        }
        i = i + 1;
    }
    assert(samples@.take(samples@.len() as int) =~= samples@);
    bytes
}

} // verus!
