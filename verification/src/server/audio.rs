//! The computing side of audio capture on the server.
use vstd::prelude::*;
use crate::protocol::{AudioConfig, DeviceSampleFormat, Message, SampleFormat, UnsupportedSampleFormat, spec_sample_format_of};
use crate::sample::{AudioSample, encode_samples};

verus! {

/// Turns a block of captured samples into the `AudioData` message that
/// carries their little-endian encoding, one sample after another.
pub fn on_input_data<T: AudioSample>(data: &[T]) -> (message: Message)
    ensures
        message matches Message::AudioData(bytes) && bytes@ == encode_samples(data@),
{
    let mut out: Vec<u8> = Vec::new();
    let n = data.len();
    for i in 0..n
        invariant
            n == data@.len(),
            out@ == encode_samples(data@.take(i as int)),
    {
        let s = data[i];
        let bytes = s.to_le_bytes();
        let slice = T::byte_slice(&bytes);
        let ghost before = out@;
        out.extend_from_slice(slice);
        proof {
            assert forall|j: int| before.len() <= j < out@.len() implies out@[j] == slice@[j - before.len()] by {
                assert(cloned::<u8>(slice@[j - before.len()], out@[j]));
            }
            assert(out@ =~= before + s.spec_to_le_bytes());
            assert(data@.take(i + 1).drop_last() =~= data@.take(i as int));
        }
    }
    proof {
        assert(data@.take(n as int) =~= data@);
    }
    Message::AudioData(out)
}

/// The stream configuration announced to clients, built from what the
/// capture device reports; the device's sample format must be one that the
/// protocol carries.
pub fn audio_config_for_device(sample_rate: u32, channels: u16, format: DeviceSampleFormat) -> (r: Result<AudioConfig, UnsupportedSampleFormat>)
    ensures
        match spec_sample_format_of(format) {
            Some(f) => r == Ok::<AudioConfig, UnsupportedSampleFormat>(
                AudioConfig { sample_rate, channels, sample_format: f },
            ),
            None => r == Err::<AudioConfig, UnsupportedSampleFormat>(UnsupportedSampleFormat),
        },
{
    let sample_format = SampleFormat::try_from(format)?;
    Ok(AudioConfig { sample_rate, channels, sample_format })
}

} // verus!
