//! Messages exchanged between server and client, and the length-prefixed
//! framing that carries their encoded form over a byte stream.
use vstd::prelude::*;
use vstd::slice::slice_subrange;
use crate::sample::{le4_value, le4_bytes, lemma_le4_roundtrip_value};

verus! {

/// Sample format of the audio data.
#[derive(Debug, Clone, Copy, PartialEq, Eq, Structural)]
pub enum SampleFormat {
    /// 16-bit signed integer samples
    I16,
    /// 32-bit signed integer samples
    I32,
    /// 32-bit floating point samples
    F32,
    /// 16-bit unsigned integer samples
    U16,
}

/// Audio stream configuration sent from server to client: all the
/// information needed to decode the audio data.
#[derive(Debug, Clone, Copy)]
pub struct AudioConfig {
    /// Sample rate in Hz (e.g., 44100, 48000)
    pub sample_rate: u32,
    /// Number of audio channels (1 = mono, 2 = stereo)
    pub channels: u16,
    /// Format of each audio sample
    pub sample_format: SampleFormat,
}

/// Messages of the network protocol between server and client.
#[derive(Debug, Clone)]
pub enum Message {
    /// Raw audio data to be played by the client
    AudioData(Vec<u8>),
    /// Audio configuration sent when a client connects
    Config(AudioConfig),
    /// Error message from either server or client
    Error(String),
}

/// The sample formats that an audio device can report.
#[derive(Debug, Clone, Copy, PartialEq, Eq, Structural)]
pub enum DeviceSampleFormat {
    I8,
    I16,
    I32,
    I64,
    U8,
    U16,
    U32,
    U64,
    F32,
    F64,
}

/// A device sample format that the protocol cannot carry.
#[derive(Debug, Clone, Copy, PartialEq, Eq, Structural)]
pub struct UnsupportedSampleFormat;

/// The protocol format that corresponds to a device format, if any.
pub open spec fn spec_sample_format_of(format: DeviceSampleFormat) -> Option<SampleFormat> {
    match format {
        DeviceSampleFormat::I16 => Some(SampleFormat::I16),
        DeviceSampleFormat::I32 => Some(SampleFormat::I32),
        DeviceSampleFormat::F32 => Some(SampleFormat::F32),
        DeviceSampleFormat::U16 => Some(SampleFormat::U16),
        _ => None,
    }
}

/// The device format that corresponds to a protocol format.
pub open spec fn spec_device_format_of(format: SampleFormat) -> DeviceSampleFormat {
    match format {
        SampleFormat::I16 => DeviceSampleFormat::I16,
        SampleFormat::I32 => DeviceSampleFormat::I32,
        SampleFormat::F32 => DeviceSampleFormat::F32,
        SampleFormat::U16 => DeviceSampleFormat::U16,
    }
}

impl TryFrom<DeviceSampleFormat> for SampleFormat {
    type Error = UnsupportedSampleFormat;

    fn try_from(format: DeviceSampleFormat) -> (r: Result<SampleFormat, UnsupportedSampleFormat>) {
        match format {
            DeviceSampleFormat::I16 => Ok(SampleFormat::I16),
            DeviceSampleFormat::I32 => Ok(SampleFormat::I32),
            DeviceSampleFormat::F32 => Ok(SampleFormat::F32),
            DeviceSampleFormat::U16 => Ok(SampleFormat::U16),
            _ => Err(UnsupportedSampleFormat),
        }
    }
}

impl vstd::std_specs::convert::TryFromSpecImpl<DeviceSampleFormat> for SampleFormat {
    open spec fn obeys_try_from_spec() -> bool {
        true
    }

    open spec fn try_from_spec(format: DeviceSampleFormat) -> Result<SampleFormat, UnsupportedSampleFormat> {
        match spec_sample_format_of(format) {
            Some(f) => Ok(f),
            None => Err(UnsupportedSampleFormat),
        }
    }
}

impl From<SampleFormat> for DeviceSampleFormat {
    fn from(format: SampleFormat) -> (r: DeviceSampleFormat) {
        match format {
            SampleFormat::I16 => DeviceSampleFormat::I16,
            SampleFormat::I32 => DeviceSampleFormat::I32,
            SampleFormat::F32 => DeviceSampleFormat::F32,
            SampleFormat::U16 => DeviceSampleFormat::U16,
        }
    }
}

impl vstd::std_specs::convert::FromSpecImpl<SampleFormat> for DeviceSampleFormat {
    open spec fn obeys_from_spec() -> bool {
        true
    }

    open spec fn from_spec(format: SampleFormat) -> DeviceSampleFormat {
        spec_device_format_of(format)
    }
}

/// Each format converts to the device format of the same name, and exactly
/// the four device formats with a protocol counterpart convert back, each to
/// the format of the same name.
pub proof fn lemma_format_names_match()
    ensures
        spec_device_format_of(SampleFormat::I16) == DeviceSampleFormat::I16,
        spec_device_format_of(SampleFormat::I32) == DeviceSampleFormat::I32,
        spec_device_format_of(SampleFormat::F32) == DeviceSampleFormat::F32,
        spec_device_format_of(SampleFormat::U16) == DeviceSampleFormat::U16,
        spec_sample_format_of(DeviceSampleFormat::I16) == Some(SampleFormat::I16),
        spec_sample_format_of(DeviceSampleFormat::I32) == Some(SampleFormat::I32),
        spec_sample_format_of(DeviceSampleFormat::F32) == Some(SampleFormat::F32),
        spec_sample_format_of(DeviceSampleFormat::U16) == Some(SampleFormat::U16),
        spec_sample_format_of(DeviceSampleFormat::I8) is None,
        spec_sample_format_of(DeviceSampleFormat::I64) is None,
        spec_sample_format_of(DeviceSampleFormat::U8) is None,
        spec_sample_format_of(DeviceSampleFormat::U32) is None,
        spec_sample_format_of(DeviceSampleFormat::U64) is None,
        spec_sample_format_of(DeviceSampleFormat::F64) is None,
{
}

/// Converting a protocol format to a device format and back gives it back.
pub proof fn lemma_sample_format_roundtrip(format: SampleFormat)
    ensures
        spec_sample_format_of(spec_device_format_of(format)) == Some(format),
{
}

/// A device format is carried by the protocol exactly when it is one of the
/// four formats that the protocol names, and then it converts back to itself.
pub proof fn lemma_device_format_roundtrip(format: DeviceSampleFormat)
    ensures
        spec_sample_format_of(format) matches Some(f) ==> spec_device_format_of(f) == format,
        spec_sample_format_of(format) is None <==> !(format == DeviceSampleFormat::I16
            || format == DeviceSampleFormat::I32 || format == DeviceSampleFormat::F32
            || format == DeviceSampleFormat::U16),
{
}

} // verus!

verus! {

/// Largest payload length that the 4-byte length prefix can carry, plus one.
pub open spec fn prefix_modulus() -> nat {
    4294967296
}

/// The 4-byte little-endian length prefix written in front of a payload of
/// `len` bytes; a length beyond the prefix's range is written modulo 2^32.
pub open spec fn frame_header(len: nat) -> Seq<u8> {
    le4_bytes((len % prefix_modulus()) as int)
}

/// A payload with its length prefix.
pub open spec fn frame(payload: Seq<u8>) -> Seq<u8> {
    frame_header(payload.len()) + payload
}

/// Frames of all payloads in `payloads`, one after another.
pub open spec fn frames(payloads: Seq<Seq<u8>>) -> Seq<u8>
    decreases payloads.len(),
{
    if payloads.len() == 0 {
        Seq::empty()
    } else {
        frame(payloads[0]) + frames(payloads.drop_first())
    }
}

/// Why a byte sequence does not start with a complete frame.
#[derive(Debug, Clone, Copy, PartialEq, Eq, Structural)]
pub enum FrameError {
    /// Fewer than 4 bytes: the length prefix itself is incomplete.
    MissingLengthPrefix,
    /// The prefix announces more payload bytes than are present.
    IncompleteMessage,
}

/// The payload of the frame at the start of `data` and the bytes after it.
pub open spec fn spec_decode_frame(data: Seq<u8>) -> Result<(Seq<u8>, Seq<u8>), FrameError> {
    if data.len() < 4 {
        Err(FrameError::MissingLengthPrefix)
    } else if data.len() < 4 + le4_value(data) {
        Err(FrameError::IncompleteMessage)
    } else {
        let end = 4 + le4_value(data);
        Ok((data.subrange(4, end), data.subrange(end, data.len() as int)))
    }
}

/// Puts the 4-byte little-endian length prefix in front of `payload`.
pub fn encode_frame(payload: &[u8]) -> (out: Vec<u8>)
    ensures
        out@ == frame(payload@),
{
    let len: u64 = payload.len() as u64;
    let n: u64 = len % 4294967296;
    let mut out: Vec<u8> = Vec::new();
    out.push((n % 256) as u8);
    out.push(((n / 256) % 256) as u8);
    out.push(((n / 65536) % 256) as u8);
    out.push((n / 16777216) as u8);
    out.extend_from_slice(payload);
    proof {
        assert(out@.take(4) =~= frame_header(payload@.len()));
        assert forall|i: int| 4 <= i < out@.len() implies out@[i] == payload@[i - 4] by {
            assert(cloned::<u8>(payload@[i - 4], out@[i]));
        }
        assert(out@ =~= frame(payload@));
    }
    out
}

/// Splits the frame at the start of `data` into its payload and the bytes
/// that follow it.
pub fn decode_frame(data: &[u8]) -> (r: Result<(&[u8], &[u8]), FrameError>)
    ensures
        match r {
            Ok((payload, rest)) => spec_decode_frame(data@) == Ok::<(Seq<u8>, Seq<u8>), FrameError>((payload@, rest@)),
            Err(e) => spec_decode_frame(data@) == Err::<(Seq<u8>, Seq<u8>), FrameError>(e),
        },
{
    if data.len() < 4 {
        return Err(FrameError::MissingLengthPrefix);
    }
    let length: u64 = data[0] as u64 + 256 * (data[1] as u64) + 65536 * (data[2] as u64) + 16777216 * (
    data[3] as u64);
    let available: u64 = (data.len() - 4) as u64;
    if available < length {
        return Err(FrameError::IncompleteMessage);
    }
    let end: usize = 4 + length as usize;
    Ok((slice_subrange(data, 4, end), slice_subrange(data, end, data.len())))
}

/// The length prefix of a frame holds the payload length (modulo 2^32), and
/// the frame is 4 bytes longer than its payload.
pub proof fn lemma_frame_header(payload: Seq<u8>)
    ensures
        frame(payload).len() == payload.len() + 4,
        le4_value(frame(payload)) == payload.len() % prefix_modulus(),
        frame(payload).subrange(4, frame(payload).len() as int) == payload,
{
    lemma_le4_roundtrip_value((payload.len() % prefix_modulus()) as int);
    assert(frame(payload).subrange(4, frame(payload).len() as int) =~= payload);
}

/// Decoding the frame of a payload, followed by any bytes, gives the payload
/// and those bytes back.
pub proof fn lemma_frame_roundtrip(payload: Seq<u8>, rest: Seq<u8>)
    requires
        payload.len() < prefix_modulus(),
    ensures
        spec_decode_frame(frame(payload) + rest) == Ok::<(Seq<u8>, Seq<u8>), FrameError>((payload, rest)),
{
    lemma_le4_roundtrip_value(payload.len() as int);
    let data = frame(payload) + rest;
    assert(le4_value(data) == le4_value(frame(payload)));
    assert(data.subrange(4, 4 + payload.len() as int) =~= payload);
    assert(data.subrange(4 + payload.len() as int, data.len() as int) =~= rest);
}

/// Whatever decodes as a frame is exactly that frame followed by the rest.
pub proof fn lemma_decode_is_frame(data: Seq<u8>)
    requires
        spec_decode_frame(data) is Ok,
    ensures
        spec_decode_frame(data) matches Ok((payload, rest)) ==> payload.len() < prefix_modulus()
            && data == frame(payload) + rest,
{
    let n = le4_value(data);
    crate::sample::lemma_le4_roundtrip_bytes(data.take(4));
    assert(le4_value(data.take(4)) == n);
    assert(frame_header(n as nat) == data.take(4));
    assert(data =~= frame(data.subrange(4, 4 + n)) + data.subrange(4 + n, data.len() as int));
}

/// A complete frame stays the same frame when more bytes arrive after it.
pub proof fn lemma_decode_prefix_stable(data: Seq<u8>, extra: Seq<u8>)
    requires
        spec_decode_frame(data) is Ok,
    ensures
        spec_decode_frame(data) matches Ok((payload, rest)) ==> spec_decode_frame(data + extra)
            == Ok::<(Seq<u8>, Seq<u8>), FrameError>((payload, rest + extra)),
{
    let all = data + extra;
    assert(le4_value(all) == le4_value(data));
    let end = 4 + le4_value(data);
    assert(all.subrange(4, end) =~= data.subrange(4, end));
    assert(all.subrange(end, all.len() as int) =~= data.subrange(end, data.len() as int) + extra);
}

/// No proper prefix of a frame decodes: a reader waits for the whole frame.
pub proof fn lemma_partial_frame_incomplete(payload: Seq<u8>, k: int)
    requires
        payload.len() < prefix_modulus(),
        0 <= k < frame(payload).len(),
    ensures
        spec_decode_frame(frame(payload).take(k)) is Err,
{
    lemma_le4_roundtrip_value(payload.len() as int);
    let part = frame(payload).take(k);
    if k >= 4 {
        assert(le4_value(part) == le4_value(frame(payload)));
    }
}

/// The frames of a run of payloads decode one at a time, in order.
pub proof fn lemma_frames_decode_in_order(payloads: Seq<Seq<u8>>, rest: Seq<u8>)
    requires
        payloads.len() > 0,
        forall|i: int| 0 <= i < payloads.len() ==> #[trigger] payloads[i].len() < prefix_modulus(),
    ensures
        spec_decode_frame(frames(payloads) + rest) == Ok::<(Seq<u8>, Seq<u8>), FrameError>(
            (payloads[0], frames(payloads.drop_first()) + rest),
        ),
{
    let tail = frames(payloads.drop_first()) + rest;
    assert(frames(payloads) + rest =~= frame(payloads[0]) + tail);
    lemma_frame_roundtrip(payloads[0], tail);
}

} // verus!

verus! {

/// The length prefix is the payload length as a little-endian 32-bit number:
/// lowest byte first, each byte the next base-256 digit.
pub proof fn lemma_frame_prefix_little_endian(payload: Seq<u8>)
    requires
        payload.len() < prefix_modulus(),
    ensures
        ({
            let f = frame(payload);
            let n = payload.len() as int;
            &&& f.len() == n + 4
            &&& f[0] == n % 256
            &&& f[1] == (n / 256) % 256
            &&& f[2] == (n / 65536) % 256
            &&& f[3] == n / 16777216
            &&& f[0] + 256 * f[1] + 65536 * f[2] + 16777216 * f[3] == n
            &&& forall|i: int| 0 <= i < n ==> f[i + 4] == payload[i]
        }),
{
    lemma_le4_roundtrip_value(payload.len() as int);
}

/// Decoding reads the first four bytes as a little-endian 32-bit length `n`
/// (`data[0] + 2^8 data[1] + 2^16 data[2] + 2^24 data[3]`): with fewer than
/// four bytes the prefix is missing; with fewer than `4 + n` the message is
/// incomplete; otherwise the payload is bytes `4 .. 4 + n` and the rest
/// follows it.
pub proof fn lemma_decode_reads_little_endian_length(data: Seq<u8>)
    ensures
        data.len() < 4 ==> spec_decode_frame(data) == Err::<(Seq<u8>, Seq<u8>), FrameError>(
            FrameError::MissingLengthPrefix,
        ),
        data.len() >= 4 ==> ({
            let n = data[0] + 256 * data[1] + 65536 * data[2] + 16777216 * data[3];
            &&& data.len() < 4 + n ==> spec_decode_frame(data) == Err::<(Seq<u8>, Seq<u8>), FrameError>(
                FrameError::IncompleteMessage,
            )
            &&& data.len() >= 4 + n ==> spec_decode_frame(data) == Ok::<(Seq<u8>, Seq<u8>), FrameError>(
                (data.subrange(4, 4 + n), data.subrange(4 + n, data.len() as int)),
            )
        }),
{
}

} // verus!
