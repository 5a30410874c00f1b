//! Little-endian byte encodings of audio samples.
use vstd::prelude::*;
use vstd::arithmetic::div_mod::lemma_fundamental_div_mod_converse;

verus! {

/// Value of two little-endian bytes read as an unsigned integer.
pub open spec fn le2_value(b: Seq<u8>) -> int {
    b[0] + 256 * b[1]
}

/// Value of four little-endian bytes read as an unsigned integer.
pub open spec fn le4_value(b: Seq<u8>) -> int {
    b[0] + 256 * b[1] + 65536 * b[2] + 16777216 * b[3]
}

/// The two little-endian bytes of `v`, for `0 <= v < 2^16`.
pub open spec fn le2_bytes(v: int) -> Seq<u8> {
    seq![(v % 256) as u8, (v / 256) as u8]
}

/// The four little-endian bytes of `v`, for `0 <= v < 2^32`.
pub open spec fn le4_bytes(v: int) -> Seq<u8> {
    seq![(v % 256) as u8, ((v / 256) % 256) as u8, ((v / 65536) % 256) as u8, (v / 16777216) as u8]
}

/// Two's complement reading of a 16-bit pattern `u` (`0 <= u < 2^16`).
pub open spec fn signed16(u: int) -> int {
    if u >= 32768 { u - 65536 } else { u }
}

/// The 16-bit pattern of a signed value `x` (`-2^15 <= x < 2^15`).
pub open spec fn unsigned16(x: int) -> int {
    if x < 0 { x + 65536 } else { x }
}

/// Two's complement reading of a 32-bit pattern `u` (`0 <= u < 2^32`).
pub open spec fn signed32(u: int) -> int {
    if u >= 2147483648 { u - 4294967296 } else { u }
}

/// The 32-bit pattern of a signed value `x` (`-2^31 <= x < 2^31`).
pub open spec fn unsigned32(x: int) -> int {
    if x < 0 { x + 4294967296 } else { x }
}

pub proof fn lemma_le2_roundtrip_value(v: int)
    requires
        0 <= v < 65536,
    ensures
        le2_bytes(v).len() == 2,
        le2_value(le2_bytes(v)) == v,
{
}

pub proof fn lemma_le2_roundtrip_bytes(b: Seq<u8>)
    requires
        b.len() == 2,
    ensures
        le2_bytes(le2_value(b)) == b,
{
    assert(le2_bytes(le2_value(b)) =~= b);
}

pub proof fn lemma_le4_roundtrip_value(v: int)
    requires
        0 <= v < 4294967296,
    ensures
        le4_bytes(v).len() == 4,
        le4_value(le4_bytes(v)) == v,
{
}

pub proof fn lemma_le4_roundtrip_bytes(b: Seq<u8>)
    requires
        b.len() == 4,
    ensures
        le4_bytes(le4_value(b)) == b,
{
    let v = le4_value(b);
    let hi = b[1] + 256 * b[2] + 65536 * b[3];
    lemma_fundamental_div_mod_converse(v, 256, hi, b[0] as int);
    let hi2 = b[2] + 256 * b[3];
    lemma_fundamental_div_mod_converse(hi, 256, hi2, b[1] as int);
    lemma_fundamental_div_mod_converse(v, 65536, hi2, b[0] + 256 * b[1]);
    lemma_fundamental_div_mod_converse(hi2, 256, b[3] as int, b[2] as int);
    lemma_fundamental_div_mod_converse(v, 16777216, b[3] as int, b[0] + 256 * b[1] + 65536 * b[2]);
    assert(le4_bytes(v) =~= b);
}

} // verus!

verus! {

/// A fixed-width audio sample with a little-endian byte encoding.
///
/// Every implementation encodes a sample into exactly `BYTE_SIZE` bytes and
/// decodes it back from the first `BYTE_SIZE` bytes of a slice; the two
/// directions are inverse to each other (see the proof methods below).
pub trait AudioSample: Default + Copy + Sized {
    /// Number of bytes in the encoding of one sample.
    const BYTE_SIZE: usize;

    /// The fixed-size byte array that holds one encoded sample.
    type ByteArray: View<V = Seq<u8>>;

    /// The sample that the bytes `bytes` (exactly `BYTE_SIZE` of them) encode.
    spec fn spec_from_le_bytes(bytes: Seq<u8>) -> Self;

    /// The `BYTE_SIZE` bytes that encode `self`.
    spec fn spec_to_le_bytes(self) -> Seq<u8>;

    /// Decodes a sample from the first `BYTE_SIZE` bytes of `bytes`.
    fn from_le_bytes(bytes: &[u8]) -> (s: Self)
        requires
            bytes@.len() >= Self::BYTE_SIZE,
        ensures
            s == Self::spec_from_le_bytes(bytes@.take(Self::BYTE_SIZE as int)),
    ;

    /// Encodes the sample.
    fn to_le_bytes(self) -> (bytes: Self::ByteArray)
        ensures
            bytes@ == self.spec_to_le_bytes(),
    ;

    /// The encoded bytes as a slice.
    fn byte_slice(bytes: &Self::ByteArray) -> (s: &[u8])
        ensures
            s@ == bytes@,
    ;

    /// An encoding is never empty.
    proof fn lemma_byte_size_positive()
        ensures
            Self::BYTE_SIZE > 0,
    ;

    /// Every encoding has exactly `BYTE_SIZE` bytes.
    proof fn lemma_encoding_len(self)
        ensures
            self.spec_to_le_bytes().len() == Self::BYTE_SIZE,
    ;

    /// Decoding the encoding of a sample gives the sample back.
    proof fn lemma_decode_encode(self)
        ensures
            Self::spec_from_le_bytes(self.spec_to_le_bytes()) == self,
    ;

    /// Encoding the decoding of `BYTE_SIZE` bytes gives the bytes back.
    proof fn lemma_encode_decode(bytes: Seq<u8>)
        requires
            bytes.len() == Self::BYTE_SIZE,
        ensures
            Self::spec_from_le_bytes(bytes).spec_to_le_bytes() == bytes,
    ;
}

impl AudioSample for u16 {
    const BYTE_SIZE: usize = 2;

    type ByteArray = [u8; 2];

    open spec fn spec_from_le_bytes(bytes: Seq<u8>) -> u16 {
        le2_value(bytes) as u16
    }

    open spec fn spec_to_le_bytes(self) -> Seq<u8> {
        le2_bytes(self as int)
    }

    fn from_le_bytes(bytes: &[u8]) -> (s: u16) {
        let lo: u16 = bytes[0] as u16;
        let hi: u16 = bytes[1] as u16;
        lo + 256 * hi
    }

    fn to_le_bytes(self) -> (bytes: [u8; 2]) {
        let bytes = [(self % 256) as u8, (self / 256) as u8];
        assert(bytes@ =~= le2_bytes(self as int));
        bytes
    }

    fn byte_slice(bytes: &[u8; 2]) -> (s: &[u8]) {
        bytes.as_slice()
    }

    proof fn lemma_byte_size_positive() {
    }

    proof fn lemma_encoding_len(self) {
    }

    proof fn lemma_decode_encode(self) {
        lemma_le2_roundtrip_value(self as int);
    }

    proof fn lemma_encode_decode(bytes: Seq<u8>) {
        lemma_le2_roundtrip_bytes(bytes);
    }
}

impl AudioSample for i16 {
    const BYTE_SIZE: usize = 2;

    type ByteArray = [u8; 2];

    open spec fn spec_from_le_bytes(bytes: Seq<u8>) -> i16 {
        signed16(le2_value(bytes)) as i16
    }

    open spec fn spec_to_le_bytes(self) -> Seq<u8> {
        le2_bytes(unsigned16(self as int))
    }

    fn from_le_bytes(bytes: &[u8]) -> (s: i16) {
        let lo: i32 = bytes[0] as i32;
        let hi: i32 = bytes[1] as i32;
        let u: i32 = lo + 256 * hi;
        if u >= 32768 {
            (u - 65536) as i16
        } else {
            u as i16
        }
    }

    fn to_le_bytes(self) -> (bytes: [u8; 2]) {
        let u: i32 = if self < 0 { self as i32 + 65536 } else { self as i32 };
        let bytes = [(u % 256) as u8, (u / 256) as u8];
        assert(bytes@ =~= le2_bytes(unsigned16(self as int)));
        bytes
    }

    fn byte_slice(bytes: &[u8; 2]) -> (s: &[u8]) {
        bytes.as_slice()
    }

    proof fn lemma_byte_size_positive() {
    }

    proof fn lemma_encoding_len(self) {
    }

    proof fn lemma_decode_encode(self) {
        lemma_le2_roundtrip_value(unsigned16(self as int));
    }

    proof fn lemma_encode_decode(bytes: Seq<u8>) {
        lemma_le2_roundtrip_bytes(bytes);
    }
}

impl AudioSample for i32 {
    const BYTE_SIZE: usize = 4;

    type ByteArray = [u8; 4];

    open spec fn spec_from_le_bytes(bytes: Seq<u8>) -> i32 {
        signed32(le4_value(bytes)) as i32
    }

    open spec fn spec_to_le_bytes(self) -> Seq<u8> {
        le4_bytes(unsigned32(self as int))
    }

    fn from_le_bytes(bytes: &[u8]) -> (s: i32) {
        let b0: i64 = bytes[0] as i64;
        let b1: i64 = bytes[1] as i64;
        let b2: i64 = bytes[2] as i64;
        let b3: i64 = bytes[3] as i64;
        let u: i64 = b0 + 256 * b1 + 65536 * b2 + 16777216 * b3;
        if u >= 2147483648 {
            (u - 4294967296) as i32
        } else {
            u as i32
        }
    }

    fn to_le_bytes(self) -> (bytes: [u8; 4]) {
        let u: i64 = if self < 0 { self as i64 + 4294967296 } else { self as i64 };
        let bytes = [
            (u % 256) as u8,
            ((u / 256) % 256) as u8,
            ((u / 65536) % 256) as u8,
            (u / 16777216) as u8,
        ];
        assert(bytes@ =~= le4_bytes(unsigned32(self as int)));
        bytes
    }

    fn byte_slice(bytes: &[u8; 4]) -> (s: &[u8]) {
        bytes.as_slice()
    }

    proof fn lemma_byte_size_positive() {
    }

    proof fn lemma_encoding_len(self) {
    }

    proof fn lemma_decode_encode(self) {
        lemma_le4_roundtrip_value(unsigned32(self as int));
    }

    proof fn lemma_encode_decode(bytes: Seq<u8>) {
        lemma_le4_roundtrip_bytes(bytes);
    }
}

} // verus!

verus! {

/// The byte stream that encodes `samples` one after another.
pub open spec fn encode_samples<T: AudioSample>(samples: Seq<T>) -> Seq<u8>
    decreases samples.len(),
{
    if samples.len() == 0 {
        Seq::empty()
    } else {
        encode_samples(samples.drop_last()) + samples.last().spec_to_le_bytes()
    }
}

/// The `i`-th block of `size` bytes of `bytes`.
pub open spec fn chunk(bytes: Seq<u8>, i: int, size: int) -> Seq<u8> {
    bytes.subrange(i * size, i * size + size)
}

/// The first `count` samples that the byte stream `bytes` encodes.
pub open spec fn decode_samples<T: AudioSample>(bytes: Seq<u8>, count: nat) -> Seq<T> {
    Seq::new(count, |i: int| T::spec_from_le_bytes(chunk(bytes, i, T::BYTE_SIZE as int)))
}

proof fn lemma_chunk_bounds(i: int, n: int, size: int)
    requires
        0 <= i < n,
        size > 0,
    ensures
        0 <= i * size,
        i * size + size <= n * size,
{
    assert(0 <= i * size) by (nonlinear_arith)
        requires
            0 <= i,
            size > 0,
    ;
    assert(i * size + size <= n * size) by (nonlinear_arith)
        requires
            i < n,
            size > 0,
    ;
}

/// The encoding of `samples` holds `BYTE_SIZE` bytes per sample.
pub proof fn lemma_encode_samples_len<T: AudioSample>(samples: Seq<T>)
    ensures
        encode_samples(samples).len() == samples.len() * T::BYTE_SIZE,
    decreases samples.len(),
{
    if samples.len() > 0 {
        lemma_encode_samples_len(samples.drop_last());
        samples.last().lemma_encoding_len();
        let n = samples.len() as int;
        let k = T::BYTE_SIZE as int;
        assert((n - 1) * k + k == n * k) by (nonlinear_arith);
    }
}

/// The `i`-th block of the encoding of `samples` is the encoding of `samples[i]`.
pub proof fn lemma_encode_samples_chunk<T: AudioSample>(samples: Seq<T>, i: int)
    requires
        0 <= i < samples.len(),
    ensures
        chunk(encode_samples(samples), i, T::BYTE_SIZE as int) == samples[i].spec_to_le_bytes(),
    decreases samples.len(),
{
    let n = samples.len() as int;
    let k = T::BYTE_SIZE as int;
    let prefix = samples.drop_last();
    T::lemma_byte_size_positive();
    lemma_encode_samples_len(prefix);
    samples.last().lemma_encoding_len();
    let whole = encode_samples(samples);
    let front = encode_samples(prefix);
    assert(whole == front + samples.last().spec_to_le_bytes());
    if i < n - 1 {
        lemma_encode_samples_chunk(prefix, i);
        lemma_chunk_bounds(i, n - 1, k);
        assert(chunk(whole, i, k) =~= chunk(front, i, k));
    } else {
        assert(i * k == (n - 1) * k);
        assert(chunk(whole, i, k) =~= samples.last().spec_to_le_bytes());
    }
}

/// Decoding the byte stream of a run of samples gives the samples back.
pub proof fn lemma_decode_encode_samples<T: AudioSample>(samples: Seq<T>)
    ensures
        decode_samples::<T>(encode_samples(samples), samples.len()) == samples,
{
    assert forall|i: int| 0 <= i < samples.len() implies decode_samples::<T>(
        encode_samples(samples),
        samples.len(),
    )[i] == samples[i] by {
        lemma_encode_samples_chunk(samples, i);
        samples[i].lemma_decode_encode();
    }
    assert(decode_samples::<T>(encode_samples(samples), samples.len()) =~= samples);
}

} // verus!
verus! {

/// The encoding sizes of the sample types: two bytes for 16-bit samples and
/// four for 32-bit ones.
pub proof fn lemma_byte_sizes()
    ensures
        <u16 as AudioSample>::BYTE_SIZE == 2,
        <i16 as AudioSample>::BYTE_SIZE == 2,
        <i32 as AudioSample>::BYTE_SIZE == 4,
{
}

} // verus!

verus! {

/// Decoding `n` samples and then `m` more from what follows them is decoding
/// `n + m` samples: filling output blocks one after another plays the byte
/// queue in order, whatever the block sizes.
pub proof fn lemma_decode_samples_split<T: AudioSample>(bytes: Seq<u8>, n: nat, m: nat)
    requires
        bytes.len() >= (n + m) * T::BYTE_SIZE,
    ensures
        decode_samples::<T>(bytes, n) + decode_samples::<T>(bytes.skip(n * T::BYTE_SIZE), m)
            == decode_samples::<T>(bytes, n + m),
{
    let k = T::BYTE_SIZE as int;
    T::lemma_byte_size_positive();
    let rest = bytes.skip(n * T::BYTE_SIZE);
    assert(n * k <= (n + m) * k) by (nonlinear_arith)
        requires
            k > 0,
    ;
    assert forall|i: int| n <= i < n + m implies #[trigger] chunk(rest, i - n, k) == chunk(bytes, i, k) by {
        assert((i - n) * k + n * k == i * k) by (nonlinear_arith);
        assert(0 <= (i - n) * k) by (nonlinear_arith)
            requires
                n <= i,
                k > 0,
        ;
        assert(i * k + k <= (n + m) * k) by (nonlinear_arith)
            requires
                i < n + m,
                k > 0,
        ;
        assert(chunk(rest, i - n, k) =~= chunk(bytes, i, k));
    }
    let joined = decode_samples::<T>(bytes, n) + decode_samples::<T>(rest, m);
    assert forall|i: int| 0 <= i < n + m implies joined[i] == decode_samples::<T>(bytes, n + m)[i] by {
        if i >= n {
            assert(chunk(rest, i - n, k) == chunk(bytes, i, k));
        }
    }
    assert(joined =~= decode_samples::<T>(bytes, n + m));
}

} // verus!

verus! {

/// A `u16` sample is written as its low byte, then its high byte, and two
/// bytes are read back as `b[0] + 256 * b[1]`.
pub proof fn lemma_u16_little_endian(v: u16, b: Seq<u8>)
    requires
        b.len() == 2,
    ensures
        <u16 as AudioSample>::spec_to_le_bytes(v) == seq![(v % 256) as u8, (v / 256) as u8],
        <u16 as AudioSample>::spec_to_le_bytes(v)[0] + 256 * <u16 as AudioSample>::spec_to_le_bytes(v)[1]
            == v,
        <u16 as AudioSample>::spec_from_le_bytes(b) as int == b[0] + 256 * b[1],
{
    assert(<u16 as AudioSample>::spec_to_le_bytes(v) =~= seq![(v % 256) as u8, (v / 256) as u8]);
}

/// An `i16` sample is written as the low byte, then the high byte, of its
/// 16-bit two's complement pattern, and two bytes `b` are read back as
/// `b[0] + 256 * b[1]`, less 65536 when that is 32768 or more.
pub proof fn lemma_i16_little_endian(v: i16, b: Seq<u8>)
    requires
        b.len() == 2,
    ensures
        ({
            let u: int = if v < 0 { v + 65536 } else { v as int };
            &&& <i16 as AudioSample>::spec_to_le_bytes(v) == seq![(u % 256) as u8, (u / 256) as u8]
            &&& <i16 as AudioSample>::spec_to_le_bytes(v)[0] + 256 * <i16 as AudioSample>::spec_to_le_bytes(v)[1] == u
        }),
        <i16 as AudioSample>::spec_from_le_bytes(b) as int == if b[0] + 256 * b[1] >= 32768 {
            b[0] + 256 * b[1] - 65536
        } else {
            b[0] + 256 * b[1]
        },
{
    let u: int = if v < 0 { v + 65536 } else { v as int };
    assert(<i16 as AudioSample>::spec_to_le_bytes(v) =~= seq![(u % 256) as u8, (u / 256) as u8]);
}

/// An `i32` sample is written as the four bytes, lowest first, of its 32-bit
/// two's complement pattern, and four bytes `b` are read back as
/// `b[0] + 2^8 b[1] + 2^16 b[2] + 2^24 b[3]`, less 2^32 when that is 2^31 or
/// more.
pub proof fn lemma_i32_little_endian(v: i32, b: Seq<u8>)
    requires
        b.len() == 4,
    ensures
        ({
            let u: int = if v < 0 { v + 4294967296 } else { v as int };
            let e = <i32 as AudioSample>::spec_to_le_bytes(v);
            &&& e == seq![(u % 256) as u8, ((u / 256) % 256) as u8, ((u / 65536) % 256) as u8, (u / 16777216) as u8]
            &&& e[0] + 256 * e[1] + 65536 * e[2] + 16777216 * e[3] == u
        }),
        ({
            let w: int = b[0] + 256 * b[1] + 65536 * b[2] + 16777216 * b[3];
            <i32 as AudioSample>::spec_from_le_bytes(b) as int == if w >= 2147483648 { w - 4294967296 } else { w }
        }),
{
    let u: int = if v < 0 { v + 4294967296 } else { v as int };
    assert(<i32 as AudioSample>::spec_to_le_bytes(v) =~= seq![(u % 256) as u8, ((u / 256) % 256) as u8, ((u / 65536) % 256) as u8, (u / 16777216) as u8]);
    lemma_le4_roundtrip_value(u);
}

} // verus!

verus! {

/// The encoding of a run of samples holds `BYTE_SIZE` bytes per sample, and
/// bytes `i * BYTE_SIZE .. (i + 1) * BYTE_SIZE` are the encoding of sample `i`.
pub proof fn lemma_encode_samples_layout<T: AudioSample>(samples: Seq<T>)
    ensures
        encode_samples(samples).len() == samples.len() * T::BYTE_SIZE,
        forall|i: int|
            0 <= i < samples.len() ==> #[trigger] encode_samples(samples).subrange(
                i * T::BYTE_SIZE,
                i * T::BYTE_SIZE + T::BYTE_SIZE,
            ) == samples[i].spec_to_le_bytes(),
{
    lemma_encode_samples_len(samples);
    assert forall|i: int| 0 <= i < samples.len() implies #[trigger] encode_samples(samples).subrange(
        i * T::BYTE_SIZE,
        i * T::BYTE_SIZE + T::BYTE_SIZE,
    ) == samples[i].spec_to_le_bytes() by {
        lemma_encode_samples_chunk(samples, i);
    }
}

/// Decoding `count` samples gives `count` samples, sample `i` being read from
/// bytes `i * BYTE_SIZE .. (i + 1) * BYTE_SIZE`.
pub proof fn lemma_decode_samples_layout<T: AudioSample>(bytes: Seq<u8>, count: nat)
    ensures
        decode_samples::<T>(bytes, count).len() == count,
        forall|i: int|
            0 <= i < count ==> #[trigger] decode_samples::<T>(bytes, count)[i] == T::spec_from_le_bytes(
                bytes.subrange(i * T::BYTE_SIZE, i * T::BYTE_SIZE + T::BYTE_SIZE),
            ),
{
}

} // verus!
