//! Byte-level encodings of the protocol's primitive values.
//!
//! Every decoder is specified by a spec function from the whole input and a
//! read position to the decoded value (or the error) and the position after
//! the read; every encoder by the bytes it appends.
use vstd::prelude::*;
use vstd::bytes::*;
use vstd::utf8::*;
use crate::error::Error;

verus! {

/// What a decoder gives: the value or the error, and the read position after it.
pub type Decoded<T> = (Result<T, Error>, int);

/// Runs `next` on the value that `first` decoded, from the position where `first` stopped.
pub open spec fn and_then<A, B>(first: Decoded<A>, next: spec_fn(A, int) -> Decoded<B>) -> Decoded<B> {
    match first.0 {
        Ok(a) => next(a, first.1),
        Err(e) => (Err(e), first.1),
    }
}

/// Applies `f` to a decoded value, keeping the position.
pub open spec fn map_decoded<A, B>(d: Decoded<A>, f: spec_fn(A) -> B) -> Decoded<B> {
    match d.0 {
        Ok(a) => (Ok(f(a)), d.1),
        Err(e) => (Err(e), d.1),
    }
}

/// Reading `n` bytes at `pos`: a short read fails and moves the position to the end.
pub open spec fn take_bytes(data: Seq<u8>, pos: int, n: int) -> Decoded<Seq<u8>> {
    if pos + n <= data.len() {
        (Ok(data.subrange(pos, pos + n)), pos + n)
    } else {
        (Err(Error::UnexpectedEnd), data.len() as int)
    }
}

/// `e` stands in `data` from `pos` on.
pub open spec fn occurs_at(data: Seq<u8>, pos: int, e: Seq<u8>) -> bool {
    &&& 0 <= pos
    &&& pos + e.len() <= data.len()
    &&& data.subrange(pos, pos + e.len()) == e
}

pub proof fn lemma_occurs_at_concat(data: Seq<u8>, pos: int, a: Seq<u8>, b: Seq<u8>)
    requires
        occurs_at(data, pos, a + b),
    ensures
        occurs_at(data, pos, a),
        occurs_at(data, pos + a.len(), b),
{
    let w = data.subrange(pos, pos + a.len() + b.len());
    assert(w == a + b);
    assert forall|i: int| 0 <= i < a.len() implies data[pos + i] == a[i] by {
        assert(w[i] == (a + b)[i]);
    }
    assert forall|i: int| 0 <= i < b.len() implies data[pos + a.len() + i] == b[i] by {
        assert(w[a.len() + i] == (a + b)[a.len() + i]);
    }
    assert(data.subrange(pos, pos + a.len()) =~= a);
    assert(data.subrange(pos + a.len(), pos + a.len() + b.len()) =~= b);
}

pub proof fn lemma_take_occurs(data: Seq<u8>, pos: int, e: Seq<u8>)
    requires
        occurs_at(data, pos, e),
    ensures
        take_bytes(data, pos, e.len() as int) == (Ok::<Seq<u8>, Error>(e), pos + e.len()),
{
}

// ---- fixed-width integers ----
/// Little-endian bytes of a `u16`.
pub open spec fn le_u16(x: u16) -> Seq<u8> {
    spec_u16_to_le_bytes(x)
}

/// Little-endian bytes of a `u32`.
pub open spec fn le_u32(x: u32) -> Seq<u8> {
    spec_u32_to_le_bytes(x)
}

/// Little-endian bytes of a `u64`.
pub open spec fn le_u64(x: u64) -> Seq<u8> {
    spec_u64_to_le_bytes(x)
}

/// Little-endian two's complement bytes of an `i32`.
pub open spec fn le_i32(x: i32) -> Seq<u8> {
    spec_u32_to_le_bytes(x as u32)
}

/// Big-endian bytes of a `u16`.
pub open spec fn be_u16(x: u16) -> Seq<u8> {
    seq![spec_u16_to_le_bytes(x)[1], spec_u16_to_le_bytes(x)[0]]
}

/// Big-endian bytes of a `u32`.
pub open spec fn be_u32(x: u32) -> Seq<u8> {
    let l = spec_u32_to_le_bytes(x);
    seq![l[3], l[2], l[1], l[0]]
}

/// The `u16` of two big-endian bytes.
pub open spec fn u16_of_be(s: Seq<u8>) -> u16 {
    spec_u16_from_le_bytes(seq![s[1], s[0]])
}

/// The `u32` of four big-endian bytes.
pub open spec fn u32_of_be(s: Seq<u8>) -> u32 {
    spec_u32_from_le_bytes(seq![s[3], s[2], s[1], s[0]])
}

pub open spec fn decode_u8(data: Seq<u8>, pos: int) -> Decoded<u8> {
    map_decoded(take_bytes(data, pos, 1), |s: Seq<u8>| s[0])
}

pub open spec fn decode_u16_le(data: Seq<u8>, pos: int) -> Decoded<u16> {
    map_decoded(take_bytes(data, pos, 2), |s: Seq<u8>| spec_u16_from_le_bytes(s))
}

pub open spec fn decode_u32_le(data: Seq<u8>, pos: int) -> Decoded<u32> {
    map_decoded(take_bytes(data, pos, 4), |s: Seq<u8>| spec_u32_from_le_bytes(s))
}

pub open spec fn decode_u64_le(data: Seq<u8>, pos: int) -> Decoded<u64> {
    map_decoded(take_bytes(data, pos, 8), |s: Seq<u8>| spec_u64_from_le_bytes(s))
}

pub open spec fn decode_i32_le(data: Seq<u8>, pos: int) -> Decoded<i32> {
    map_decoded(take_bytes(data, pos, 4), |s: Seq<u8>| spec_u32_from_le_bytes(s) as i32)
}

pub open spec fn decode_u16_be(data: Seq<u8>, pos: int) -> Decoded<u16> {
    map_decoded(take_bytes(data, pos, 2), |s: Seq<u8>| u16_of_be(s))
}

pub open spec fn decode_u32_be(data: Seq<u8>, pos: int) -> Decoded<u32> {
    map_decoded(take_bytes(data, pos, 4), |s: Seq<u8>| u32_of_be(s))
}

/// A read position over a byte slice. A read that runs past the end fails and
/// leaves the position at the end.
pub struct ByteReader<'a> {
    data: &'a [u8],
    pos: usize,
}

impl<'a> ByteReader<'a> {
    #[verifier::type_invariant]
    spec fn inv(self) -> bool {
        self.pos <= self.data@.len()
    }

    /// The bytes being read.
    pub closed spec fn data(&self) -> Seq<u8> {
        self.data@
    }

    /// The read position.
    pub closed spec fn pos(&self) -> int {
        self.pos as int
    }

    /// A reader at the start of `data`.
    pub fn new(data: &'a [u8]) -> (r: Self)
        ensures
            r.data() == data@,
            r.pos() == 0,
    {
        ByteReader { data, pos: 0 }
    }

    /// The read position.
    pub fn position(&self) -> (r: usize)
        ensures
            r == self.pos(),
            r <= self.data().len(),
    {
        proof {
            use_type_invariant(self);
        }
        self.pos
    }

    /// How many bytes are left to read.
    pub fn remaining(&self) -> (r: usize)
        ensures
            r == self.data().len() - self.pos(),
    {
        proof {
            use_type_invariant(self);
        }
        self.data.len() - self.pos
    }

    /// Reads `n` bytes.
    pub fn read_bytes(&mut self, n: u64) -> (r: Result<&'a [u8], Error>)
        ensures
            final(self).data() == old(self).data(),
            0 <= old(self).pos() <= old(self).data().len(),
            0 <= final(self).pos() <= final(self).data().len(),
            (match r {
                Ok(s) => Ok(s@),
                Err(e) => Err(e),
            }, final(self).pos()) == take_bytes(old(self).data(), old(self).pos(), n as int),
    {
        proof {
            use_type_invariant(&*self);
        }
        let left = self.data.len() - self.pos;
        if n <= left as u64 {
            let m = n as usize;
            let s = vstd::slice::slice_subrange(self.data, self.pos, self.pos + m);
            self.pos = self.pos + m;
            Ok(s)
        } else {
            self.pos = self.data.len();
            Err(Error::UnexpectedEnd)
        }
    }

    pub fn read_u8(&mut self) -> (r: Result<u8, Error>)
        ensures
            final(self).data() == old(self).data(),
            (r, final(self).pos()) == decode_u8(old(self).data(), old(self).pos()),
    {
        let s = self.read_bytes(1)?;
        Ok(s[0])
    }

    pub fn read_u16_le(&mut self) -> (r: Result<u16, Error>)
        ensures
            final(self).data() == old(self).data(),
            (r, final(self).pos()) == decode_u16_le(old(self).data(), old(self).pos()),
    {
        let s = self.read_bytes(2)?;
        Ok(u16_from_le_bytes(s))
    }

    pub fn read_u32_le(&mut self) -> (r: Result<u32, Error>)
        ensures
            final(self).data() == old(self).data(),
            (r, final(self).pos()) == decode_u32_le(old(self).data(), old(self).pos()),
    {
        let s = self.read_bytes(4)?;
        Ok(u32_from_le_bytes(s))
    }

    pub fn read_u64_le(&mut self) -> (r: Result<u64, Error>)
        ensures
            final(self).data() == old(self).data(),
            (r, final(self).pos()) == decode_u64_le(old(self).data(), old(self).pos()),
    {
        let s = self.read_bytes(8)?;
        Ok(u64_from_le_bytes(s))
    }

    pub fn read_i32_le(&mut self) -> (r: Result<i32, Error>)
        ensures
            final(self).data() == old(self).data(),
            (r, final(self).pos()) == decode_i32_le(old(self).data(), old(self).pos()),
    {
        let s = self.read_bytes(4)?;
        Ok(u32_from_le_bytes(s) as i32)
    }

    pub fn read_u16_be(&mut self) -> (r: Result<u16, Error>)
        ensures
            final(self).data() == old(self).data(),
            (r, final(self).pos()) == decode_u16_be(old(self).data(), old(self).pos()),
    {
        let s = self.read_bytes(2)?;
        let le = [s[1], s[0]];
        proof {
            assert(le@ == seq![s@[1], s@[0]]);
        }
        Ok(u16_from_le_bytes(le.as_slice()))
    }

    pub fn read_u32_be(&mut self) -> (r: Result<u32, Error>)
        ensures
            final(self).data() == old(self).data(),
            (r, final(self).pos()) == decode_u32_be(old(self).data(), old(self).pos()),
    {
        let s = self.read_bytes(4)?;
        let le = [s[3], s[2], s[1], s[0]];
        proof {
            assert(le@ == seq![s@[3], s@[2], s@[1], s@[0]]);
        }
        Ok(u32_from_le_bytes(le.as_slice()))
    }
}

// ---- writing ----
/// Appends the bytes of `s`.
pub fn append_bytes(buffer: &mut Vec<u8>, s: &[u8])
    ensures
        final(buffer)@ == old(buffer)@ + s@,
{
    let mut i: usize = 0;
    while i < s.len()
        invariant
            i <= s@.len(),
            buffer@ == old(buffer)@ + s@.subrange(0, i as int),
        decreases s@.len() - i,
    {
        buffer.push(s[i]);
        i = i + 1;
        assert(s@.subrange(0, i as int) == s@.subrange(0, i - 1) + seq![s@[i - 1]]);
    }
    assert(s@.subrange(0, s@.len() as int) == s@);
}

pub fn write_u16_le(buffer: &mut Vec<u8>, x: u16)
    ensures
        final(buffer)@ == old(buffer)@ + le_u16(x),
{
    let mut b = u16_to_le_bytes(x);
    buffer.append(&mut b);
}

pub fn write_u32_le(buffer: &mut Vec<u8>, x: u32)
    ensures
        final(buffer)@ == old(buffer)@ + le_u32(x),
{
    let mut b = u32_to_le_bytes(x);
    buffer.append(&mut b);
}

pub fn write_u64_le(buffer: &mut Vec<u8>, x: u64)
    ensures
        final(buffer)@ == old(buffer)@ + le_u64(x),
{
    let mut b = u64_to_le_bytes(x);
    buffer.append(&mut b);
}

pub fn write_i32_le(buffer: &mut Vec<u8>, x: i32)
    ensures
        final(buffer)@ == old(buffer)@ + le_i32(x),
{
    let mut b = u32_to_le_bytes(x as u32);
    buffer.append(&mut b);
}

pub fn write_u16_be(buffer: &mut Vec<u8>, x: u16)
    ensures
        final(buffer)@ == old(buffer)@ + be_u16(x),
{
    let b = u16_to_le_bytes(x);
    buffer.push(b[1]);
    buffer.push(b[0]);
}

pub fn write_u32_be(buffer: &mut Vec<u8>, x: u32)
    ensures
        final(buffer)@ == old(buffer)@ + be_u32(x),
{
    let b = u32_to_le_bytes(x);
    buffer.push(b[3]);
    buffer.push(b[2]);
    buffer.push(b[1]);
    buffer.push(b[0]);
}


// ---- the payload traits ----
/// A decoder's value taken by its view.
pub open spec fn view_result<T: View>(r: Result<T, Error>) -> Result<T::V, Error> {
    match r {
        Ok(v) => Ok(v@),
        Err(e) => Err(e),
    }
}

/// A value with a wire encoding.
pub trait SerializePayload: View {
    /// The bytes that serializing `v` appends, and whether it succeeds. A failed
    /// serialization may have appended some bytes first.
    spec fn spec_serialize(v: Self::V) -> (Seq<u8>, Result<(), Error>);

    fn serialize(&self, buffer: &mut Vec<u8>) -> (r: Result<(), Error>)
        ensures
            final(buffer)@ == old(buffer)@ + Self::spec_serialize(self@).0,
            r == Self::spec_serialize(self@).1,
    ;
}

/// A value that can be read back from its wire encoding.
pub trait DeserializePayload: Sized + View {
    /// The value decoded from `data` at `pos`, and the position after it.
    spec fn spec_deserialize(data: Seq<u8>, pos: int) -> Decoded<Self::V>;

    fn deserialize(buffer: &mut ByteReader) -> (r: Result<Self, Error>)
        ensures
            final(buffer).data() == old(buffer).data(),
            (view_result(r), final(buffer).pos()) == Self::spec_deserialize(
                old(buffer).data(),
                old(buffer).pos(),
            ),
    ;
}

impl SerializePayload for u8 {
    open spec fn spec_serialize(v: u8) -> (Seq<u8>, Result<(), Error>) {
        (seq![v], Ok(()))
    }

    fn serialize(&self, buffer: &mut Vec<u8>) -> (r: Result<(), Error>) {
        buffer.push(*self);
        Ok(())
    }
}

impl DeserializePayload for u8 {
    open spec fn spec_deserialize(data: Seq<u8>, pos: int) -> Decoded<u8> {
        decode_u8(data, pos)
    }

    fn deserialize(buffer: &mut ByteReader) -> (r: Result<u8, Error>) {
        buffer.read_u8()
    }
}

impl SerializePayload for u16 {
    open spec fn spec_serialize(v: u16) -> (Seq<u8>, Result<(), Error>) {
        (le_u16(v), Ok(()))
    }

    fn serialize(&self, buffer: &mut Vec<u8>) -> (r: Result<(), Error>) {
        write_u16_le(buffer, *self);
        Ok(())
    }
}

impl DeserializePayload for u16 {
    open spec fn spec_deserialize(data: Seq<u8>, pos: int) -> Decoded<u16> {
        decode_u16_le(data, pos)
    }

    fn deserialize(buffer: &mut ByteReader) -> (r: Result<u16, Error>) {
        buffer.read_u16_le()
    }
}

impl SerializePayload for u32 {
    open spec fn spec_serialize(v: u32) -> (Seq<u8>, Result<(), Error>) {
        (le_u32(v), Ok(()))
    }

    fn serialize(&self, buffer: &mut Vec<u8>) -> (r: Result<(), Error>) {
        write_u32_le(buffer, *self);
        Ok(())
    }
}

impl DeserializePayload for u32 {
    open spec fn spec_deserialize(data: Seq<u8>, pos: int) -> Decoded<u32> {
        decode_u32_le(data, pos)
    }

    fn deserialize(buffer: &mut ByteReader) -> (r: Result<u32, Error>) {
        buffer.read_u32_le()
    }
}

impl SerializePayload for u64 {
    open spec fn spec_serialize(v: u64) -> (Seq<u8>, Result<(), Error>) {
        (le_u64(v), Ok(()))
    }

    fn serialize(&self, buffer: &mut Vec<u8>) -> (r: Result<(), Error>) {
        write_u64_le(buffer, *self);
        Ok(())
    }
}

impl DeserializePayload for u64 {
    open spec fn spec_deserialize(data: Seq<u8>, pos: int) -> Decoded<u64> {
        decode_u64_le(data, pos)
    }

    fn deserialize(buffer: &mut ByteReader) -> (r: Result<u64, Error>) {
        buffer.read_u64_le()
    }
}

impl SerializePayload for i32 {
    open spec fn spec_serialize(v: i32) -> (Seq<u8>, Result<(), Error>) {
        (le_i32(v), Ok(()))
    }

    fn serialize(&self, buffer: &mut Vec<u8>) -> (r: Result<(), Error>) {
        write_i32_le(buffer, *self);
        Ok(())
    }
}

impl DeserializePayload for i32 {
    open spec fn spec_deserialize(data: Seq<u8>, pos: int) -> Decoded<i32> {
        decode_i32_le(data, pos)
    }

    fn deserialize(buffer: &mut ByteReader) -> (r: Result<i32, Error>) {
        buffer.read_i32_le()
    }
}

/// The byte that encodes a boolean.
pub open spec fn bool_byte(b: bool) -> u8 {
    if b {
        1
    } else {
        0
    }
}

impl SerializePayload for bool {
    open spec fn spec_serialize(v: bool) -> (Seq<u8>, Result<(), Error>) {
        (seq![bool_byte(v)], Ok(()))
    }

    fn serialize(&self, buffer: &mut Vec<u8>) -> (r: Result<(), Error>) {
        if *self {
            buffer.push(1);
        } else {
            buffer.push(0);
        }
        Ok(())
    }
}

impl DeserializePayload for bool {
    /// Zero is false, one is true, and any other byte is refused.
    open spec fn spec_deserialize(data: Seq<u8>, pos: int) -> Decoded<bool> {
        and_then(
            decode_u8(data, pos),
            |b: u8, q: int|
                if b == 0 {
                    (Ok(false), q)
                } else if b == 1 {
                    (Ok(true), q)
                } else {
                    (Err(Error::InvalidBool(b)), q)
                },
        )
    }

    fn deserialize(buffer: &mut ByteReader) -> (r: Result<bool, Error>) {
        let b = buffer.read_u8()?;
        if b == 0 {
            Ok(false)
        } else if b == 1 {
            Ok(true)
        } else {
            Err(Error::InvalidBool(b))
        }
    }
}

/// A variable-length unsigned integer: one byte up to 0xFC, otherwise a marker
/// byte and a little-endian integer of two, four or eight bytes.
pub struct CompactSizeUint(pub u64);

impl View for CompactSizeUint {
    type V = u64;

    open spec fn view(&self) -> u64 {
        self.0
    }
}

/// The bytes that encode `v` as a compact size. Values above `u32::MAX` are
/// written with the 0xFD marker before their eight bytes.
pub open spec fn compact_size_bytes(v: u64) -> Seq<u8> {
    if v <= 0xFC {
        seq![v as u8]
    } else if v <= 0xFFFF {
        seq![0xFDu8] + le_u16(v as u16)
    } else if v <= 0xFFFF_FFFF {
        seq![0xFEu8] + le_u32(v as u32)
    } else {
        seq![0xFDu8] + le_u64(v)
    }
}

pub open spec fn decode_compact_size(data: Seq<u8>, pos: int) -> Decoded<u64> {
    and_then(
        decode_u8(data, pos),
        |b: u8, q: int|
            if b <= 0xFC {
                (Ok(b as u64), q)
            } else if b == 0xFD {
                map_decoded(decode_u16_le(data, q), |x: u16| x as u64)
            } else if b == 0xFE {
                map_decoded(decode_u32_le(data, q), |x: u32| x as u64)
            } else {
                decode_u64_le(data, q)
            },
    )
}

impl SerializePayload for CompactSizeUint {
    open spec fn spec_serialize(v: u64) -> (Seq<u8>, Result<(), Error>) {
        (compact_size_bytes(v), Ok(()))
    }

    fn serialize(&self, buffer: &mut Vec<u8>) -> (r: Result<(), Error>) {
        let value = self.0;
        if value <= 0xFC {
            buffer.push(value as u8);
        } else if value <= 0xFFFF {
            buffer.push(0xFD);
            write_u16_le(buffer, value as u16);
        } else if value <= 0xFFFF_FFFF {
            buffer.push(0xFE);
            write_u32_le(buffer, value as u32);
        } else {
            buffer.push(0xFD);
            write_u64_le(buffer, value);
        }
        Ok(())
    }
}

impl DeserializePayload for CompactSizeUint {
    open spec fn spec_deserialize(data: Seq<u8>, pos: int) -> Decoded<u64> {
        decode_compact_size(data, pos)
    }

    fn deserialize(buffer: &mut ByteReader) -> (r: Result<CompactSizeUint, Error>) {
        let first_byte = buffer.read_u8()?;
        let value = if first_byte <= 0xFC {
            first_byte as u64
        } else if first_byte == 0xFD {
            buffer.read_u16_le()? as u64
        } else if first_byte == 0xFE {
            buffer.read_u32_le()? as u64
        } else {
            buffer.read_u64_le()?
        };
        Ok(CompactSizeUint(value))
    }
}

/// `String::from_utf8`: the string whose UTF-8 encoding is `bytes`, when the
/// bytes are valid UTF-8, and nothing otherwise.
#[verifier::external_body]
fn string_from_utf8(bytes: Vec<u8>) -> (r: Option<String>)
    ensures
        r is Some <==> valid_utf8(bytes@),
        r matches Some(s) ==> s@ == decode_utf8(bytes@),
{
    match String::from_utf8(bytes) {
        Ok(s) => Some(s),
        Err(_) => None,
    }
}

/// The UTF-8 bytes of a string.
pub open spec fn string_bytes(s: Seq<char>) -> Seq<u8> {
    encode_utf8(s)
}

impl SerializePayload for String {
    /// The byte length as a compact size, then the UTF-8 bytes.
    open spec fn spec_serialize(v: Seq<char>) -> (Seq<u8>, Result<(), Error>) {
        (compact_size_bytes(string_bytes(v).len() as u64) + string_bytes(v), Ok(()))
    }

    fn serialize(&self, buffer: &mut Vec<u8>) -> (r: Result<(), Error>) {
        let bytes = self.as_str().as_bytes();
        let size = CompactSizeUint(bytes.len() as u64);
        let _ = size.serialize(buffer);
        append_bytes(buffer, bytes);
        Ok(())
    }
}

impl DeserializePayload for String {
    /// A compact size, then that many bytes, which must be valid UTF-8.
    open spec fn spec_deserialize(data: Seq<u8>, pos: int) -> Decoded<Seq<char>> {
        and_then(
            decode_compact_size(data, pos),
            |n: u64, q: int|
                and_then(
                    take_bytes(data, q, n as int),
                    |b: Seq<u8>, r: int|
                        if valid_utf8(b) {
                            (Ok(decode_utf8(b)), r)
                        } else {
                            (Err(Error::InvalidUtf8), r)
                        },
                ),
        )
    }

    fn deserialize(buffer: &mut ByteReader) -> (r: Result<String, Error>) {
        let size = CompactSizeUint::deserialize(buffer)?;
        let bytes = buffer.read_bytes(size.0)?;
        match string_from_utf8(vstd::slice::slice_to_vec(bytes)) {
            Some(s) => Ok(s),
            None => Err(Error::InvalidUtf8),
        }
    }
}

/// A point in time, in whole seconds since the Unix epoch (negative before it).
#[derive(Clone, Copy, Debug, PartialEq, Eq)]
pub struct Timestamp(pub i64);

impl View for Timestamp {
    type V = i64;

    open spec fn view(&self) -> i64 {
        self.0
    }
}

impl SerializePayload for Timestamp {
    /// Seconds since the epoch as a little-endian `u64`; a time before the epoch is refused.
    open spec fn spec_serialize(v: i64) -> (Seq<u8>, Result<(), Error>) {
        if v >= 0 {
            (le_u64(v as u64), Ok(()))
        } else {
            (Seq::empty(), Err(Error::TimestampBeforeEpoch(v)))
        }
    }

    fn serialize(&self, buffer: &mut Vec<u8>) -> (r: Result<(), Error>) {
        if self.0 < 0 {
            return Err(Error::TimestampBeforeEpoch(self.0));
        }
        write_u64_le(buffer, self.0 as u64);
        Ok(())
    }
}

impl DeserializePayload for Timestamp {
    /// A little-endian `u64` of seconds; more seconds than a clock time holds are refused.
    open spec fn spec_deserialize(data: Seq<u8>, pos: int) -> Decoded<i64> {
        and_then(
            decode_u64_le(data, pos),
            |s: u64, q: int|
                if s <= i64::MAX {
                    (Ok(s as i64), q)
                } else {
                    (Err(Error::TimestampOutOfRange(s)), q)
                },
        )
    }

    fn deserialize(buffer: &mut ByteReader) -> (r: Result<Timestamp, Error>) {
        let seconds = buffer.read_u64_le()?;
        if seconds <= i64::MAX as u64 {
            Ok(Timestamp(seconds as i64))
        } else {
            Err(Error::TimestampOutOfRange(seconds))
        }
    }
}

// ---- reading back what was written ----
/// A decoder that reads back the encoding of `v` placed at `pos`, whatever follows it.
pub open spec fn reads_back<V>(decoded: Decoded<V>, v: V, pos: int, encoding: Seq<u8>) -> bool {
    decoded == (Ok::<V, Error>(v), pos + encoding.len())
}

/// Every byte reads back as itself.
pub proof fn lemma_u8_roundtrip(v: u8, data: Seq<u8>, pos: int)
    requires
        occurs_at(data, pos, seq![v]),
    ensures
        reads_back(decode_u8(data, pos), v, pos, seq![v]),
{
    assert(data.subrange(pos, pos + 1)[0] == v);
}

/// Every `u16` reads back from its little-endian bytes.
pub proof fn lemma_u16_roundtrip(v: u16, data: Seq<u8>, pos: int)
    requires
        occurs_at(data, pos, le_u16(v)),
    ensures
        reads_back(decode_u16_le(data, pos), v, pos, le_u16(v)),
{
    lemma_auto_spec_u16_to_from_le_bytes();
}

/// Every `u32` reads back from its little-endian bytes.
pub proof fn lemma_u32_roundtrip(v: u32, data: Seq<u8>, pos: int)
    requires
        occurs_at(data, pos, le_u32(v)),
    ensures
        reads_back(decode_u32_le(data, pos), v, pos, le_u32(v)),
{
    lemma_auto_spec_u32_to_from_le_bytes();
}

/// Every `u64` reads back from its little-endian bytes.
pub proof fn lemma_u64_roundtrip(v: u64, data: Seq<u8>, pos: int)
    requires
        occurs_at(data, pos, le_u64(v)),
    ensures
        reads_back(decode_u64_le(data, pos), v, pos, le_u64(v)),
{
    lemma_auto_spec_u64_to_from_le_bytes();
}

/// Every `i32` reads back from its little-endian bytes.
pub proof fn lemma_i32_roundtrip(v: i32, data: Seq<u8>, pos: int)
    requires
        occurs_at(data, pos, le_i32(v)),
    ensures
        reads_back(decode_i32_le(data, pos), v, pos, le_i32(v)),
{
    lemma_auto_spec_u32_to_from_le_bytes();
    assert(((v as u32) as i32) == v) by (bit_vector);
}

/// Every `u16` reads back from its big-endian bytes.
pub proof fn lemma_u16_be_roundtrip(v: u16, data: Seq<u8>, pos: int)
    requires
        occurs_at(data, pos, be_u16(v)),
    ensures
        reads_back(decode_u16_be(data, pos), v, pos, be_u16(v)),
{
    lemma_auto_spec_u16_to_from_le_bytes();
    let l = spec_u16_to_le_bytes(v);
    let s = data.subrange(pos, pos + 2);
    assert(seq![s[1], s[0]] =~= l);
}

/// Every `u32` reads back from its big-endian bytes.
pub proof fn lemma_u32_be_roundtrip(v: u32, data: Seq<u8>, pos: int)
    requires
        occurs_at(data, pos, be_u32(v)),
    ensures
        reads_back(decode_u32_be(data, pos), v, pos, be_u32(v)),
{
    lemma_auto_spec_u32_to_from_le_bytes();
    let l = spec_u32_to_le_bytes(v);
    let s = data.subrange(pos, pos + 4);
    assert(seq![s[3], s[2], s[1], s[0]] =~= l);
}

/// Both booleans read back from their byte.
pub proof fn lemma_bool_roundtrip(v: bool, data: Seq<u8>, pos: int)
    requires
        occurs_at(data, pos, seq![bool_byte(v)]),
    ensures
        reads_back(
            <bool as DeserializePayload>::spec_deserialize(data, pos),
            v,
            pos,
            seq![bool_byte(v)],
        ),
{
    lemma_u8_roundtrip(bool_byte(v), data, pos);
}

/// A compact size up to `u32::MAX` reads back as itself. Above that the 0xFD
/// marker makes the reader take only the next two bytes.
pub proof fn lemma_compact_size_roundtrip(v: u64, data: Seq<u8>, pos: int)
    requires
        v <= 0xFFFF_FFFF,
        occurs_at(data, pos, compact_size_bytes(v)),
    ensures
        reads_back(decode_compact_size(data, pos), v, pos, compact_size_bytes(v)),
{
    lemma_auto_spec_u16_to_from_le_bytes();
    lemma_auto_spec_u32_to_from_le_bytes();
    if v <= 0xFC {
        lemma_u8_roundtrip(v as u8, data, pos);
    } else if v <= 0xFFFF {
        lemma_occurs_at_concat(data, pos, seq![0xFDu8], le_u16(v as u16));
        lemma_u8_roundtrip(0xFDu8, data, pos);
        lemma_u16_roundtrip(v as u16, data, pos + 1);
    } else {
        lemma_occurs_at_concat(data, pos, seq![0xFEu8], le_u32(v as u32));
        lemma_u8_roundtrip(0xFEu8, data, pos);
        lemma_u32_roundtrip(v as u32, data, pos + 1);
    }
}

/// A string whose byte length fits a `u32` reads back as itself.
pub proof fn lemma_string_roundtrip(v: Seq<char>, data: Seq<u8>, pos: int)
    requires
        string_bytes(v).len() <= 0xFFFF_FFFF,
        occurs_at(data, pos, <String as SerializePayload>::spec_serialize(v).0),
    ensures
        reads_back(
            <String as DeserializePayload>::spec_deserialize(data, pos),
            v,
            pos,
            <String as SerializePayload>::spec_serialize(v).0,
        ),
{
    let b = string_bytes(v);
    let n = b.len() as u64;
    lemma_occurs_at_concat(data, pos, compact_size_bytes(n), b);
    lemma_compact_size_roundtrip(n, data, pos);
    encode_utf8_valid_utf8(v);
    encode_utf8_decode_utf8(v);
}

/// A time at or after the epoch reads back as itself.
pub proof fn lemma_timestamp_roundtrip(v: i64, data: Seq<u8>, pos: int)
    requires
        v >= 0,
        occurs_at(data, pos, le_u64(v as u64)),
    ensures
        reads_back(
            <Timestamp as DeserializePayload>::spec_deserialize(data, pos),
            v,
            pos,
            le_u64(v as u64),
        ),
{
    lemma_u64_roundtrip(v as u64, data, pos);
}

} // verus!
