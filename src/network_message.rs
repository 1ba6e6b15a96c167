use vstd::prelude::*;
use vstd::string::StringSliceAdditionalSpecFns;
use vstd::utf8::{decode_utf8, encode_utf8, valid_utf8};
use crate::codec::{
    from_le16, from_le32, from_le64, le16, le32, le64, lemma_i16_bits, lemma_i32_bits,
    lemma_i64_bits, lemma_i8_bits, lemma_le16_round_trip, lemma_le32_round_trip,
    lemma_le64_round_trip,
};
use crate::error::ErrorKind;
use crate::protocol::{ProtocolCode, protocol_code_value};
use crate::text::{
    encode_utf16, lemma_utf16_round_trip, string_from_utf16, string_from_utf8,
    utf16_decoded, utf16_of,
};

verus! {

/// Capacity reserved for a new message.
pub const DEFAULT_BUFFER_SIZE: usize = 0x200;

/// Size of the protocol code at the head of every message.
pub const HEADER_SIZE: usize = 4;

/// A protocol message: a growable byte sequence with a read cursor.
///
/// The first four bytes of a complete message hold its little-endian signed
/// 32-bit protocol code; it is prepended, so a payload may be written first.
#[derive(Debug)]
pub struct NetworkMessage {
    index: usize,
    buffer: Vec<u8>,
}

/// The code units `units` as little-endian pairs of bytes.
pub open spec fn units_le(units: Seq<u16>) -> Seq<u8>
    decreases units.len(),
{
    if units.len() == 0 {
        Seq::empty()
    } else {
        units_le(units.drop_last()) + le16(units.last())
    }
}

/// The `u32` at `pos` of a message holding `data`, and the position after it.
pub open spec fn u32_at(data: Seq<u8>, pos: nat) -> Result<(u32, nat), ErrorKind> {
    if data.len() == 0 {
        Err(ErrorKind::NETWORKMESSAGE_EMPTY)
    } else if pos + 4 > data.len() {
        Err(ErrorKind::NETWORKMESSAGE_OVERFLOW)
    } else {
        Ok((from_le32(data.subrange(pos as int, pos + 4int)), pos + 4))
    }
}

/// The `i32` at `pos` of a message holding `data`, and the position after it.
pub open spec fn i32_at(data: Seq<u8>, pos: nat) -> Result<(i32, nat), ErrorKind> {
    match u32_at(data, pos) {
        Ok((v, next)) => Ok((v as i32, next)),
        Err(e) => Err(e),
    }
}

/// The UTF-8 string at `pos` of a message holding `data` (a u32 byte count,
/// then the bytes), and the position after it.
pub open spec fn utf8_at(data: Seq<u8>, pos: nat) -> Result<(Seq<char>, nat), ErrorKind> {
    if data.len() == 0 {
        Err(ErrorKind::NETWORKMESSAGE_EMPTY)
    } else if pos + 4 > data.len() {
        Err(ErrorKind::NETWORKMESSAGE_OVERFLOW)
    } else {
        let n = from_le32(data.subrange(pos as int, pos + 4int)) as nat;
        if pos + 4 + n > data.len() {
            Err(ErrorKind::NETWORKMESSAGE_OVERFLOW)
        } else {
            let bytes = data.subrange(pos + 4int, pos + 4int + n);
            if !valid_utf8(bytes) {
                Err(ErrorKind::NETWORKMESSAGE_FAILED)
            } else {
                Ok((decode_utf8(bytes), pos + 4 + n))
            }
        }
    }
}

/// The UTF-16 string at `pos` of a message holding `data` (a u32 count of
/// code units, then the units), and the position after it.
pub open spec fn utf16_at(data: Seq<u8>, pos: nat) -> Result<(Seq<char>, nat), ErrorKind> {
    if data.len() == 0 {
        Err(ErrorKind::NETWORKMESSAGE_EMPTY)
    } else if pos + 4 > data.len() {
        Err(ErrorKind::NETWORKMESSAGE_OVERFLOW)
    } else {
        let n = from_le32(data.subrange(pos as int, pos + 4int)) as nat;
        if pos + 4 + 2 * n > data.len() {
            Err(ErrorKind::NETWORKMESSAGE_OVERFLOW)
        } else {
            let bytes = data.subrange(pos + 4int, pos + 4int + 2 * n);
            let units = Seq::new(n, |k: int| from_le16(bytes.subrange(2 * k, 2 * k + 2)));
            match utf16_decoded(units) {
                None => Err(ErrorKind::NETWORKMESSAGE_FAILED),
                Some(text) => Ok((text, pos + 4 + 2 * n)),
            }
        }
    }
}

/// The bytes of `words`, each little-endian.
pub open spec fn words_le(words: Seq<u32>) -> Seq<u8>
    decreases words.len(),
{
    if words.len() == 0 {
        Seq::empty()
    } else {
        words_le(words.drop_last()) + le32(words.last())
    }
}

/// A UTF-16 string field: its count of code units and the units.
pub open spec fn utf16_field(units: Seq<u16>) -> Seq<u8> {
    le32(units.len() as u32) + units_le(units)
}

/// A UTF-8 string field: its byte count and its bytes.
pub open spec fn utf8_field(bytes: Seq<u8>) -> Seq<u8> {
    le32(bytes.len() as u32) + bytes
}

impl NetworkMessage {
    /// The bytes of the message.
    pub closed spec fn data(&self) -> Seq<u8> {
        self.buffer@
    }

    /// The read cursor: the offset of the next byte to read.
    pub closed spec fn cursor(&self) -> nat {
        self.index as nat
    }

    /// Whether `n` more bytes can be read.
    pub open spec fn can_read(&self, n: nat) -> bool {
        self.data().len() > 0 && self.cursor() + n <= self.data().len()
    }

    /// The error of a read that cannot be done.
    pub open spec fn read_error(&self) -> ErrorKind {
        if self.data().len() == 0 {
            ErrorKind::NETWORKMESSAGE_EMPTY
        } else {
            ErrorKind::NETWORKMESSAGE_OVERFLOW
        }
    }

    /// The `n` bytes at the cursor.
    pub open spec fn peek(&self, n: nat) -> Seq<u8> {
        self.data().subrange(self.cursor() as int, (self.cursor() + n) as int)
    }

    /// `after` is this message with the cursor moved on by `n`.
    pub open spec fn advanced(&self, n: nat, after: &Self) -> bool {
        after.data() == self.data() && after.cursor() == self.cursor() + n
    }

    /// What a read of `n` bytes does: on success the cursor moves on by `n`;
    /// a read that cannot be done fails with `read_error` and changes nothing.
    pub open spec fn read_effect<T>(&self, n: nat, after: &Self, r: Result<T, ErrorKind>) -> bool {
        match r {
            Ok(_) => self.can_read(n) && self.advanced(n, after),
            Err(e) => !self.can_read(n) && e == self.read_error() && *after == *self,
        }
    }

    /// The length prefix of a string at the cursor.
    pub open spec fn prefix_len(&self) -> nat {
        from_le32(self.peek(4)) as nat
    }

    /// The `n` bytes that follow the length prefix at the cursor.
    pub open spec fn prefixed_bytes(&self, n: nat) -> Seq<u8> {
        self.data().subrange(self.cursor() + 4int, self.cursor() + 4int + n)
    }

    /// The `n` little-endian code units that follow the length prefix.
    pub open spec fn prefixed_units(&self, n: nat) -> Seq<u16> {
        Seq::new(n, |k: int| from_le16(self.prefixed_bytes(2 * n).subrange(2 * k, 2 * k + 2)))
    }

    /// A message holding `bytes` as received, its cursor past the protocol code.
    pub fn from_bytes(bytes: Vec<u8>) -> (r: Self)
        ensures
            r.data() == bytes@,
            r.cursor() == HEADER_SIZE,
    {
        NetworkMessage { index: HEADER_SIZE, buffer: bytes }
    }

    /// An empty message that starts with the code of `protocol`.
    pub fn new(protocol: ProtocolCode) -> (r: Self)
        ensures
            r.data() == le32(protocol_code_value(protocol) as u32),
            r.cursor() == 0,
    {
        let mut msg = Self::default();
        msg.write_protocol(protocol.value());
        proof {
            assert(msg.data() =~= le32(protocol_code_value(protocol) as u32));
        }
        msg
    }

    #[inline]
    pub fn get_index(&self) -> (r: usize)
        ensures
            r == self.cursor(),
    {
        self.index
    }

    /// The bytes of the message, for filling or sending.
    #[inline]
    pub fn get_buffer(&mut self) -> (r: &mut Vec<u8>)
        ensures
            r@ == old(self).data(),
            final(self).data() == final(r)@,
            final(self).cursor() == old(self).cursor(),
    {
        &mut self.buffer
    }

    /// The bytes of the message.
    pub fn bytes(&self) -> (r: &Vec<u8>)
        ensures
            r@ == self.data(),
    {
        &self.buffer
    }

    /// Prepends the protocol code, so that it stands at offset 0 whatever was
    /// written before.
    pub fn write_protocol(&mut self, protocol: i32)
        ensures
            final(self).data() == le32(protocol as u32) + old(self).data(),
            final(self).cursor() == old(self).cursor(),
    {
        let v = protocol as u32;
        self.buffer.insert(0, (v & 0xff) as u8);
        self.buffer.insert(1, ((v >> 8u32) & 0xff) as u8);
        self.buffer.insert(2, ((v >> 16u32) & 0xff) as u8);
        self.buffer.insert(3, ((v >> 24u32) & 0xff) as u8);
        proof {
            assert(self.buffer@ =~= le32(protocol as u32) + old(self).data());
        }
    }

    /// The signed protocol code at offset 0.
    pub fn code(&self) -> (r: Result<i32, ErrorKind>)
        ensures
            self.data().len() >= 4 ==> r == Ok::<i32, ErrorKind>(
                from_le32(self.data().subrange(0, 4)) as i32,
            ),
            self.data().len() < 4 ==> r == Err::<i32, ErrorKind>(ErrorKind::NETWORKMESSAGE_FAILED),
    {
        if self.buffer.len() >= 4 {
            let v = (self.buffer[0] as u32) | ((self.buffer[1] as u32) << 8u32) | ((
            self.buffer[2] as u32) << 16u32) | ((self.buffer[3] as u32) << 24u32);
            return Ok(v as i32);
        }
        Err(ErrorKind::NETWORKMESSAGE_FAILED)
    }

    /// The protocol code at offset 0, as its unsigned bits.
    pub fn get_protocol(&self) -> (r: Result<u32, ErrorKind>)
        ensures
            self.data().len() >= 4 ==> r == Ok::<u32, ErrorKind>(
                from_le32(self.data().subrange(0, 4)),
            ),
            self.data().len() < 4 ==> r == Err::<u32, ErrorKind>(
                ErrorKind::NETWORKMESSAGE_OVERFLOW,
            ),
    {
        if self.buffer.len() >= 4 {
            let v = (self.buffer[0] as u32) | ((self.buffer[1] as u32) << 8u32) | ((
            self.buffer[2] as u32) << 16u32) | ((self.buffer[3] as u32) << 24u32);
            return Ok(v);
        }
        Err(ErrorKind::NETWORKMESSAGE_OVERFLOW)
    }

    /// Whether `n` bytes can be read, and if not, why.
    fn check(&self, n: usize) -> (r: Result<(), ErrorKind>)
        ensures
            r is Ok <==> self.can_read(n as nat),
            r matches Err(e) ==> e == self.read_error(),
            self.data().len() <= usize::MAX,
    {
        if self.buffer.len() == 0 {
            Err(ErrorKind::NETWORKMESSAGE_EMPTY)
        } else if self.index <= self.buffer.len() && n <= self.buffer.len() - self.index {
            Ok(())
        } else {
            Err(ErrorKind::NETWORKMESSAGE_OVERFLOW)
        }
    }

    /// The two bytes at `i`, little-endian.
    fn get_u16(&self, i: usize) -> (r: u16)
        requires
            i + 2 <= self.data().len() <= usize::MAX,
        ensures
            r == from_le16(self.data().subrange(i as int, i + 2)),
    {
        (self.buffer[i] as u16) | ((self.buffer[i + 1] as u16) << 8u16)
    }

    /// The four bytes at `i`, little-endian.
    fn get_u32(&self, i: usize) -> (r: u32)
        requires
            i + 4 <= self.data().len() <= usize::MAX,
        ensures
            r == from_le32(self.data().subrange(i as int, i + 4)),
    {
        (self.buffer[i] as u32) | ((self.buffer[i + 1] as u32) << 8u32) | ((self.buffer[i
            + 2] as u32) << 16u32) | ((self.buffer[i + 3] as u32) << 24u32)
    }

    /// The eight bytes at `i`, little-endian.
    fn get_u64(&self, i: usize) -> (r: u64)
        requires
            i + 8 <= self.data().len() <= usize::MAX,
        ensures
            r == from_le64(self.data().subrange(i as int, i + 8)),
    {
        (self.buffer[i] as u64) | ((self.buffer[i + 1] as u64) << 8u64) | ((self.buffer[i
            + 2] as u64) << 16u64) | ((self.buffer[i + 3] as u64) << 24u64) | ((self.buffer[i
            + 4] as u64) << 32u64) | ((self.buffer[i + 5] as u64) << 40u64) | ((self.buffer[i
            + 6] as u64) << 48u64) | ((self.buffer[i + 7] as u64) << 56u64)
    }

    pub fn read_u8(&mut self) -> (r: Result<u8, ErrorKind>)
        ensures
            old(self).read_effect(1, final(self), r),
            r matches Ok(v) ==> v == old(self).peek(1)[0],
    {
        match self.check(1) {
            Err(e) => Err(e),
            Ok(()) => {
                let v = self.buffer[self.index];
                self.index = self.index + 1;
                Ok(v)
            },
        }
    }

    pub fn read_u16(&mut self) -> (r: Result<u16, ErrorKind>)
        ensures
            old(self).read_effect(2, final(self), r),
            r matches Ok(v) ==> v == from_le16(old(self).peek(2)),
    {
        match self.check(2) {
            Err(e) => Err(e),
            Ok(()) => {
                let v = self.get_u16(self.index);
                self.index = self.index + 2;
                Ok(v)
            },
        }
    }

    pub fn read_u32(&mut self) -> (r: Result<u32, ErrorKind>)
        ensures
            old(self).read_effect(4, final(self), r),
            r matches Ok(v) ==> v == from_le32(old(self).peek(4)),
            match u32_at(old(self).data(), old(self).cursor()) {
                Ok((v, next)) => r == Ok::<u32, ErrorKind>(v) && final(self).cursor() == next,
                Err(e) => r == Err::<u32, ErrorKind>(e),
            },
    {
        match self.check(4) {
            Err(e) => Err(e),
            Ok(()) => {
                let v = self.get_u32(self.index);
                self.index = self.index + 4;
                Ok(v)
            },
        }
    }

    pub fn read_u64(&mut self) -> (r: Result<u64, ErrorKind>)
        ensures
            old(self).read_effect(8, final(self), r),
            r matches Ok(v) ==> v == from_le64(old(self).peek(8)),
    {
        match self.check(8) {
            Err(e) => Err(e),
            Ok(()) => {
                let v = self.get_u64(self.index);
                self.index = self.index + 8;
                Ok(v)
            },
        }
    }

    pub fn read_i8(&mut self) -> (r: Result<i8, ErrorKind>)
        ensures
            old(self).read_effect(1, final(self), r),
            r matches Ok(v) ==> v == old(self).peek(1)[0] as i8,
    {
        match self.check(1) {
            Err(e) => Err(e),
            Ok(()) => {
                let v = self.buffer[self.index] as i8;
                self.index = self.index + 1;
                Ok(v)
            },
        }
    }

    pub fn read_i16(&mut self) -> (r: Result<i16, ErrorKind>)
        ensures
            old(self).read_effect(2, final(self), r),
            r matches Ok(v) ==> v == from_le16(old(self).peek(2)) as i16,
    {
        match self.check(2) {
            Err(e) => Err(e),
            Ok(()) => {
                let v = self.get_u16(self.index) as i16;
                self.index = self.index + 2;
                Ok(v)
            },
        }
    }

    pub fn read_i32(&mut self) -> (r: Result<i32, ErrorKind>)
        ensures
            old(self).read_effect(4, final(self), r),
            r matches Ok(v) ==> v == from_le32(old(self).peek(4)) as i32,
            match i32_at(old(self).data(), old(self).cursor()) {
                Ok((v, next)) => r == Ok::<i32, ErrorKind>(v) && final(self).cursor() == next,
                Err(e) => r == Err::<i32, ErrorKind>(e),
            },
    {
        match self.check(4) {
            Err(e) => Err(e),
            Ok(()) => {
                let v = self.get_u32(self.index) as i32;
                self.index = self.index + 4;
                Ok(v)
            },
        }
    }

    pub fn read_i64(&mut self) -> (r: Result<i64, ErrorKind>)
        ensures
            old(self).read_effect(8, final(self), r),
            r matches Ok(v) ==> v == from_le64(old(self).peek(8)) as i64,
    {
        match self.check(8) {
            Err(e) => Err(e),
            Ok(()) => {
                let v = self.get_u64(self.index) as i64;
                self.index = self.index + 8;
                Ok(v)
            },
        }
    }

    /// Reads `length` raw bytes.
    pub fn read_bytes(&mut self, length: usize) -> (r: Result<Vec<u8>, ErrorKind>)
        ensures
            old(self).read_effect(length as nat, final(self), r),
            r matches Ok(v) ==> v@ == old(self).peek(length as nat),
    {
        match self.check(length) {
            Err(e) => Err(e),
            Ok(()) => {
                let start = self.index;
                let mut out: Vec<u8> = Vec::with_capacity(length);
                let mut k: usize = 0;
                while k < length
                    invariant
                        self.can_read(length as nat),
                        self.data().len() <= usize::MAX,
                        start == self.cursor(),
                        k <= length,
                        out@ == self.data().subrange(start as int, start + k),
                    decreases length - k,
                {
                    out.push(self.buffer[start + k]);
                    k = k + 1;
                    proof {
                        assert(out@ =~= self.data().subrange(start as int, start + k));
                    }
                }
                self.index = start + length;
                Ok(out)
            },
        }
    }

    /// Reads `len` bytes as a UTF-8 string. Bytes that are not UTF-8 fail
    /// with `NETWORKMESSAGE_FAILED` and leave the cursor where it was.
    pub fn read_string(&mut self, len: usize) -> (r: Result<String, ErrorKind>)
        ensures
            match r {
                Ok(s) => old(self).can_read(len as nat) && valid_utf8(old(self).peek(len as nat))
                    && s@ == decode_utf8(old(self).peek(len as nat)) && old(self).advanced(
                    len as nat,
                    final(self),
                ),
                Err(e) => *final(self) == *old(self) && if !old(self).can_read(len as nat) {
                    e == old(self).read_error()
                } else {
                    !valid_utf8(old(self).peek(len as nat)) && e
                        == ErrorKind::NETWORKMESSAGE_FAILED
                },
            },
    {
        if let Err(e) = self.check(len) {
            return Err(e);
        }
        let start = self.index;
        let mut bytes: Vec<u8> = Vec::with_capacity(len);
        let mut k: usize = 0;
        while k < len
            invariant
                self.can_read(len as nat),
                self.data().len() <= usize::MAX,
                start == self.cursor(),
                k <= len,
                bytes@ == self.data().subrange(start as int, start + k),
            decreases len - k,
        {
            bytes.push(self.buffer[start + k]);
            k = k + 1;
            proof {
                assert(bytes@ =~= self.data().subrange(start as int, start + k));
            }
        }
        match string_from_utf8(bytes) {
            None => Err(ErrorKind::NETWORKMESSAGE_FAILED),
            Some(text) => {
                self.index = start + len;
                Ok(text)
            },
        }
    }

    /// Reads a UTF-8 string: a u32 byte count, then the bytes.
    pub fn read_string_utf8(&mut self) -> (r: Result<String, ErrorKind>)
        ensures
            ({
                let n = old(self).prefix_len();
                let p = old(self).prefixed_bytes(n);
                match r {
                    Ok(s) => old(self).can_read(4 + n) && valid_utf8(p) && s@ == decode_utf8(p)
                        && old(self).advanced(4 + n, final(self)),
                    Err(e) => *final(self) == *old(self) && if !old(self).can_read(4 + n) {
                        e == old(self).read_error()
                    } else {
                        !valid_utf8(p) && e == ErrorKind::NETWORKMESSAGE_FAILED
                    },
                }
            }),
            match utf8_at(old(self).data(), old(self).cursor()) {
                Ok((text, next)) => (r matches Ok(s) && s@ == text) && final(self).data()
                    == old(self).data() && final(self).cursor() == next,
                Err(e) => r == Err::<String, ErrorKind>(e),
            },
    {
        if let Err(e) = self.check(4) {
            return Err(e);
        }
        let start = self.index;
        let n = self.get_u32(start) as usize;
        if n > self.buffer.len() - start - 4 {
            return Err(ErrorKind::NETWORKMESSAGE_OVERFLOW);
        }
        let mut bytes: Vec<u8> = Vec::with_capacity(n);
        let mut k: usize = 0;
        while k < n
            invariant
                self.can_read(4 + n as nat),
                self.data().len() <= usize::MAX,
                start == self.cursor(),
                n == self.prefix_len(),
                k <= n,
                bytes@ == self.data().subrange(start + 4, start + 4 + k),
            decreases n - k,
        {
            bytes.push(self.buffer[start + 4 + k]);
            k = k + 1;
            proof {
                assert(bytes@ =~= self.data().subrange(start + 4, start + 4 + k));
            }
        }
        match string_from_utf8(bytes) {
            None => Err(ErrorKind::NETWORKMESSAGE_FAILED),
            Some(s) => {
                self.index = start + 4 + n;
                Ok(s)
            },
        }
    }

    /// Reads a UTF-16 string: a u32 count of code units, then the units.
    pub fn read_string_utf16(&mut self) -> (r: Result<String, ErrorKind>)
        ensures
            ({
                let n = old(self).prefix_len();
                let u = old(self).prefixed_units(n);
                match r {
                    Ok(s) => old(self).can_read(4 + 2 * n) && utf16_decoded(u) == Some(s@)
                        && old(self).advanced(4 + 2 * n, final(self)),
                    Err(e) => *final(self) == *old(self) && if !old(self).can_read(4 + 2 * n) {
                        e == old(self).read_error()
                    } else {
                        utf16_decoded(u) is None && e == ErrorKind::NETWORKMESSAGE_FAILED
                    },
                }
            }),
            match utf16_at(old(self).data(), old(self).cursor()) {
                Ok((text, next)) => (r matches Ok(s) && s@ == text) && final(self).data()
                    == old(self).data() && final(self).cursor() == next,
                Err(e) => r == Err::<String, ErrorKind>(e),
            },
    {
        if let Err(e) = self.check(4) {
            return Err(e);
        }
        let start = self.index;
        let n = self.get_u32(start) as usize;
        if n > (self.buffer.len() - start - 4) / 2 {
            return Err(ErrorKind::NETWORKMESSAGE_OVERFLOW);
        }
        let mut units: Vec<u16> = Vec::with_capacity(n);
        let mut k: usize = 0;
        while k < n
            invariant
                self.can_read(4 + 2 * n as nat),
                self.data().len() <= usize::MAX,
                start == self.cursor(),
                n == self.prefix_len(),
                k <= n,
                units@ == self.prefixed_units(n as nat).subrange(0, k as int),
            decreases n - k,
        {
            let u = self.get_u16(start + 4 + 2 * k);
            proof {
                assert(self.data().subrange(start + 4 + 2 * k, start + 4 + 2 * k + 2)
                    =~= self.prefixed_bytes(2 * n as nat).subrange(2 * k, 2 * k + 2));
            }
            units.push(u);
            k = k + 1;
            proof {
                assert(units@ =~= self.prefixed_units(n as nat).subrange(0, k as int));
            }
        }
        proof {
            assert(units@ =~= self.prefixed_units(n as nat));
        }
        match string_from_utf16(units.as_slice()) {
            None => Err(ErrorKind::NETWORKMESSAGE_FAILED),
            Some(s) => {
                self.index = start + 4 + 2 * n;
                Ok(s)
            },
        }
    }

    pub fn write_u8(&mut self, value: u8)
        ensures
            final(self).data() == old(self).data().push(value),
            final(self).cursor() == old(self).cursor(),
    {
        self.buffer.push(value);
    }

    pub fn write_u16(&mut self, value: u16)
        ensures
            final(self).data() == old(self).data() + le16(value),
            final(self).cursor() == old(self).cursor(),
    {
        self.buffer.push((value & 0xff) as u8);
        self.buffer.push(((value >> 8u16) & 0xff) as u8);
        proof {
            assert(self.buffer@ =~= old(self).data() + le16(value));
        }
    }

    pub fn write_u32(&mut self, value: u32)
        ensures
            final(self).data() == old(self).data() + le32(value),
            final(self).cursor() == old(self).cursor(),
    {
        self.buffer.push((value & 0xff) as u8);
        self.buffer.push(((value >> 8u32) & 0xff) as u8);
        self.buffer.push(((value >> 16u32) & 0xff) as u8);
        self.buffer.push(((value >> 24u32) & 0xff) as u8);
        proof {
            assert(self.buffer@ =~= old(self).data() + le32(value));
        }
    }

    pub fn write_u64(&mut self, value: u64)
        ensures
            final(self).data() == old(self).data() + le64(value),
            final(self).cursor() == old(self).cursor(),
    {
        self.buffer.push((value & 0xff) as u8);
        self.buffer.push(((value >> 8u64) & 0xff) as u8);
        self.buffer.push(((value >> 16u64) & 0xff) as u8);
        self.buffer.push(((value >> 24u64) & 0xff) as u8);
        self.buffer.push(((value >> 32u64) & 0xff) as u8);
        self.buffer.push(((value >> 40u64) & 0xff) as u8);
        self.buffer.push(((value >> 48u64) & 0xff) as u8);
        self.buffer.push(((value >> 56u64) & 0xff) as u8);
        proof {
            assert(self.buffer@ =~= old(self).data() + le64(value));
        }
    }

    pub fn write_i8(&mut self, value: i8)
        ensures
            final(self).data() == old(self).data().push(value as u8),
            final(self).cursor() == old(self).cursor(),
    {
        self.write_u8(value as u8);
    }

    pub fn write_i16(&mut self, value: i16)
        ensures
            final(self).data() == old(self).data() + le16(value as u16),
            final(self).cursor() == old(self).cursor(),
    {
        self.write_u16(value as u16);
    }

    pub fn write_i32(&mut self, value: i32)
        ensures
            final(self).data() == old(self).data() + le32(value as u32),
            final(self).cursor() == old(self).cursor(),
    {
        self.write_u32(value as u32);
    }

    pub fn write_i64(&mut self, value: i64)
        ensures
            final(self).data() == old(self).data() + le64(value as u64),
            final(self).cursor() == old(self).cursor(),
    {
        self.write_u64(value as u64);
    }

    /// Writes a UTF-8 string: a u32 byte count, then the bytes.
    pub fn write_string_utf8(&mut self, string: &str)
        requires
            string.spec_bytes().len() <= u32::MAX,
        ensures
            final(self).data() == old(self).data() + utf8_field(string.spec_bytes()),
            final(self).cursor() == old(self).cursor(),
    {
        let bytes = string.as_bytes();
        self.write_u32(bytes.len() as u32);
        self.write_bytes(bytes);
        proof {
            assert(self.data() =~= old(self).data() + utf8_field(string.spec_bytes()));
        }
    }

    /// Writes a UTF-16 string: a u32 count of code units, then the units.
    pub fn write_string_utf16(&mut self, string: &str)
        requires
            utf16_of(string@).len() <= u32::MAX,
        ensures
            final(self).data() == old(self).data() + utf16_field(utf16_of(string@)),
            final(self).cursor() == old(self).cursor(),
    {
        let units = encode_utf16(string);
        self.write_u32(units.len() as u32);
        let ghost base = self.data();
        let mut k: usize = 0;
        while k < units.len()
            invariant
                units@ == utf16_of(string@),
                k <= units@.len(),
                self.data() == base + units_le(units@.subrange(0, k as int)),
                self.cursor() == old(self).cursor(),
            decreases units@.len() - k,
        {
            self.write_u16(units[k]);
            proof {
                assert(units@.subrange(0, k + 1).drop_last() =~= units@.subrange(0, k as int));
                assert(self.data() =~= base + units_le(units@.subrange(0, k + 1)));
            }
            k = k + 1;
        }
        proof {
            assert(units@.subrange(0, k as int) =~= units@);
            assert(self.data() =~= old(self).data() + utf16_field(utf16_of(string@)));
        }
    }

    /// Writes each word as a little-endian `u32`.
    pub fn write_words(&mut self, words: &[u32])
        ensures
            final(self).data() == old(self).data() + words_le(words@),
            final(self).cursor() == old(self).cursor(),
    {
        let mut k: usize = 0;
        while k < words.len()
            invariant
                k <= words@.len(),
                self.data() == old(self).data() + words_le(words@.subrange(0, k as int)),
                self.cursor() == old(self).cursor(),
            decreases words@.len() - k,
        {
            self.write_u32(words[k]);
            proof {
                assert(words@.subrange(0, k + 1).drop_last() =~= words@.subrange(0, k as int));
                assert(self.data() =~= old(self).data() + words_le(words@.subrange(0, k + 1)));
            }
            k = k + 1;
        }
        proof {
            assert(words@.subrange(0, k as int) =~= words@);
        }
    }

    pub fn write_bytes(&mut self, bytes: &[u8])
        ensures
            final(self).data() == old(self).data() + bytes@,
            final(self).cursor() == old(self).cursor(),
    {
        let mut k: usize = 0;
        while k < bytes.len()
            invariant
                k <= bytes@.len(),
                self.data() == old(self).data() + bytes@.subrange(0, k as int),
                self.cursor() == old(self).cursor(),
            decreases bytes@.len() - k,
        {
            self.buffer.push(bytes[k]);
            k = k + 1;
            proof {
                assert(self.data() =~= old(self).data() + bytes@.subrange(0, k as int));
            }
        }
        proof {
            assert(bytes@.subrange(0, k as int) =~= bytes@);
        }
    }

    /// Empties the message and rewinds the cursor.
    pub fn clear(&mut self)
        ensures
            final(self).data() == Seq::<u8>::empty(),
            final(self).cursor() == 0,
    {
        self.index = 0;
        self.buffer.clear();
    }

    /// Rewinds the cursor to the first byte.
    pub fn reset(&mut self)
        ensures
            final(self).data() == old(self).data(),
            final(self).cursor() == 0,
    {
        self.index = 0;
    }
}

impl Default for NetworkMessage {
    fn default() -> (r: Self)
        ensures
            r.data() == Seq::<u8>::empty(),
            r.cursor() == 0,
    {
        NetworkMessage { index: 0, buffer: Vec::with_capacity(DEFAULT_BUFFER_SIZE) }
    }
}

/// Bytes written at the cursor's position are what the next read sees.
pub proof fn lemma_peek_written(m: NetworkMessage, p: Seq<u8>, e: Seq<u8>, s: Seq<u8>)
    requires
        m.data() == p + e + s,
        m.cursor() == p.len(),
        e.len() > 0,
    ensures
        m.can_read(e.len()),
        m.peek(e.len()) == e,
{
    assert(m.peek(e.len()) =~= e);
}

/// A `u8` written where the cursor stands reads back unchanged.
pub proof fn lemma_read_back_u8(m: NetworkMessage, p: Seq<u8>, v: u8, s: Seq<u8>)
    requires
        m.data() == p + seq![v] + s,
        m.cursor() == p.len(),
    ensures
        m.can_read(1),
        m.peek(1)[0] == v,
{
    lemma_peek_written(m, p, seq![v], s);
}

/// An `i8` written where the cursor stands reads back unchanged.
pub proof fn lemma_read_back_i8(m: NetworkMessage, p: Seq<u8>, v: i8, s: Seq<u8>)
    requires
        m.data() == p + seq![v as u8] + s,
        m.cursor() == p.len(),
    ensures
        m.can_read(1),
        m.peek(1)[0] as i8 == v,
{
    lemma_peek_written(m, p, seq![v as u8], s);
    lemma_i8_bits(v);
}

/// A `u16` written where the cursor stands reads back unchanged.
pub proof fn lemma_read_back_u16(m: NetworkMessage, p: Seq<u8>, v: u16, s: Seq<u8>)
    requires
        m.data() == p + le16(v) + s,
        m.cursor() == p.len(),
    ensures
        m.can_read(2),
        from_le16(m.peek(2)) == v,
{
    lemma_le16_round_trip(v);
    lemma_peek_written(m, p, le16(v), s);
}

/// An `i16` written where the cursor stands reads back unchanged.
pub proof fn lemma_read_back_i16(m: NetworkMessage, p: Seq<u8>, v: i16, s: Seq<u8>)
    requires
        m.data() == p + le16(v as u16) + s,
        m.cursor() == p.len(),
    ensures
        m.can_read(2),
        from_le16(m.peek(2)) as i16 == v,
{
    lemma_read_back_u16(m, p, v as u16, s);
    lemma_i16_bits(v);
}

/// A `u32` written where the cursor stands reads back unchanged.
pub proof fn lemma_read_back_u32(m: NetworkMessage, p: Seq<u8>, v: u32, s: Seq<u8>)
    requires
        m.data() == p + le32(v) + s,
        m.cursor() == p.len(),
    ensures
        m.can_read(4),
        from_le32(m.peek(4)) == v,
{
    lemma_le32_round_trip(v);
    lemma_peek_written(m, p, le32(v), s);
}

/// An `i32` written where the cursor stands reads back unchanged.
pub proof fn lemma_read_back_i32(m: NetworkMessage, p: Seq<u8>, v: i32, s: Seq<u8>)
    requires
        m.data() == p + le32(v as u32) + s,
        m.cursor() == p.len(),
    ensures
        m.can_read(4),
        from_le32(m.peek(4)) as i32 == v,
{
    lemma_read_back_u32(m, p, v as u32, s);
    lemma_i32_bits(v);
}

/// A `u64` written where the cursor stands reads back unchanged.
pub proof fn lemma_read_back_u64(m: NetworkMessage, p: Seq<u8>, v: u64, s: Seq<u8>)
    requires
        m.data() == p + le64(v) + s,
        m.cursor() == p.len(),
    ensures
        m.can_read(8),
        from_le64(m.peek(8)) == v,
{
    lemma_le64_round_trip(v);
    lemma_peek_written(m, p, le64(v), s);
}

/// An `i64` written where the cursor stands reads back unchanged.
pub proof fn lemma_read_back_i64(m: NetworkMessage, p: Seq<u8>, v: i64, s: Seq<u8>)
    requires
        m.data() == p + le64(v as u64) + s,
        m.cursor() == p.len(),
    ensures
        m.can_read(8),
        from_le64(m.peek(8)) as i64 == v,
{
    lemma_read_back_u64(m, p, v as u64, s);
    lemma_i64_bits(v);
}

/// A UTF-8 string written where the cursor stands reads back unchanged,
/// the empty string included.
pub proof fn lemma_read_back_utf8(m: NetworkMessage, p: Seq<u8>, text: Seq<char>, s: Seq<u8>)
    requires
        encode_utf8(text).len() <= u32::MAX,
        m.data() == p + utf8_field(encode_utf8(text)) + s,
        m.cursor() == p.len(),
    ensures
        m.prefix_len() == encode_utf8(text).len(),
        m.can_read(4 + m.prefix_len()),
        valid_utf8(m.prefixed_bytes(m.prefix_len())),
        decode_utf8(m.prefixed_bytes(m.prefix_len())) == text,
{
    let n = encode_utf8(text).len();
    assert(m.data() =~= p + le32(n as u32) + (encode_utf8(text) + s));
    lemma_read_back_u32(m, p, n as u32, encode_utf8(text) + s);
    assert(m.prefixed_bytes(n) =~= encode_utf8(text));
    vstd::utf8::encode_utf8_valid_utf8(text);
    vstd::utf8::encode_utf8_decode_utf8(text);
}

/// UTF-16 code units written where the cursor stands are the units the
/// next string read decodes.
pub proof fn lemma_read_back_utf16(m: NetworkMessage, p: Seq<u8>, units: Seq<u16>, s: Seq<u8>)
    requires
        units.len() <= u32::MAX,
        m.data() == p + le32(units.len() as u32) + units_le(units) + s,
        m.cursor() == p.len(),
    ensures
        m.prefix_len() == units.len(),
        m.can_read(4 + 2 * m.prefix_len()),
        m.prefixed_units(m.prefix_len()) == units,
{
    let n = units.len();
    lemma_units_le(units);
    assert(m.data() =~= p + le32(n as u32) + (units_le(units) + s));
    lemma_read_back_u32(m, p, n as u32, units_le(units) + s);
    assert(m.prefixed_bytes(2 * n) =~= units_le(units));
    assert forall|k: int| 0 <= k < n implies #[trigger] m.prefixed_units(n)[k] == units[k] by {
        assert(units_le(units).subrange(2 * k, 2 * k + 2) == le16(units[k]));
        lemma_le16_round_trip(units[k]);
    }
    assert(m.prefixed_units(n) =~= units);
}

/// A UTF-16 string written where the cursor stands reads back unchanged,
/// the empty string included.
pub proof fn lemma_read_back_utf16_text(m: NetworkMessage, p: Seq<u8>, text: Seq<char>, s: Seq<u8>)
    requires
        utf16_of(text).len() <= u32::MAX,
        m.data() == p + utf16_field(utf16_of(text)) + s,
        m.cursor() == p.len(),
    ensures
        m.prefix_len() == utf16_of(text).len(),
        m.can_read(4 + 2 * m.prefix_len()),
        utf16_decoded(m.prefixed_units(m.prefix_len())) == Some(text),
{
    let units = utf16_of(text);
    assert(m.data() == p + le32(units.len() as u32) + units_le(units) + s) by {
        assert(utf16_field(units) == le32(units.len() as u32) + units_le(units));
        assert(p + (le32(units.len() as u32) + units_le(units)) + s =~= p + le32(units.len() as u32)
            + units_le(units) + s);
    }
    lemma_read_back_utf16(m, p, units, s);
    lemma_utf16_round_trip(text);
}

/// The little-endian bytes of code units: two per unit, unit `k` at `2 * k`.
pub proof fn lemma_units_le(units: Seq<u16>)
    ensures
        units_le(units).len() == 2 * units.len(),
        forall|k: int|
            0 <= k < units.len() ==> #[trigger] units_le(units).subrange(2 * k, 2 * k + 2) == le16(
                units[k],
            ),
    decreases units.len(),
{
    if units.len() > 0 {
        let init = units.drop_last();
        lemma_units_le(init);
        lemma_le16_round_trip(units.last());
        assert forall|k: int| 0 <= k < units.len() implies #[trigger] units_le(units).subrange(
            2 * k,
            2 * k + 2,
        ) == le16(units[k]) by {
            if k < init.len() {
                assert(units_le(units).subrange(2 * k, 2 * k + 2) =~= units_le(init).subrange(
                    2 * k,
                    2 * k + 2,
                ));
                assert(init[k] == units[k]);
            } else {
                assert(units_le(units).subrange(2 * k, 2 * k + 2) =~= le16(units.last()));
            }
        }
    }
}

/// The protocol code stands at offset 0 whether it was written before the
/// payload or prepended after it, and reads back as written.
pub proof fn lemma_code_at_offset_zero(code: i32, payload: Seq<u8>)
    ensures
        (le32(code as u32) + payload).subrange(0, 4) == le32(code as u32),
        from_le32((le32(code as u32) + payload).subrange(0, 4)) as i32 == code,
{
    lemma_le32_round_trip(code as u32);
    lemma_i32_bits(code);
    assert((le32(code as u32) + payload).subrange(0, 4) =~= le32(code as u32));
}

} // verus!
