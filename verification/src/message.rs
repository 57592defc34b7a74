//! The message buffer: a fixed-capacity byte region with a cursor.
//!
//! The region starts with a reserved header of eight bytes: two bytes of
//! declared length, least significant byte first, and six bytes that the
//! transport framing uses. The payload follows. Writes and reads happen at the
//! cursor and move it forward. The declared payload length is kept apart from
//! the cursor, so that a frame can be read by its header whatever has been
//! appended.

use crate::codec::{
    decode_le, encode_le, le_value, lemma_le_bytes_len, lemma_le_value_bound,
    lemma_radix_pow_values,
};
use crate::error::NetworkMessageError;
use crate::scalar::{
    decoding, encoding, lemma_decoding_of_encoding, lemma_encoding_of_decoding, zero, Scalar,
};
use vstd::prelude::*;
use vstd::slice::slice_subrange;
use vstd::utf8::{
    decode_utf8, decode_utf8_encode_utf8, encode_utf8, encode_utf8_decode_utf8, valid_utf8,
};

verus! {

/// The size of the byte region: the largest frame on the wire.
pub const NETWORKMESSAGE_MAXSIZE: usize = 65500;

/// The offset of the first payload byte, behind the reserved header.
pub const INITIAL_BUFFER_POSITION: usize = 8;

/// The bound that the end of every write stays below.
pub const MAX_BODY_LENGTH: usize = NETWORKMESSAGE_MAXSIZE - 2 - 4 - 8;

/// `base` with `part` written over it from offset `at`.
pub open spec fn overwrite(base: Seq<u8>, at: int, part: Seq<u8>) -> Seq<u8> {
    Seq::new(
        base.len(),
        |i: int|
            if at <= i < at + part.len() {
                part[i - at]
            } else {
                base[i]
            },
    )
}

/// What a message is, mathematically.
pub struct MessageView {
    /// The whole byte region, header included.
    pub buffer: Seq<u8>,
    /// The cursor: the offset of the next write or read.
    pub position: nat,
    /// The declared payload length.
    pub length: nat,
    /// Whether a string read has asked for more than was declared.
    pub overrun: bool,
}

impl MessageView {
    /// A message as it is created: all zero, the cursor on the first payload
    /// byte, nothing declared.
    pub open spec fn fresh() -> MessageView {
        MessageView {
            buffer: Seq::new(NETWORKMESSAGE_MAXSIZE as nat, |i: int| 0u8),
            position: INITIAL_BUFFER_POSITION as nat,
            length: 0,
            overrun: false,
        }
    }

    /// What holds of every message: the region has its full size, the cursor
    /// lies behind the header and inside the region, and the declared length
    /// exceeds the capacity by no more than the cursor has moved.
    pub open spec fn wf(self) -> bool {
        &&& self.buffer.len() == NETWORKMESSAGE_MAXSIZE
        &&& INITIAL_BUFFER_POSITION <= self.position < NETWORKMESSAGE_MAXSIZE
        &&& self.length + INITIAL_BUFFER_POSITION <= NETWORKMESSAGE_MAXSIZE + self.position
    }

    /// The write bound: a write of `size` bytes ends below the body limit.
    pub open spec fn can_add(self, size: nat) -> bool {
        size + self.position < MAX_BODY_LENGTH
    }

    /// The read bound: a read of `size` bytes stays within the declared
    /// payload and ends before the last byte of the region.
    pub open spec fn can_read(self, size: nat) -> bool {
        &&& self.position + size <= self.length + INITIAL_BUFFER_POSITION
        &&& size < NETWORKMESSAGE_MAXSIZE - self.position
    }

    /// The `size` bytes under the cursor.
    pub open spec fn pending(self, size: nat) -> Seq<u8> {
        self.buffer.subrange(self.position as int, (self.position + size) as int)
    }

    /// The message with the cursor moved on by `size`.
    pub open spec fn advanced(self, size: nat) -> MessageView {
        MessageView { position: self.position + size, ..self }
    }

    /// The message with `bytes` written at the cursor: the cursor and the
    /// declared length grow by their number.
    pub open spec fn written(self, bytes: Seq<u8>) -> MessageView {
        MessageView {
            buffer: overwrite(self.buffer, self.position as int, bytes),
            position: self.position + bytes.len(),
            length: self.length + bytes.len(),
            overrun: self.overrun,
        }
    }

    /// The message after an append of `bytes`: written where the append is
    /// accepted, unchanged where it is refused.
    pub open spec fn appended(self, bytes: Seq<u8>) -> MessageView {
        if bytes.len() > 0 && self.can_add(bytes.len()) {
            self.written(bytes)
        } else {
            self
        }
    }

    /// The length that the first two bytes of the header declare.
    pub open spec fn header_length(self) -> nat {
        le_value(self.buffer.subrange(0, 2))
    }

    /// Whether the header can be decoded: at least two bytes are declared so
    /// far, and the length in the header does not exceed the capacity.
    pub open spec fn header_accepted(self) -> bool {
        self.length >= 2 && self.header_length() <= NETWORKMESSAGE_MAXSIZE
    }

    /// The scalar that a read returns: the value under the cursor, or zero
    /// where the read bound fails.
    pub open spec fn scalar<T: Scalar>(self) -> T {
        if self.can_read(T::width()) {
            decoding::<T>(self.pending(T::width()))
        } else {
            zero::<T>()
        }
    }

    /// The message after a scalar read: the cursor moves on where the read
    /// bound holds, and nothing changes where it fails.
    pub open spec fn after_scalar<T: Scalar>(self) -> MessageView {
        if self.can_read(T::width()) {
            self.advanced(T::width())
        } else {
            self
        }
    }

    /// The length of the string that a read takes: the one given, or else the
    /// one that a scalar read of two bytes finds under the cursor.
    pub open spec fn string_len(self, given: Option<usize>) -> nat {
        match given {
            Some(len) => len as nat,
            None => self.scalar::<u16>() as nat,
        }
    }

    /// The message at the moment the string's length is known.
    pub open spec fn at_string(self, given: Option<usize>) -> MessageView {
        match given {
            Some(_) => self,
            None => self.after_scalar::<u16>(),
        }
    }

    /// What a string read returns.
    pub open spec fn string(self, given: Option<usize>) -> Result<Seq<char>, NetworkMessageError> {
        let len = self.string_len(given);
        let at = self.at_string(given);
        if len == 0 {
            Ok(Seq::empty())
        } else if !at.can_read(len) {
            Err(NetworkMessageError::ReadError)
        } else if !valid_utf8(at.pending(len)) {
            Err(NetworkMessageError::InvalidUtf8)
        } else {
            Ok(decode_utf8(at.pending(len)))
        }
    }

    /// The message after a string read: an empty string consumes nothing, a
    /// read beyond the read bound raises the overrun flag, bytes that are not
    /// valid UTF-8 are left under the cursor, and only a string that is
    /// returned moves the cursor over its bytes.
    pub open spec fn after_string(self, given: Option<usize>) -> MessageView {
        let len = self.string_len(given);
        let at = self.at_string(given);
        if len == 0 {
            at
        } else if !at.can_read(len) {
            MessageView { overrun: true, ..at }
        } else if !valid_utf8(at.pending(len)) {
            at
        } else {
            at.advanced(len)
        }
    }

    /// The message turned from writing to reading: what lies before the
    /// cursor becomes the declared payload, and the cursor returns to the
    /// first payload byte.
    pub open spec fn flipped(self) -> MessageView {
        MessageView {
            position: INITIAL_BUFFER_POSITION as nat,
            length: (self.position - INITIAL_BUFFER_POSITION) as nat,
            ..self
        }
    }
}

/// A scalar is read back from where it was written.
///
/// Take a message whose declared payload reaches its cursor, write `value`
/// at the cursor, and place a reader's cursor where the write began. The
/// read then keeps the read bound, returns `value` bit for bit, and leaves
/// the cursor where the write left it.
pub proof fn lemma_get_returns_added<T: Scalar>(before: MessageView, value: T)
    requires
        before.wf(),
        before.can_add(T::width()),
        before.position <= before.length + INITIAL_BUFFER_POSITION,
    ensures
        ({
            let written = before.written(encoding(value));
            let reader = MessageView { position: before.position, ..written };
            &&& reader.can_read(T::width())
            &&& reader.scalar::<T>() == value
            &&& reader.after_scalar::<T>() == written
        }),
{
    let written = before.written(encoding(value));
    let reader = MessageView { position: before.position, ..written };
    lemma_decoding_of_encoding(value);
    assert(reader.pending(T::width()) =~= encoding(value));
}

/// Text is read back from where its bytes were appended.
///
/// Take a message whose declared payload reaches its cursor, append bytes
/// that are valid UTF-8 and fit, and place a reader's cursor where the append
/// began. A string read of as many bytes then returns the text that the
/// bytes encode, whose encoding is the bytes again, and leaves the cursor
/// where the append left it.
pub proof fn lemma_get_string_returns_added_bytes(before: MessageView, bytes: Seq<u8>)
    requires
        before.wf(),
        valid_utf8(bytes),
        bytes.len() == 0 || before.can_add(bytes.len()),
        before.position <= before.length + INITIAL_BUFFER_POSITION,
    ensures
        ({
            let appended = before.appended(bytes);
            let reader = MessageView { position: before.position, ..appended };
            let given = Some(bytes.len() as usize);
            &&& reader.string(given) == Ok::<Seq<char>, NetworkMessageError>(decode_utf8(bytes))
            &&& encode_utf8(decode_utf8(bytes)) == bytes
            &&& reader.after_string(given) == appended
        }),
{
    let appended = before.appended(bytes);
    let reader = MessageView { position: before.position, ..appended };
    decode_utf8_encode_utf8(bytes);
    if bytes.len() == 0 {
        assert(decode_utf8(bytes) =~= Seq::<char>::empty());
    } else {
        assert(reader.pending(bytes.len()) =~= bytes);
    }
}

/// A binary message: a byte region of fixed capacity with a cursor, a
/// declared payload length and an overrun flag.
pub struct NetworkMessage {
    buffer: Vec<u8>,
    position: usize,
    length: usize,
    overrun: bool,
}

impl View for NetworkMessage {
    type V = MessageView;

    closed spec fn view(&self) -> MessageView {
        MessageView {
            buffer: self.buffer@,
            position: self.position as nat,
            length: self.length as nat,
            overrun: self.overrun,
        }
    }
}

impl NetworkMessage {
    /// What holds of every message at all times.
    #[verifier::type_invariant]
    pub open spec fn well_formed(self) -> bool {
        self@.wf()
    }

    /// Creates a message with zeroed storage, the cursor on the first payload
    /// byte, no declared payload and the overrun flag cleared.
    pub fn new() -> (message: Self)
        ensures
            message@ == MessageView::fresh(),
    {
        let buffer: Vec<u8> = vec![0u8; NETWORKMESSAGE_MAXSIZE];
        assert(buffer@ =~= MessageView::fresh().buffer);
        NetworkMessage { buffer, position: INITIAL_BUFFER_POSITION, length: 0, overrun: false }
    }

    /// The cursor.
    pub fn position(&self) -> (position: usize)
        ensures
            position == self@.position,
    {
        self.position
    }

    /// The declared payload length.
    pub fn length(&self) -> (length: usize)
        ensures
            length == self@.length,
    {
        self.length
    }

    /// Whether a string read has asked for more than was declared.
    pub fn is_overrun(&self) -> (overrun: bool)
        ensures
            overrun == self@.overrun,
    {
        self.overrun
    }

    /// The whole byte region, header included.
    pub fn as_bytes(&self) -> (bytes: &[u8])
        ensures
            bytes@ == self@.buffer,
    {
        self.buffer.as_slice()
    }

    /// Tells whether a write of `size` bytes at the cursor keeps the write
    /// bound.
    pub fn can_add(&self, size: usize) -> (fits: bool)
        ensures
            fits == self@.can_add(size as nat),
    {
        self.position < MAX_BODY_LENGTH && size < MAX_BODY_LENGTH - self.position
    }

    /// Tells whether a read of `size` bytes at the cursor keeps the read
    /// bound.
    pub fn can_read(&self, size: usize) -> (readable: bool)
        ensures
            readable == self@.can_read(size as nat),
    {
        proof {
            use_type_invariant(self);
        }
        if size >= NETWORKMESSAGE_MAXSIZE - self.position {
            return false;
        }
        self.position + size <= self.length + INITIAL_BUFFER_POSITION
    }

    /// Reads the declared length from the first two bytes of the header,
    /// least significant byte first, and makes it the declared payload
    /// length.
    ///
    /// Returns the length read. Where fewer than two bytes are declared so
    /// far, or the length read exceeds the capacity, returns 0 and changes
    /// nothing. Two bytes never spell a negative length.
    pub fn decode_header(&mut self) -> (size: i32)
        ensures
            old(self)@.header_accepted() ==> size == old(self)@.header_length() && final(self)@ == (
            MessageView { length: old(self)@.header_length(), ..old(self)@ }),
            !old(self)@.header_accepted() ==> size == 0 && final(self)@ == old(self)@,
            old(self)@.length < 2 ==> size == 0 && final(self)@ == old(self)@,
    {
        proof {
            use_type_invariant(&*self);
        }
        if self.length < 2 {
            return 0;
        }
        let field = slice_subrange(self.buffer.as_slice(), 0, 2);
        proof {
            lemma_le_value_bound(field@);
            lemma_radix_pow_values();
        }
        let declared: u64 = decode_le(field);
        if declared > NETWORKMESSAGE_MAXSIZE as u64 {
            return 0;
        }
        self.length = declared as usize;
        declared as i32
    }

    /// Writes `bytes` at the cursor, which the caller has found to fit.
    fn put(&mut self, bytes: &[u8])
        requires
            old(self)@.can_add(bytes@.len()),
        ensures
            final(self)@ == old(self)@.written(bytes@),
    {
        proof {
            use_type_invariant(&*self);
        }
        let count: usize = bytes.len();
        let start: usize = self.position;
        let mut done: usize = 0;
        while done < count
            invariant
                done <= count,
                count == bytes@.len(),
                start + count < MAX_BODY_LENGTH,
                self.position == start,
                self.length == old(self).length,
                self.overrun == old(self).overrun,
                self.buffer@.len() == NETWORKMESSAGE_MAXSIZE,
                self.buffer@ == overwrite(old(self).buffer@, start as int, bytes@.take(done as int)),
            decreases count - done,
        {
            proof {
                use_type_invariant(&*self);
            }
            self.buffer[start + done] = bytes[done];
            done += 1;
        }
        assert(bytes@.take(count as int) =~= bytes@);
        self.position += count;
        self.length += count;
    }

    /// Appends raw bytes at the cursor.
    ///
    /// Fails with `SizeError`, and changes nothing, where `bytes` is empty or
    /// the write would break the write bound; a write within the bound never
    /// exceeds the capacity. On success the cursor and the declared length
    /// grow by the number of bytes. The storage has its full size from the
    /// start and never grows.
    pub fn add_bytes(&mut self, bytes: &[u8]) -> (result: Result<(), NetworkMessageError>)
        ensures
            result is Ok <==> bytes@.len() > 0 && old(self)@.can_add(bytes@.len()),
            result is Err ==> result == Err::<(), NetworkMessageError>(
                NetworkMessageError::SizeError,
            ),
            final(self)@ == old(self)@.appended(bytes@),
            !old(self)@.can_add(bytes@.len()) ==> final(self)@ == old(self)@,
    {
        if bytes.is_empty() {
            return Err(NetworkMessageError::SizeError);
        }
        if !self.can_add(bytes.len()) {
            return Err(NetworkMessageError::SizeError);
        }
        // The write bound already keeps every write below the capacity; the
        // capacity is still guarded in its own right.
        if bytes.len() > NETWORKMESSAGE_MAXSIZE {
            return Err(NetworkMessageError::SizeError);
        }
        self.put(bytes);
        Ok(())
    }

    /// Writes a scalar at the cursor: its bit pattern, least significant byte
    /// first.
    ///
    /// Fails with `SizeError`, and changes nothing, where the write would
    /// break the write bound. On success the cursor and the declared length
    /// grow by the scalar's width.
    pub fn add<T: Scalar>(&mut self, value: T) -> (result: Result<(), NetworkMessageError>)
        ensures
            result is Ok <==> old(self)@.can_add(T::width()),
            result is Ok ==> final(self)@ == old(self)@.written(encoding(value)),
            result is Ok ==> final(self)@.position == old(self)@.position + T::width(),
            result is Ok ==> final(self)@.length == old(self)@.length + T::width(),
            result is Err ==> result == Err::<(), NetworkMessageError>(
                NetworkMessageError::SizeError,
            ) && final(self)@ == old(self)@,
    {
        let size: usize = T::size();
        if !self.can_add(size) {
            return Err(NetworkMessageError::SizeError);
        }
        let bytes = encode_le(value.to_pattern(), size);
        proof {
            lemma_le_bytes_len(value.pattern(), T::width());
        }
        self.put(bytes.as_slice());
        Ok(())
    }

    /// Reads a scalar at the cursor.
    ///
    /// Where the read bound fails, returns zero and leaves the cursor where
    /// it is, without any sign of the failure. Otherwise returns the value
    /// that the bytes under the cursor carry, whose encoding is those bytes
    /// again, and moves the cursor over them.
    pub fn get<T: Scalar>(&mut self) -> (value: T)
        ensures
            value == old(self)@.scalar::<T>(),
            final(self)@ == old(self)@.after_scalar::<T>(),
            !old(self)@.can_read(T::width()) ==> value == zero::<T>(),
            !old(self)@.can_read(T::width()) ==> final(self)@ == old(self)@,
            old(self)@.can_read(T::width()) ==> encoding(value) == old(self)@.pending(T::width()),
    {
        proof {
            use_type_invariant(&*self);
        }
        let size: usize = T::size();
        if !self.can_read(size) {
            return T::of_pattern(0);
        }
        let field = slice_subrange(self.buffer.as_slice(), self.position, self.position + size);
        proof {
            T::lemma_faithful(zero::<T>());
            lemma_encoding_of_decoding::<T>(field@);
        }
        let pattern: u64 = decode_le(field);
        self.position += size;
        T::of_pattern(pattern)
    }

    /// Reads a string at the cursor.
    ///
    /// Without a given length, the length is first read as a scalar of two
    /// bytes. A length of zero gives the empty string and consumes nothing
    /// more. A length beyond the read bound raises the overrun flag and fails
    /// with `ReadError`. Bytes that are not valid UTF-8 fail with
    /// `InvalidUtf8` and stay under the cursor. Otherwise the result is the
    /// text of the bytes, and the cursor moves over them.
    pub fn get_string(&mut self, string_len: Option<usize>) -> (result: Result<
        String,
        NetworkMessageError,
    >)
        ensures
            final(self)@ == old(self)@.after_string(string_len),
            match result {
                Ok(text) => old(self)@.string(string_len) == Ok::<Seq<char>, NetworkMessageError>(
                    text@,
                ),
                Err(error) => old(self)@.string(string_len) == Err::<
                    Seq<char>,
                    NetworkMessageError,
                >(error),
            },
            string_len == Some(0usize) ==> final(self)@ == old(self)@ && result is Ok
                && result->Ok_0@.len() == 0,
    {
        proof {
            use_type_invariant(&*self);
        }
        let len: usize = match string_len {
            Some(len) => len,
            None => {
                let field: u16 = self.get::<u16>();
                field as usize
            },
        };
        if len == 0 {
            return Ok(String::new());
        }
        if !self.can_read(len) {
            self.overrun = true;
            return Err(NetworkMessageError::ReadError);
        }
        let taken = slice_subrange(self.buffer.as_slice(), self.position, self.position + len);
        match core::str::from_utf8(taken) {
            Ok(text) => {
                proof {
                    encode_utf8_decode_utf8(text@);
                }
                let found = text.to_owned();
                self.position += len;
                Ok(found)
            },
            Err(_) => Err(NetworkMessageError::InvalidUtf8),
        }
    }

    /// Turns the message from writing to reading: what lies before the cursor
    /// becomes the declared payload, and the cursor returns to the first
    /// payload byte.
    pub fn flip(&mut self)
        ensures
            final(self)@ == old(self)@.flipped(),
    {
        proof {
            use_type_invariant(&*self);
        }
        self.length = self.position - INITIAL_BUFFER_POSITION;
        self.position = INITIAL_BUFFER_POSITION;
    }
}

} // verus!
