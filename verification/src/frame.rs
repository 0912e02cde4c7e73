//! The CAN frame and its accessors.

use vstd::prelude::*;
use vstd::slice::slice_subrange;
use vstd::string::StringExecFns;
use crate::text::{byte_hex, digits, join, joined, upper_hex, upper_hex_byte, views};
use crate::constants::{EFF_FLAG, RTR_FLAG, ERR_FLAG, SFF_MASK, EFF_MASK, ERR_MASK};
use crate::errors::{CanError, CanErrorDecodingFailure, ConstructionError};

verus! {

/// What a frame is, as mathematics: the fields of the kernel's structure.
pub struct FrameModel {
    /// Identifier bits and the three flags.
    pub word: u32,
    /// Number of payload bytes that count.
    pub len: nat,
    pub pad: u8,
    pub res0: u8,
    pub res1: u8,
    /// The eight bytes of the payload buffer.
    pub data: Seq<u8>,
}

impl FrameModel {
    /// The buffer has eight bytes and at most all of them count.
    pub open spec fn wf(self) -> bool {
        self.len <= 8 && self.data.len() == 8
    }

    /// Bit 31 of the word: the frame is in extended format.
    pub open spec fn is_extended(self) -> bool {
        self.word / EFF_FLAG % 2 == 1
    }

    /// Bit 30 of the word: the frame is a remote transmission request.
    pub open spec fn is_rtr(self) -> bool {
        self.word / RTR_FLAG % 2 == 1
    }

    /// Bit 29 of the word: the frame is an error frame.
    pub open spec fn is_error(self) -> bool {
        self.word / ERR_FLAG % 2 == 1
    }

    /// The identifier: the low 29 bits of the word in extended format, the
    /// low 11 bits otherwise.
    pub open spec fn id(self) -> u32 {
        if self.is_extended() {
            (self.word as int % (EFF_MASK + 1)) as u32
        } else {
            (self.word as int % (SFF_MASK + 1)) as u32
        }
    }

    /// The error class: the low 29 bits of the word.
    pub open spec fn err(self) -> u32 {
        (self.word as int % (ERR_MASK + 1)) as u32
    }

    /// The payload: the bytes of the buffer that count.
    pub open spec fn payload(self) -> Seq<u8> {
        self.data.take(self.len as int)
    }
}

/// The order in which the bytes of the identifier word lie on the wire. The
/// kernel uses the order of the machine it runs on.
#[derive(Debug, Copy, Clone, PartialEq, Eq, Structural)]
pub enum ByteOrder {
    /// Lowest byte first.
    LittleEndian,
    /// Highest byte first.
    BigEndian,
}

/// The four bytes of `word`, lowest first.
pub open spec fn word_digits(word: u32) -> Seq<u8> {
    seq![
        (word % 256) as u8,
        (word / 256 % 256) as u8,
        (word / 65536 % 256) as u8,
        (word / 16777216) as u8,
    ]
}

/// The four bytes of `word` in the given order.
pub open spec fn word_bytes(word: u32, order: ByteOrder) -> Seq<u8> {
    match order {
        ByteOrder::LittleEndian => word_digits(word),
        ByteOrder::BigEndian => word_digits(word).reverse(),
    }
}

/// The word whose bytes in the given order are the first four of `bytes`.
pub open spec fn word_of_bytes(bytes: Seq<u8>, order: ByteOrder) -> u32 {
    let digits = match order {
        ByteOrder::LittleEndian => bytes.take(4),
        ByteOrder::BigEndian => bytes.take(4).reverse(),
    };
    (digits[0] + 256 * digits[1] + 65536 * digits[2] + 16777216 * digits[3]) as u32
}

impl FrameModel {
    /// The frame as text: the identifier in capital hexadecimal digits, `#`,
    /// then each payload byte in two such digits. In the alternate form a
    /// space stands between each two bytes.
    pub open spec fn upper_hex(self, alternate: bool) -> Seq<char> {
        digits(self.id() as nat, 16) + seq!['#'] + joined(
            self.payload().map_values(|b: u8| byte_hex(b)),
            if alternate {
                seq![' ']
            } else {
                Seq::empty()
            },
        )
    }

    /// The sixteen bytes that stand for the frame on the wire.
    pub open spec fn wire(self, order: ByteOrder) -> Seq<u8> {
        word_bytes(self.word, order) + seq![self.len as u8, self.pad, self.res0, self.res1]
            + self.data
    }

    /// The frame that sixteen bytes from the wire stand for. A length byte
    /// above eight stands for no frame.
    pub open spec fn from_wire(bytes: Seq<u8>, order: ByteOrder) -> Result<
        FrameModel,
        ConstructionError,
    > {
        if bytes[4] > 8 {
            Err(ConstructionError::TooMuchData)
        } else {
            Ok(
                FrameModel {
                    word: word_of_bytes(bytes, order),
                    len: bytes[4] as nat,
                    pad: bytes[5],
                    res0: bytes[6],
                    res1: bytes[7],
                    data: bytes.subrange(8, 16),
                },
            )
        }
    }
}

/// The identifier word of a frame built from `id` and the two flags a caller
/// chooses. The format flag follows from the size of `id`.
pub open spec fn identifier_word(id: u32, rtr: bool, err: bool) -> u32 {
    (id + (if id > SFF_MASK { EFF_FLAG } else { 0 }) + (if rtr { RTR_FLAG } else { 0 }) + (if err {
        ERR_FLAG
    } else {
        0
    })) as u32
}

/// `data` followed by zeros up to eight bytes.
pub open spec fn padded(data: Seq<u8>) -> Seq<u8> {
    Seq::new(8, |i: int| if i < data.len() { data[i] } else { 0u8 })
}

/// The four bytes of `word` in the given order.
pub fn word_to_bytes(word: u32, order: ByteOrder) -> (bytes: [u8; 4])
    ensures
        bytes@ == word_bytes(word, order),
{
    let b0 = (word & 0xff) as u8;
    let b1 = ((word >> 8) & 0xff) as u8;
    let b2 = ((word >> 16) & 0xff) as u8;
    let b3 = (word >> 24) as u8;
    proof {
        lemma_word_digits(word);
    }
    let bytes = match order {
        ByteOrder::LittleEndian => [b0, b1, b2, b3],
        ByteOrder::BigEndian => [b3, b2, b1, b0],
    };
    assert(bytes@ =~= word_bytes(word, order));
    bytes
}

/// A CAN frame, field for field as the kernel lays it out.
#[derive(Debug, Copy, Clone)]
pub struct CanFrame {
    /// 32 bit CAN_ID + EFF/RTR/ERR flags
    _id: u32,
    /// data length. Bytes beyond are not valid
    _data_len: u8,
    /// padding
    _pad: u8,
    /// reserved
    _res0: u8,
    /// reserved
    _res1: u8,
    /// buffer for data
    _data: [u8; 8],
}

impl View for CanFrame {
    type V = FrameModel;

    closed spec fn view(&self) -> FrameModel {
        FrameModel {
            word: self._id,
            len: self._data_len as nat,
            pad: self._pad,
            res0: self._res0,
            res1: self._res1,
            data: self._data@,
        }
    }
}

impl CanFrame {
    /// No frame says that more bytes count than its buffer has.
    #[verifier::type_invariant]
    spec fn inv(self) -> bool {
        self._data_len <= 8
    }

    /// Builds a frame. Fails where `data` has more than eight bytes, and
    /// otherwise where `id` does not fit in 29 bits.
    pub fn new(id: u32, data: &[u8], rtr: bool, err: bool) -> (r: Result<
        CanFrame,
        ConstructionError,
    >)
        ensures
            data@.len() > 8 <==> r == Err::<CanFrame, ConstructionError>(
                ConstructionError::TooMuchData,
            ),
            data@.len() <= 8 && id > EFF_MASK <==> r == Err::<CanFrame, ConstructionError>(
                ConstructionError::IDTooLarge,
            ),
            data@.len() <= 8 && id <= EFF_MASK <==> r is Ok,
            r matches Ok(frame) ==> {
                &&& frame@.wf()
                &&& frame@ == (FrameModel {
                        word: identifier_word(id, rtr, err),
                        len: data@.len(),
                        pad: 0,
                        res0: 0,
                        res1: 0,
                        data: padded(data@),
                    })
                &&& frame@.id() == id
                &&& frame@.is_extended() == (id > SFF_MASK)
                &&& frame@.is_rtr() == rtr
                &&& frame@.is_error() == err
                &&& frame@.payload() == data@
            },
    {
        if data.len() > 8 {
            return Err(ConstructionError::TooMuchData);
        }

        if id > EFF_MASK {
            return Err(ConstructionError::IDTooLarge);
        }

        // the size of the identifier decides the frame format
        let format: u32 = if id > SFF_MASK { EFF_FLAG } else { 0 };
        let request: u32 = if rtr { RTR_FLAG } else { 0 };
        let error: u32 = if err { ERR_FLAG } else { 0 };
        let _id: u32 = id | format | request | error;

        let mut full_data = [0u8; 8];
        let mut n: usize = 0;
        while n < data.len()
            invariant
                n <= data@.len() <= 8,
                forall|i: int| 0 <= i < n ==> full_data@[i] == data@[i],
                forall|i: int| n <= i < 8 ==> full_data@[i] == 0u8,
            decreases data@.len() - n,
        {
            full_data[n] = data[n];
            n += 1;
        }

        proof {
            assert(full_data@ =~= padded(data@));
            assert(padded(data@).take(data@.len() as int) =~= data@);
            assert(id | format | request | error == id + format + request + error) by (bit_vector)
                requires
                    id <= 0x1fffffffu32,
                    format == 0x80000000u32 || format == 0u32,
                    request == 0x40000000u32 || request == 0u32,
                    error == 0x20000000u32 || error == 0u32,
            ;
        }

        Ok(CanFrame {
            _id: _id,
            _data_len: data.len() as u8,
            _pad: 0,
            _res0: 0,
            _res1: 0,
            _data: full_data,
        })
    }

    /// Return the actual CAN ID (without EFF/RTR/ERR flags)
    #[inline]
    pub fn id(&self) -> (id: u32)
        ensures
            id == self@.id(),
            id <= EFF_MASK,
            !self@.is_extended() ==> id <= SFF_MASK,
    {
        let word = self._id;
        proof {
            assert(word & 0x1fffffffu32 == word % 0x20000000u32 && word & 0x7ffu32 == word
                % 0x800u32) by (bit_vector);
        }
        if self.is_extended() {
            self._id & EFF_MASK
        } else {
            self._id & SFF_MASK
        }
    }

    /// Return the error message
    #[inline]
    pub fn err(&self) -> (code: u32)
        ensures
            code == self@.err(),
            code <= ERR_MASK,
    {
        let word = self._id;
        proof {
            assert(word & 0x1fffffffu32 == word % 0x20000000u32) by (bit_vector);
        }
        self._id & ERR_MASK
    }

    /// Check if frame uses 29 bit extended frame format
    #[inline]
    pub fn is_extended(&self) -> (b: bool)
        ensures
            b == self@.is_extended(),
    {
        let word = self._id;
        proof {
            assert((word & 0x80000000u32 != 0) == (word / 0x80000000u32 % 2 == 1)) by (bit_vector);
        }
        self._id & EFF_FLAG != 0
    }

    /// Check if frame is an error message
    #[inline]
    pub fn is_error(&self) -> (b: bool)
        ensures
            b == self@.is_error(),
    {
        let word = self._id;
        proof {
            assert((word & 0x20000000u32 != 0) == (word / 0x20000000u32 % 2 == 1)) by (bit_vector);
        }
        self._id & ERR_FLAG != 0
    }

    /// Check if frame is a remote transmission request
    #[inline]
    pub fn is_rtr(&self) -> (b: bool)
        ensures
            b == self@.is_rtr(),
    {
        let word = self._id;
        proof {
            assert((word & 0x40000000u32 != 0) == (word / 0x40000000u32 % 2 == 1)) by (bit_vector);
        }
        self._id & RTR_FLAG != 0
    }

    /// A slice into the actual data. Slice will always be <= 8 bytes in length
    #[inline]
    pub fn data(&self) -> (payload: &[u8])
        ensures
            self@.wf(),
            payload@ == self@.payload(),
            payload@.len() == self@.len,
    {
        proof {
            use_type_invariant(self);
        }
        slice_subrange(self._data.as_slice(), 0, self._data_len as usize)
    }

    /// The frame as the sixteen bytes that the kernel exchanges, the
    /// identifier word in the given byte order. Read back in the same order
    /// the bytes give the frame again.
    pub fn to_wire(&self, order: ByteOrder) -> (bytes: [u8; 16])
        ensures
            bytes@ == self@.wire(order),
            FrameModel::from_wire(bytes@, order) == Ok::<FrameModel, ConstructionError>(self@),
    {
        proof {
            use_type_invariant(self);
            lemma_wire_round_trip(self@, order);
        }
        let w = word_to_bytes(self._id, order);
        let d = &self._data;
        let bytes = [
            w[0], w[1], w[2], w[3], self._data_len, self._pad, self._res0, self._res1,
            d[0], d[1], d[2], d[3], d[4], d[5], d[6], d[7],
        ];
        assert(bytes@ =~= self@.wire(order));
        bytes
    }

    /// The frame that sixteen bytes from the kernel stand for, the
    /// identifier word read in the given byte order. Fails with
    /// `TooMuchData` where the length byte is above eight.
    pub fn from_wire(bytes: &[u8; 16], order: ByteOrder) -> (r: Result<
        CanFrame,
        ConstructionError,
    >)
        ensures
            r is Err <==> bytes@[4] > 8,
            r matches Ok(frame) ==> frame@.wf(),
            match r {
                Ok(frame) => FrameModel::from_wire(bytes@, order) == Ok::<
                    FrameModel,
                    ConstructionError,
                >(frame@),
                Err(e) => FrameModel::from_wire(bytes@, order) == Err::<
                    FrameModel,
                    ConstructionError,
                >(e),
            },
    {
        if bytes[4] > 8 {
            return Err(ConstructionError::TooMuchData);
        }
        let (b0, b1, b2, b3) = match order {
            ByteOrder::LittleEndian => (bytes[0], bytes[1], bytes[2], bytes[3]),
            ByteOrder::BigEndian => (bytes[3], bytes[2], bytes[1], bytes[0]),
        };
        let word = (b0 as u32) | ((b1 as u32) << 8) | ((b2 as u32) << 16) | ((b3 as u32) << 24);
        proof {
            lemma_word_of_digits(b0, b1, b2, b3);
        }
        let data = [
            bytes[8], bytes[9], bytes[10], bytes[11], bytes[12], bytes[13], bytes[14], bytes[15],
        ];
        assert(data@ =~= bytes@.subrange(8, 16));
        Ok(CanFrame {
            _id: word,
            _data_len: bytes[4],
            _pad: bytes[5],
            _res0: bytes[6],
            _res1: bytes[7],
            _data: data,
        })
    }

    /// The frame as text, as in `7B#DEADBEEF`; in the alternate form as in
    /// `7B#DE AD BE EF`.
    pub fn upper_hex(&self, alternate: bool) -> (text: String)
        ensures
            text@ == self@.upper_hex(alternate),
    {
        let mut text = upper_hex(self.id());
        text.append("#");
        let data = self.data();
        let mut parts: Vec<String> = Vec::new();
        let mut i: usize = 0;
        while i < data.len()
            invariant
                i <= data@.len(),
                parts@.len() == i,
                forall|j: int| 0 <= j < i ==> (#[trigger] parts@[j])@ == byte_hex(data@[j]),
            decreases data@.len() - i,
        {
            let part = upper_hex_byte(data[i]);
            parts.push(part);
            i += 1;
        }
        let sep = if alternate { " " } else { "" };
        let body = join(&parts, sep);
        text.append(body.as_str());
        proof {
            reveal_strlit("#");
            reveal_strlit(" ");
            reveal_strlit("");
            assert(views(parts@) =~= data@.map_values(|b: u8| byte_hex(b)));
            assert("#"@ =~= seq!['#']);
            assert(" "@ =~= seq![' ']);
            assert(""@ =~= Seq::<char>::empty());
        }
        text
    }

    /// Read error from message and transform it into a `CanError`.
    ///
    /// SocketCAN errors are indicated using the error bit and coded inside
    /// id and data payload. Call `error()` converts these into usable
    /// `CanError` instances.
    ///
    /// If the frame is malformed, this may fail with a
    /// `CanErrorDecodingFailure`.
    #[inline]
    pub fn error(&self) -> (r: Result<CanError, CanErrorDecodingFailure>)
        ensures
            r == CanError::decode(self@),
    {
        CanError::from_frame(self)
    }
}

/// Encoding a frame to its wire form and decoding it back yields the same
/// frame: the same identifier, the same three flags, the same payload, and
/// the same bytes in the fields that carry no meaning.
pub proof fn lemma_wire_round_trip(frame: FrameModel, order: ByteOrder)
    requires
        frame.wf(),
    ensures
        frame.wire(order).len() == 16,
        FrameModel::from_wire(frame.wire(order), order) == Ok::<FrameModel, ConstructionError>(
            frame,
        ),
        FrameModel::from_wire(frame.wire(order), order) matches Ok(back) && {
            &&& back.id() == frame.id()
            &&& back.is_extended() == frame.is_extended()
            &&& back.is_rtr() == frame.is_rtr()
            &&& back.is_error() == frame.is_error()
            &&& back.payload() == frame.payload()
        },
{
    let bytes = frame.wire(order);
    lemma_word_round_trip(frame.word, order);
    assert(bytes.take(4) =~= word_bytes(frame.word, order));
    assert(bytes.subrange(8, 16) =~= frame.data);
}

/// Decoding sixteen bytes with a length byte of at most eight and encoding
/// the frame again yields the same sixteen bytes.
pub proof fn lemma_wire_image_round_trip(bytes: Seq<u8>, order: ByteOrder)
    requires
        bytes.len() == 16,
        bytes[4] <= 8,
    ensures
        FrameModel::from_wire(bytes, order) matches Ok(frame) && frame.wf() && frame.wire(order)
            == bytes,
{
    let frame = FrameModel::from_wire(bytes, order)->Ok_0;
    lemma_bytes_round_trip(bytes.take(4), order);
    assert(frame.wire(order) =~= bytes);
}

/// A word is the word of its bytes.
pub proof fn lemma_word_round_trip(word: u32, order: ByteOrder)
    ensures
        word_bytes(word, order).len() == 4,
        word_of_bytes(word_bytes(word, order), order) == word,
{
    let digits = word_digits(word);
    assert(digits.take(4) =~= digits);
    assert(digits.reverse().take(4).reverse() =~= digits);
}

/// Four bytes are the bytes of their word.
pub proof fn lemma_bytes_round_trip(bytes: Seq<u8>, order: ByteOrder)
    requires
        bytes.len() == 4,
    ensures
        word_bytes(word_of_bytes(bytes, order), order) == bytes,
{
    assert(bytes.take(4) =~= bytes);
    let digits = match order {
        ByteOrder::LittleEndian => bytes,
        ByteOrder::BigEndian => bytes.reverse(),
    };
    let word = word_of_bytes(bytes, order);
    let (d0, d1, d2, d3) = (digits[0], digits[1], digits[2], digits[3]);
    lemma_word_of_digits(d0, d1, d2, d3);
    assert(word % 256 == d0 && word / 256 % 256 == d1 && word / 65536 % 256 == d2 && word
        / 16777216 == d3) by (bit_vector)
        requires
            word == (d0 as u32) | ((d1 as u32) << 8) | ((d2 as u32) << 16) | ((d3 as u32) << 24),
    ;
    assert(word_digits(word) =~= digits);
    assert(bytes.reverse().reverse() =~= bytes);
}

/// Shifting and masking a word gives its four bytes.
proof fn lemma_word_digits(w: u32)
    ensures
        (w & 0xff) as u8 == (w % 256) as u8,
        ((w >> 8) & 0xff) as u8 == (w / 256 % 256) as u8,
        ((w >> 16) & 0xff) as u8 == (w / 65536 % 256) as u8,
        (w >> 24) as u8 == (w / 16777216) as u8,
{
    assert((w & 0xff) as u8 == (w % 256) as u8
        && ((w >> 8) & 0xff) as u8 == (w / 256 % 256) as u8
        && ((w >> 16) & 0xff) as u8 == (w / 65536 % 256) as u8
        && (w >> 24) as u8 == (w / 16777216) as u8) by (bit_vector);
}

/// Shifting four bytes into place and joining them gives their weighted sum.
proof fn lemma_word_of_digits(b0: u8, b1: u8, b2: u8, b3: u8)
    ensures
        (b0 as u32) | ((b1 as u32) << 8) | ((b2 as u32) << 16) | ((b3 as u32) << 24)
            == b0 + 256 * b1 + 65536 * b2 + 16777216 * b3,
{
    assert(((b0 as u32) | ((b1 as u32) << 8) | ((b2 as u32) << 16) | ((b3 as u32) << 24)) as int
        == b0 as int + 256 * (b1 as int) + 65536 * (b2 as int) + 16777216 * (b3 as int))
        by (bit_vector);
}

} // verus!
