//! Sense data: the diagnostic record a device returns with a completion.
//!
//! Two layouts exist. In the fixed layout every field has its own offset. In
//! the descriptor layout a short header is followed by a chain of
//! descriptors, each a type byte, a length byte and that many bytes of
//! content. A buffer may end before a field does: such a field is absent.

use crate::bytes::{bit_is_set, has_bit, low_bits, read_be64, be64};
use crate::text::{
    append_decimal, append_optional_decimal, append_yes_no, decimal, optional_decimal, yes_no,
};
use vstd::prelude::*;
use vstd::slice::slice_to_vec;
use vstd::string::StringExecFns;

verus! {

/// The longest buffer that is taken as sense data.
pub const MAX_SENSE_LEN: usize = 255;

/// The descriptor that carries the information field.
pub const INFORMATION_DESCRIPTOR: u8 = 0x00;

/// The descriptor that carries the filemark, end-of-medium and
/// incorrect-length flags of a stream device.
pub const STREAM_DESCRIPTOR: u8 = 0x04;

/// The response code: the low seven bits of the first byte.
pub open spec fn response_code(s: Seq<u8>) -> nat {
    s[0] as nat % 128
}

/// Whether a buffer holds sense data at all: it is not empty, not longer than
/// 255 bytes, and starts with one of the four response codes.
pub open spec fn recognized(s: Seq<u8>) -> bool {
    0 < s.len() <= 255 && 0x70 <= response_code(s) <= 0x73
}

/// How many leading bytes of the buffer belong to the sense data: all of them
/// while the additional length at offset 7 is out of reach, else no more than
/// the eight header bytes and the additional length that the device declared.
pub open spec fn extent(s: Seq<u8>) -> int {
    if s.len() < 8 {
        s.len() as int
    } else if 8 + s[7] < s.len() {
        8 + s[7]
    } else {
        s.len() as int
    }
}

/// The byte at `i`, if the sense data reaches it.
pub open spec fn field(s: Seq<u8>, i: int) -> Option<u8> {
    if 0 <= i < extent(s) {
        Some(s[i])
    } else {
        None
    }
}

/// The low four bits of the byte at `i`, if the sense data reaches it.
pub open spec fn low_nibble(s: Seq<u8>, i: int) -> Option<u8> {
    if 0 <= i < extent(s) {
        Some((s[i] as nat % 16) as u8)
    } else {
        None
    }
}

/// Whether the bit `mask` of the byte at `i` is set; an absent byte has no bit
/// set.
pub open spec fn field_bit(s: Seq<u8>, i: int, mask: u8) -> bool {
    0 <= i < extent(s) && has_bit(s[i], mask)
}

/// How many bytes of the sense data lie at or after `from`.
pub open spec fn remaining(s: Seq<u8>, from: int) -> nat {
    if from < extent(s) {
        (extent(s) - from) as nat
    } else {
        0
    }
}

/// The first descriptor of type `kind`, at or after `from`, that lies within
/// the sense data with at least `size` bytes (type and length bytes counted).
pub open spec fn find_descriptor(s: Seq<u8>, from: int, kind: u8, size: int) -> Option<int>
    decreases remaining(s, from),
{
    if from < 0 || from + 2 > extent(s) {
        None
    } else if s[from] == kind && 2 + s[from + 1] >= size && from + size <= extent(s) {
        Some(from)
    } else {
        find_descriptor(s, from + 2 + s[from + 1], kind, size)
    }
}

/// Eight zero bytes.
pub open spec fn no_information() -> Seq<u8> {
    seq![0u8, 0u8, 0u8, 0u8, 0u8, 0u8, 0u8, 0u8]
}

/// Decoded sense data.
#[derive(Debug)]
pub struct Sense {
    /// 0x70 and 0x71: fixed layout; 0x72 and 0x73: descriptor layout. The odd
    /// codes report a deferred error.
    pub response_code: u8,
    /// Whether the device marked `information` as defined.
    pub valid: bool,
    pub filemark: bool,
    pub eom: bool,
    pub ili: bool,
    pub sense_key: Option<u8>,
    /// The information field, big-endian; zero where absent. The fixed layout
    /// has four bytes of it, which are the low four here.
    pub information: [u8; 8],
    pub additional_sense_code: Option<u8>,
    pub additional_sense_code_qualifier: Option<u8>,
    /// The buffer as it was given.
    pub data: Vec<u8>,
}

impl Sense {
    /// Whether the sense data uses the descriptor layout.
    pub open spec fn is_descriptor(self) -> bool {
        self.response_code >= 0x72
    }

    /// What the fields hold when `s` is sense data in the fixed layout.
    pub open spec fn decodes_fixed(self, s: Seq<u8>) -> bool {
        &&& self.valid == (has_bit(s[0], 0x80) && 7 <= extent(s))
        &&& self.filemark == field_bit(s, 2, 0x80)
        &&& self.eom == field_bit(s, 2, 0x40)
        &&& self.ili == field_bit(s, 2, 0x20)
        &&& self.sense_key == low_nibble(s, 2)
        &&& self.information@ == if 7 <= extent(s) {
            seq![0u8, 0u8, 0u8, 0u8, s[3], s[4], s[5], s[6]]
        } else {
            no_information()
        }
        &&& self.additional_sense_code == field(s, 12)
        &&& self.additional_sense_code_qualifier == field(s, 13)
    }

    /// What the fields hold when `s` is sense data in the descriptor layout.
    pub open spec fn decodes_descriptor(self, s: Seq<u8>) -> bool {
        let info = find_descriptor(s, 8, INFORMATION_DESCRIPTOR, 12);
        let stream = find_descriptor(s, 8, STREAM_DESCRIPTOR, 4);
        &&& self.sense_key == low_nibble(s, 1)
        &&& self.additional_sense_code == field(s, 2)
        &&& self.additional_sense_code_qualifier == field(s, 3)
        &&& self.valid == (info matches Some(p) && has_bit(s[p + 2], 0x80))
        &&& self.information@ == match info {
            Some(p) => s.subrange(p + 4, p + 12),
            None => no_information(),
        }
        &&& self.filemark == (stream matches Some(q) && has_bit(s[q + 3], 0x80))
        &&& self.eom == (stream matches Some(q) && has_bit(s[q + 3], 0x40))
        &&& self.ili == (stream matches Some(q) && has_bit(s[q + 3], 0x20))
    }

    /// Whether `self` is what the sense data `s` decodes to.
    pub open spec fn decodes(self, s: Seq<u8>) -> bool {
        &&& self.data@ == s
        &&& self.response_code == response_code(s)
        &&& if self.is_descriptor() {
            self.decodes_descriptor(s)
        } else {
            self.decodes_fixed(s)
        }
    }

    /// The information field as a number.
    pub open spec fn information_value(self) -> nat {
        be64(self.information@, 0)
    }

    /// Decodes a buffer of sense data. A buffer that is empty, longer than 255
    /// bytes or does not start with a known response code holds none. Fields
    /// that the buffer or the declared length stop short of are absent.
    pub fn from_buf(buf: &[u8]) -> (sense: Option<Sense>)
        ensures
            sense is Some <==> recognized(buf@),
            sense matches Some(s) ==> s.decodes(buf@),
    {
        if buf.len() == 0 || buf.len() > MAX_SENSE_LEN {
            return None;
        }
        let code = low_bits(buf[0], 0x7F);
        if code < 0x70 || code > 0x73 {
            return None;
        }
        let end = sense_extent(buf);
        let data = slice_to_vec(buf);
        if code >= 0x72 {
            let info = locate_descriptor(buf, end, INFORMATION_DESCRIPTOR, 12);
            let stream = locate_descriptor(buf, end, STREAM_DESCRIPTOR, 4);
            let (valid, information) = match info {
                Some(p) => (
                    bit_is_set(buf[p + 2], 0x80),
                    [
                        buf[p + 4],
                        buf[p + 5],
                        buf[p + 6],
                        buf[p + 7],
                        buf[p + 8],
                        buf[p + 9],
                        buf[p + 10],
                        buf[p + 11],
                    ],
                ),
                None => (false, [0u8, 0u8, 0u8, 0u8, 0u8, 0u8, 0u8, 0u8]),
            };
            let (filemark, eom, ili) = match stream {
                Some(q) => (
                    bit_is_set(buf[q + 3], 0x80),
                    bit_is_set(buf[q + 3], 0x40),
                    bit_is_set(buf[q + 3], 0x20),
                ),
                None => (false, false, false),
            };
            let sense = Sense {
                response_code: code,
                valid,
                filemark,
                eom,
                ili,
                sense_key: nibble_at(buf, end, 1),
                information,
                additional_sense_code: byte_at(buf, end, 2),
                additional_sense_code_qualifier: byte_at(buf, end, 3),
                data,
            };
            assert(sense.information@ =~= match find_descriptor(
                buf@,
                8,
                INFORMATION_DESCRIPTOR,
                12,
            ) {
                Some(p) => buf@.subrange(p + 4, p + 12),
                None => no_information(),
            });
            Some(sense)
        } else {
            let present = end >= 7;
            let information = if present {
                [0u8, 0u8, 0u8, 0u8, buf[3], buf[4], buf[5], buf[6]]
            } else {
                [0u8, 0u8, 0u8, 0u8, 0u8, 0u8, 0u8, 0u8]
            };
            let sense = Sense {
                response_code: code,
                valid: bit_is_set(buf[0], 0x80) && present,
                filemark: bit_at(buf, end, 2, 0x80),
                eom: bit_at(buf, end, 2, 0x40),
                ili: bit_at(buf, end, 2, 0x20),
                sense_key: nibble_at(buf, end, 2),
                information,
                additional_sense_code: byte_at(buf, end, 12),
                additional_sense_code_qualifier: byte_at(buf, end, 13),
                data,
            };
            assert(sense.information@ =~= if 7 <= extent(buf@) {
                seq![0u8, 0u8, 0u8, 0u8, buf@[3], buf@[4], buf@[5], buf@[6]]
            } else {
                no_information()
            });
            Some(sense)
        }
    }

    /// The decoded fields, one to a line.
    pub open spec fn text(self) -> Seq<char> {
        "Response code: "@ + decimal(self.response_code as nat) + "\nSense key: "@
            + optional_decimal(self.sense_key) + "\nAdditional sense code: "@ + optional_decimal(
            self.additional_sense_code,
        ) + "\nAdditional sense code qualifier: "@ + optional_decimal(
            self.additional_sense_code_qualifier,
        ) + "\nInformation valid: "@ + yes_no(self.valid) + "\nInformation: "@ + decimal(
            self.information_value(),
        ) + "\nFilemark: "@ + yes_no(self.filemark) + "\nEnd of medium: "@ + yes_no(self.eom)
            + "\nIncorrect length: "@ + yes_no(self.ili)
    }

    /// The decoded fields, one to a line.
    pub fn to_text(&self) -> (text: String)
        ensures
            text@ == self.text(),
    {
        let mut text = String::from_str("Response code: ");
        append_decimal(&mut text, self.response_code as u64);
        text.append("\nSense key: ");
        append_optional_decimal(&mut text, self.sense_key);
        text.append("\nAdditional sense code: ");
        append_optional_decimal(&mut text, self.additional_sense_code);
        text.append("\nAdditional sense code qualifier: ");
        append_optional_decimal(&mut text, self.additional_sense_code_qualifier);
        text.append("\nInformation valid: ");
        append_yes_no(&mut text, self.valid);
        text.append("\nInformation: ");
        append_decimal(&mut text, self.information_number());
        text.append("\nFilemark: ");
        append_yes_no(&mut text, self.filemark);
        text.append("\nEnd of medium: ");
        append_yes_no(&mut text, self.eom);
        text.append("\nIncorrect length: ");
        append_yes_no(&mut text, self.ili);
        text
    }

    /// The information field as a number.
    pub fn information_number(&self) -> (n: u64)
        ensures
            n == self.information_value(),
    {
        read_be64(self.information.as_slice(), 0)
    }
}

/// The number of leading bytes of `buf` that belong to the sense data.
fn sense_extent(buf: &[u8]) -> (end: usize)
    ensures
        end == extent(buf@),
        end <= buf.len(),
{
    if buf.len() < 8 {
        buf.len()
    } else {
        let declared: usize = 8 + buf[7] as usize;
        if declared < buf.len() {
            declared
        } else {
            buf.len()
        }
    }
}

/// The byte at `i`, if the sense data reaches it.
fn byte_at(buf: &[u8], end: usize, i: usize) -> (byte: Option<u8>)
    requires
        end == extent(buf@),
    ensures
        byte == field(buf@, i as int),
{
    if i < end {
        Some(buf[i])
    } else {
        None
    }
}

/// The low four bits of the byte at `i`, if the sense data reaches it.
fn nibble_at(buf: &[u8], end: usize, i: usize) -> (nibble: Option<u8>)
    requires
        end == extent(buf@),
    ensures
        nibble == low_nibble(buf@, i as int),
{
    if i < end {
        Some(low_bits(buf[i], 0x0F))
    } else {
        None
    }
}

/// Whether the bit `mask` of the byte at `i` is set.
fn bit_at(buf: &[u8], end: usize, i: usize, mask: u8) -> (set: bool)
    requires
        end == extent(buf@),
        crate::bytes::single_bit(mask),
    ensures
        set == field_bit(buf@, i as int, mask),
{
    i < end && bit_is_set(buf[i], mask)
}

/// Walks the descriptor chain for the first descriptor of type `kind` that
/// lies within the sense data with at least `size` bytes.
fn locate_descriptor(buf: &[u8], end: usize, kind: u8, size: usize) -> (found: Option<usize>)
    requires
        end == extent(buf@),
        2 <= size <= 255,
    ensures
        found matches Some(p) ==> find_descriptor(buf@, 8, kind, size as int) == Some(p as int)
            && 8 <= p && p + size <= end,
        found is None ==> find_descriptor(buf@, 8, kind, size as int) is None,
{
    let mut pos: usize = 8;
    while pos < end && end - pos >= 2
        invariant
            end == extent(buf@),
            end <= buf.len(),
            8 <= pos,
            2 <= size <= 255,
            find_descriptor(buf@, 8, kind, size as int) == find_descriptor(
                buf@,
                pos as int,
                kind,
                size as int,
            ),
        decreases remaining(buf@, pos as int),
    {
        let length: usize = 2 + buf[pos + 1] as usize;
        if buf[pos] == kind && length >= size && pos + size <= end {
            return Some(pos);
        }
        pos = pos + length;
    }
    None
}

} // verus!
