use crate::bytes::{be24, be32, be64, bit_is_set, has_bit, read_be24, read_be32, read_be64};
use crate::sense::Sense;
use crate::{Command, Output};
use vstd::prelude::*;

verus! {

/// READ POSITION: asks where the medium is positioned.
#[derive(Debug)]
pub struct ReadPosition {
    /// The form of the answer, below 32.
    pub service_action: u8,
    /// The room for the answer. The command block does not carry it.
    pub allocation_length: u16,
}

/// What READ POSITION returns, by the form that was asked for.
#[derive(Debug, PartialEq, Eq, Structural)]
pub enum ReadPositionOutput {
    ShortForm(ReadPositionOutputShortForm),
    LongForm(ReadPositionOutputLongForm),
    ExtendedForm(ReadPositionOutputExtendedForm),
}

/// The short form of a position: 20 bytes.
#[derive(Debug, PartialEq, Eq, Structural)]
pub struct ReadPositionOutputShortForm {
    /// At the beginning of the partition.
    pub bop: bool,
    /// At the end of the partition.
    pub eop: bool,
    /// The count of logical objects in the buffer is unknown.
    pub locu: bool,
    /// The count of bytes in the buffer is unknown.
    pub bycu: bool,
    /// A reserved bit of the layout.
    pub rsvd: bool,
    /// The logical object locations are unknown.
    pub lolu: bool,
    /// Beyond the programmable early warning.
    pub bpew: bool,
    pub partition_number: u8,
    pub first_logical_object_location: u32,
    pub last_logical_object_location: u32,
    pub number_of_logical_objects_in_object_buffer: u32,
    pub number_of_bytes_in_object_buffer: u32,
}

/// The long form of a position: 32 bytes.
#[derive(Debug, PartialEq, Eq, Structural)]
pub struct ReadPositionOutputLongForm {
    /// At the beginning of the partition.
    pub bop: bool,
    /// At the end of the partition.
    pub eop: bool,
    /// The logical file identifier is unknown.
    pub mpu: bool,
    /// The logical object number is unknown.
    pub lonu: bool,
    /// A reserved bit of the layout.
    pub rsvd: bool,
    /// Beyond the programmable early warning.
    pub bpew: bool,
    pub partition_number: u32,
    pub logical_object_number: u64,
    pub logical_file_identifier: u64,
}

/// The extended form of a position: 32 bytes.
#[derive(Debug, PartialEq, Eq, Structural)]
pub struct ReadPositionOutputExtendedForm {
    /// At the beginning of the partition.
    pub bop: bool,
    /// At the end of the partition.
    pub eop: bool,
    /// The count of logical objects in the buffer is unknown.
    pub locu: bool,
    /// The count of bytes in the buffer is unknown.
    pub bycu: bool,
    /// A reserved bit of the layout.
    pub rsvd: bool,
    /// The logical object locations are unknown.
    pub lolu: bool,
    /// Beyond the programmable early warning.
    pub bpew: bool,
    pub partition_number: u8,
    pub number_of_logical_objects_in_object_buffer: u32,
    pub first_logical_object_location: u64,
    pub last_logical_object_location: u64,
    pub number_of_bytes_in_object_buffer: u64,
}

impl ReadPosition {
    pub const OP_CODE: u8 = 0x34;

    pub const SHORT_FORM_BLOCK: u8 = 0x0;

    pub const SHORT_FORM_VENDOR: u8 = 0x1;

    pub const LONG_FORM: u8 = 0x6;

    pub const EXTENDED_FORM: u8 = 0x8;

    pub const SHORT_FORM_LEN: u16 = 20;

    pub const LONG_FORM_LEN: u16 = 32;

    pub const EXTENDED_FORM_LEN: u16 = 32;

    /// A command that asks for the short form.
    pub fn new() -> (command: ReadPosition)
        ensures
            command == (ReadPosition { service_action: 0, allocation_length: 0 }),
    {
        ReadPosition { service_action: 0, allocation_length: 0 }
    }

    /// The length of the form that the service action asks for; zero for a
    /// service action without a known form.
    pub open spec fn required_len(&self) -> nat {
        if self.service_action == 0 || self.service_action == 1 {
            20
        } else if self.service_action == 6 || self.service_action == 8 {
            32
        } else {
            0
        }
    }

    /// Whether the service action asks for a form that can be decoded.
    pub open spec fn known_form(&self) -> bool {
        self.service_action == 0 || self.service_action == 1 || self.service_action == 6
            || self.service_action == 8
    }

    /// The short form in the first 20 bytes of `s`.
    pub open spec fn short_form(s: Seq<u8>) -> ReadPositionOutputShortForm {
        ReadPositionOutputShortForm {
            bop: has_bit(s[0], 0x80),
            eop: has_bit(s[0], 0x40),
            locu: has_bit(s[0], 0x20),
            bycu: has_bit(s[0], 0x10),
            rsvd: has_bit(s[0], 0x08),
            lolu: has_bit(s[0], 0x04),
            bpew: has_bit(s[0], 0x01),
            partition_number: s[1],
            first_logical_object_location: be32(s, 4) as u32,
            last_logical_object_location: be32(s, 8) as u32,
            number_of_logical_objects_in_object_buffer: be24(s, 13) as u32,
            number_of_bytes_in_object_buffer: be32(s, 16) as u32,
        }
    }

    /// The long form in the first 32 bytes of `s`.
    pub open spec fn long_form(s: Seq<u8>) -> ReadPositionOutputLongForm {
        ReadPositionOutputLongForm {
            bop: has_bit(s[0], 0x80),
            eop: has_bit(s[0], 0x40),
            mpu: has_bit(s[0], 0x08),
            lonu: has_bit(s[0], 0x04),
            rsvd: has_bit(s[0], 0x02),
            bpew: has_bit(s[0], 0x01),
            partition_number: be32(s, 4) as u32,
            logical_object_number: be64(s, 8) as u64,
            logical_file_identifier: be64(s, 16) as u64,
        }
    }

    /// The extended form in the first 32 bytes of `s`.
    pub open spec fn extended_form(s: Seq<u8>) -> ReadPositionOutputExtendedForm {
        ReadPositionOutputExtendedForm {
            bop: has_bit(s[0], 0x80),
            eop: has_bit(s[0], 0x40),
            locu: has_bit(s[0], 0x20),
            bycu: has_bit(s[0], 0x10),
            rsvd: has_bit(s[0], 0x08),
            lolu: has_bit(s[0], 0x04),
            bpew: has_bit(s[0], 0x01),
            partition_number: s[1],
            number_of_logical_objects_in_object_buffer: be24(s, 5) as u32,
            first_logical_object_location: be64(s, 8) as u64,
            last_logical_object_location: be64(s, 16) as u64,
            number_of_bytes_in_object_buffer: be64(s, 24) as u64,
        }
    }

    /// What a returned buffer decodes to: nothing if the form is not known or
    /// the buffer is shorter than the form.
    pub open spec fn parsed(&self, s: Seq<u8>) -> Option<ReadPositionOutput> {
        if !self.known_form() || s.len() < self.required_len() {
            None
        } else if self.service_action == 6 {
            Some(ReadPositionOutput::LongForm(Self::long_form(s)))
        } else if self.service_action == 8 {
            Some(ReadPositionOutput::ExtendedForm(Self::extended_form(s)))
        } else {
            Some(ReadPositionOutput::ShortForm(Self::short_form(s)))
        }
    }

    /// The length of the form that the service action asks for; zero for a
    /// service action without a known form.
    pub fn output_len(&self) -> (len: u16)
        ensures
            len == self.required_len(),
    {
        if self.service_action == Self::SHORT_FORM_BLOCK || self.service_action
            == Self::SHORT_FORM_VENDOR {
            Self::SHORT_FORM_LEN
        } else if self.service_action == Self::LONG_FORM {
            Self::LONG_FORM_LEN
        } else if self.service_action == Self::EXTENDED_FORM {
            Self::EXTENDED_FORM_LEN
        } else {
            0
        }
    }

    /// Decodes the returned data in the form that the service action asked
    /// for. A service action without a known form, or a buffer shorter than
    /// the form, gives nothing; bytes after the form are ignored.
    pub fn parse_buffer(&self, buf: &[u8]) -> (output: Option<ReadPositionOutput>)
        ensures
            output == self.parsed(buf@),
            output is Some <==> self.known_form() && buf.len() >= self.required_len(),
    {
        if self.service_action == Self::SHORT_FORM_BLOCK || self.service_action
            == Self::SHORT_FORM_VENDOR {
            if buf.len() < 20 {
                return None;
            }
            Some(
                ReadPositionOutput::ShortForm(
                    ReadPositionOutputShortForm {
                        bop: bit_is_set(buf[0], 0x80),
                        eop: bit_is_set(buf[0], 0x40),
                        locu: bit_is_set(buf[0], 0x20),
                        bycu: bit_is_set(buf[0], 0x10),
                        rsvd: bit_is_set(buf[0], 0x08),
                        lolu: bit_is_set(buf[0], 0x04),
                        bpew: bit_is_set(buf[0], 0x01),
                        partition_number: buf[1],
                        first_logical_object_location: read_be32(buf, 4),
                        last_logical_object_location: read_be32(buf, 8),
                        number_of_logical_objects_in_object_buffer: read_be24(buf, 13),
                        number_of_bytes_in_object_buffer: read_be32(buf, 16),
                    },
                ),
            )
        } else if self.service_action == Self::LONG_FORM {
            if buf.len() < 32 {
                return None;
            }
            Some(
                ReadPositionOutput::LongForm(
                    ReadPositionOutputLongForm {
                        bop: bit_is_set(buf[0], 0x80),
                        eop: bit_is_set(buf[0], 0x40),
                        mpu: bit_is_set(buf[0], 0x08),
                        lonu: bit_is_set(buf[0], 0x04),
                        rsvd: bit_is_set(buf[0], 0x02),
                        bpew: bit_is_set(buf[0], 0x01),
                        partition_number: read_be32(buf, 4),
                        logical_object_number: read_be64(buf, 8),
                        logical_file_identifier: read_be64(buf, 16),
                    },
                ),
            )
        } else if self.service_action == Self::EXTENDED_FORM {
            if buf.len() < 32 {
                return None;
            }
            Some(
                ReadPositionOutput::ExtendedForm(
                    ReadPositionOutputExtendedForm {
                        bop: bit_is_set(buf[0], 0x80),
                        eop: bit_is_set(buf[0], 0x40),
                        locu: bit_is_set(buf[0], 0x20),
                        bycu: bit_is_set(buf[0], 0x10),
                        rsvd: bit_is_set(buf[0], 0x08),
                        lolu: bit_is_set(buf[0], 0x04),
                        bpew: bit_is_set(buf[0], 0x01),
                        partition_number: buf[1],
                        number_of_logical_objects_in_object_buffer: read_be24(buf, 5),
                        first_logical_object_location: read_be64(buf, 8),
                        last_logical_object_location: read_be64(buf, 16),
                        number_of_bytes_in_object_buffer: read_be64(buf, 24),
                    },
                ),
            )
        } else {
            None
        }
    }
}

impl Default for ReadPosition {
    fn default() -> (command: ReadPosition)
        ensures
            command == (ReadPosition { service_action: 0, allocation_length: 0 }),
    {
        ReadPosition::new()
    }
}

impl Output for ReadPosition {

}

impl Command for ReadPosition {
    open spec fn valid(&self) -> bool {
        self.service_action < 32
    }

    open spec fn cdb(&self) -> Seq<u8> {
        seq![0x34u8, self.service_action, 0u8, 0u8, 0u8, 0u8, 0u8, 0u8, 0u8, 0u8]
    }

    open spec fn rejection(&self) -> Seq<char> {
        "Service action must be in the range 0..32"@
    }

    open spec fn op_code(&self) -> u8 {
        0x34
    }

    open spec fn cdb_len(&self) -> nat {
        10
    }

    open spec fn sense_text(&self, sense: &Sense) -> Seq<char> {
        Seq::empty()
    }

    proof fn cdb_shape(&self) {
    }

    fn to_bytes(&self) -> (bytes: Result<Vec<u8>, &'static str>) {
        if self.service_action >= 32 {
            return Err("Service action must be in the range 0..32");
        }
        let block = vec![Self::OP_CODE, self.service_action, 0, 0, 0, 0, 0, 0, 0, 0];
        assert(block@ =~= self.cdb());
        Ok(block)
    }

    fn parse_sense(&self, sense: &Sense) -> (text: String) {
        String::new()
    }
}

} // verus!
