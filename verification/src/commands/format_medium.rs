use crate::bytes::{byte, byte_of_u16, flag, flag_bit, octet_u16};
use crate::sense::Sense;
use crate::{Command, Input};
use vstd::prelude::*;

verus! {

/// FORMAT MEDIUM: prepares the medium for use.
#[derive(Debug)]
pub struct FormatMedium {
    /// Verify the format afterwards.
    pub verify: bool,
    /// Report completion at once.
    pub immed: bool,
    /// The kind of format, below 16.
    pub format: u8,
    /// The length of the parameter data.
    pub transfer_length: u16,
}

impl FormatMedium {
    pub const OP_CODE: u8 = 0x04;

    pub const DEFAULT: u8 = 0x0;

    pub const PARTITION_VOLUME: u8 = 0x1;

    pub const DEFAULT_THEN_PARTITION: u8 = 0x2;

    /// A command with every flag clear and every number zero.
    pub fn new() -> (command: FormatMedium)
        ensures
            command == (FormatMedium {
                verify: false,
                immed: false,
                format: 0,
                transfer_length: 0,
            }),
    {
        FormatMedium { verify: false, immed: false, format: 0, transfer_length: 0 }
    }
}

impl Default for FormatMedium {
    fn default() -> (command: FormatMedium)
        ensures
            command == (FormatMedium {
                verify: false,
                immed: false,
                format: 0,
                transfer_length: 0,
            }),
    {
        FormatMedium::new()
    }
}

impl Input for FormatMedium {

}

impl Command for FormatMedium {
    open spec fn valid(&self) -> bool {
        self.format < 16
    }

    open spec fn cdb(&self) -> Seq<u8> {
        seq![
            0x04u8,
            byte(flag(self.verify, 0x02) + flag(self.immed, 0x01)),
            self.format,
            octet_u16(self.transfer_length, 1),
            octet_u16(self.transfer_length, 0),
            0u8,
        ]
    }

    open spec fn rejection(&self) -> Seq<char> {
        "Format must be in the range 0..16"@
    }

    open spec fn op_code(&self) -> u8 {
        0x04
    }

    open spec fn cdb_len(&self) -> nat {
        6
    }

    open spec fn sense_text(&self, sense: &Sense) -> Seq<char> {
        Seq::empty()
    }

    proof fn cdb_shape(&self) {
    }

    fn to_bytes(&self) -> (bytes: Result<Vec<u8>, &'static str>) {
        if self.format >= 16 {
            return Err("Format must be in the range 0..16");
        }
        let verify = flag_bit(self.verify, 0x02);
        let immed = flag_bit(self.immed, 0x01);
        let flags = verify | immed;
        assert(flags == verify + immed) by (bit_vector)
            requires
                flags == verify | immed,
                verify == 0x02 || verify == 0,
                immed == 0x01 || immed == 0,
        ;
        let block = vec![
            Self::OP_CODE,
            flags,
            self.format,
            byte_of_u16(self.transfer_length, 1),
            byte_of_u16(self.transfer_length, 0),
            0,
        ];
        assert(block@ =~= self.cdb());
        Ok(block)
    }

    fn parse_sense(&self, sense: &Sense) -> (text: String) {
        String::new()
    }
}

} // verus!
