use crate::bytes::{byte, byte_of_u32, flag, flag_bit, octet_u32};
use crate::sense::Sense;
use crate::{Command, Output};
use vstd::prelude::*;

verus! {

/// RECOVER BUFFERED DATA: reads back data that never reached the medium.
#[derive(Debug)]
pub struct RecoverBufferedData {
    /// Suppress the incorrect-length indicator.
    pub sili: bool,
    /// Transfer fixed-size blocks.
    pub fixed: bool,
    /// Bytes or blocks to transfer, below 2^24.
    pub transfer_length: u32,
}

impl RecoverBufferedData {
    pub const OP_CODE: u8 = 0x14;

    /// A command with every flag clear and every number zero.
    pub fn new() -> (command: RecoverBufferedData)
        ensures
            command == (RecoverBufferedData { sili: false, fixed: false, transfer_length: 0 }),
    {
        RecoverBufferedData { sili: false, fixed: false, transfer_length: 0 }
    }
}

impl Default for RecoverBufferedData {
    fn default() -> (command: RecoverBufferedData)
        ensures
            command == (RecoverBufferedData { sili: false, fixed: false, transfer_length: 0 }),
    {
        RecoverBufferedData::new()
    }
}

impl Output for RecoverBufferedData {

}

impl Command for RecoverBufferedData {
    open spec fn valid(&self) -> bool {
        self.transfer_length < 0x100_0000
    }

    open spec fn cdb(&self) -> Seq<u8> {
        seq![
            0x14u8,
            byte(flag(self.sili, 0x02) + flag(self.fixed, 0x01)),
            octet_u32(self.transfer_length, 2),
            octet_u32(self.transfer_length, 1),
            octet_u32(self.transfer_length, 0),
            0u8,
        ]
    }

    open spec fn rejection(&self) -> Seq<char> {
        "Transfer length must be in the range 0..2^24"@
    }

    open spec fn op_code(&self) -> u8 {
        0x14
    }

    open spec fn cdb_len(&self) -> nat {
        6
    }

    open spec fn sense_text(&self, sense: &Sense) -> Seq<char> {
        Seq::empty()
    }

    proof fn cdb_shape(&self) {
    }

    fn to_bytes(&self) -> (bytes: Result<Vec<u8>, &'static str>) {
        if self.transfer_length >= 0x100_0000 {
            return Err("Transfer length must be in the range 0..2^24");
        }
        let sili = flag_bit(self.sili, 0x02);
        let fixed = flag_bit(self.fixed, 0x01);
        let flags = sili | fixed;
        assert(flags == sili + fixed) by (bit_vector)
            requires
                flags == sili | fixed,
                sili == 0x02 || sili == 0,
                fixed == 0x01 || fixed == 0,
        ;
        let block = vec![
            Self::OP_CODE,
            flags,
            byte_of_u32(self.transfer_length, 2),
            byte_of_u32(self.transfer_length, 1),
            byte_of_u32(self.transfer_length, 0),
            0,
        ];
        assert(block@ =~= self.cdb());
        Ok(block)
    }

    fn parse_sense(&self, sense: &Sense) -> (text: String) {
        String::new()
    }
}

} // verus!
