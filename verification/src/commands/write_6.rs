use crate::bytes::{byte_of_u32, flag, flag_bit, octet_u32};
use crate::sense::Sense;
use crate::{Command, Input};
use vstd::prelude::*;

verus! {

/// WRITE(6): writes blocks at the current position.
#[derive(Debug)]
pub struct Write6 {
    /// Transfer fixed-size blocks.
    pub fixed: bool,
    /// Bytes or blocks to transfer, below 2^24.
    pub transfer_length: u32,
}

impl Write6 {
    pub const OP_CODE: u8 = 0x0A;

    /// A command with every flag clear and every number zero.
    pub fn new() -> (command: Write6)
        ensures
            command == (Write6 { fixed: false, transfer_length: 0 }),
    {
        Write6 { fixed: false, transfer_length: 0 }
    }
}

impl Default for Write6 {
    fn default() -> (command: Write6)
        ensures
            command == (Write6 { fixed: false, transfer_length: 0 }),
    {
        Write6::new()
    }
}

impl Input for Write6 {

}

impl Command for Write6 {
    open spec fn valid(&self) -> bool {
        self.transfer_length < 0x100_0000
    }

    open spec fn cdb(&self) -> Seq<u8> {
        seq![
            0x0Au8,
            flag(self.fixed, 0x01),
            octet_u32(self.transfer_length, 2),
            octet_u32(self.transfer_length, 1),
            octet_u32(self.transfer_length, 0),
            0u8,
        ]
    }

    open spec fn rejection(&self) -> Seq<char> {
        "Transfer length must be in the range 0..2^24"@
    }

    open spec fn op_code(&self) -> u8 {
        0x0A
    }

    open spec fn cdb_len(&self) -> nat {
        6
    }

    open spec fn sense_text(&self, sense: &Sense) -> Seq<char> {
        Seq::empty()
    }

    proof fn cdb_shape(&self) {
    }

    fn to_bytes(&self) -> (bytes: Result<Vec<u8>, &'static str>) {
        if self.transfer_length >= 0x100_0000 {
            return Err("Transfer length must be in the range 0..2^24");
        }
        let block = vec![
            Self::OP_CODE,
            flag_bit(self.fixed, 0x01),
            byte_of_u32(self.transfer_length, 2),
            byte_of_u32(self.transfer_length, 1),
            byte_of_u32(self.transfer_length, 0),
            0,
        ];
        assert(block@ =~= self.cdb());
        Ok(block)
    }

    fn parse_sense(&self, sense: &Sense) -> (text: String) {
        String::new()
    }
}

} // verus!
