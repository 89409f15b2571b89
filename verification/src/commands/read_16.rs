use crate::bytes::{byte, byte_of_u32, byte_of_u64, flag, flag_bit, octet_u32, octet_u64};
use crate::sense::Sense;
use crate::{Command, Output};
use vstd::prelude::*;

verus! {

/// READ(16): reads blocks from a given position.
#[derive(Debug)]
pub struct Read16 {
    /// Suppress the incorrect-length indicator.
    pub sili: bool,
    /// Transfer fixed-size blocks.
    pub fixed: bool,
    /// The partition to read in.
    pub partition: u8,
    /// Where to start.
    pub logical_object_identifier: u64,
    /// Bytes or blocks to transfer, below 2^24.
    pub transfer_length: u32,
}

impl Read16 {
    pub const OP_CODE: u8 = 0x88;

    /// A command with every flag clear and every number zero.
    pub fn new() -> (command: Read16)
        ensures
            command == (Read16 {
                sili: false,
                fixed: false,
                partition: 0,
                logical_object_identifier: 0,
                transfer_length: 0,
            }),
    {
        Read16 {
            sili: false,
            fixed: false,
            partition: 0,
            logical_object_identifier: 0,
            transfer_length: 0,
        }
    }
}

impl Default for Read16 {
    fn default() -> (command: Read16)
        ensures
            command == (Read16 {
                sili: false,
                fixed: false,
                partition: 0,
                logical_object_identifier: 0,
                transfer_length: 0,
            }),
    {
        Read16::new()
    }
}

impl Output for Read16 {

}

impl Command for Read16 {
    open spec fn valid(&self) -> bool {
        self.transfer_length < 0x100_0000
    }

    open spec fn cdb(&self) -> Seq<u8> {
        seq![
            0x88u8,
            byte(flag(self.sili, 0x02) + flag(self.fixed, 0x01)),
            0u8,
            self.partition,
            octet_u64(self.logical_object_identifier, 7),
            octet_u64(self.logical_object_identifier, 6),
            octet_u64(self.logical_object_identifier, 5),
            octet_u64(self.logical_object_identifier, 4),
            octet_u64(self.logical_object_identifier, 3),
            octet_u64(self.logical_object_identifier, 2),
            octet_u64(self.logical_object_identifier, 1),
            octet_u64(self.logical_object_identifier, 0),
            octet_u32(self.transfer_length, 2),
            octet_u32(self.transfer_length, 1),
            octet_u32(self.transfer_length, 0),
            0u8,
        ]
    }

    open spec fn rejection(&self) -> Seq<char> {
        "Transfer length must be in the range 0..2^24"@
    }

    open spec fn op_code(&self) -> u8 {
        0x88
    }

    open spec fn cdb_len(&self) -> nat {
        16
    }

    open spec fn sense_text(&self, sense: &Sense) -> Seq<char> {
        Seq::empty()
    }

    proof fn cdb_shape(&self) {
    }

    fn to_bytes(&self) -> (bytes: Result<Vec<u8>, &'static str>) {
        if self.transfer_length >= 0x100_0000 {
            return Err("Transfer length must be in the range 0..2^24");
        }
        let sili = flag_bit(self.sili, 0x02);
        let fixed = flag_bit(self.fixed, 0x01);
        let flags = sili | fixed;
        assert(flags == sili + fixed) by (bit_vector)
            requires
                flags == sili | fixed,
                sili == 0x02 || sili == 0,
                fixed == 0x01 || fixed == 0,
        ;
        let block = vec![
            Self::OP_CODE,
            flags,
            0,
            self.partition,
            byte_of_u64(self.logical_object_identifier, 7),
            byte_of_u64(self.logical_object_identifier, 6),
            byte_of_u64(self.logical_object_identifier, 5),
            byte_of_u64(self.logical_object_identifier, 4),
            byte_of_u64(self.logical_object_identifier, 3),
            byte_of_u64(self.logical_object_identifier, 2),
            byte_of_u64(self.logical_object_identifier, 1),
            byte_of_u64(self.logical_object_identifier, 0),
            byte_of_u32(self.transfer_length, 2),
            byte_of_u32(self.transfer_length, 1),
            byte_of_u32(self.transfer_length, 0),
            0,
        ];
        assert(block@ =~= self.cdb());
        Ok(block)
    }

    fn parse_sense(&self, sense: &Sense) -> (text: String) {
        String::new()
    }
}

} // verus!
