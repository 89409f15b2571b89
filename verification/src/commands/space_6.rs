use crate::bytes::{byte_of_u32, octet_u32};
use crate::sense::Sense;
use crate::{Command, NoIO};
use vstd::prelude::*;

verus! {

/// SPACE(6): moves over blocks, filemarks or to the end of data.
#[derive(Debug)]
pub struct Space6 {
    /// What to count, below 16.
    pub code: u8,
    /// How many to move over, below 2^24.
    pub count: u32,
}

impl Space6 {
    pub const OP_CODE: u8 = 0x11;

    pub const LOGICAL_BLOCKS: u8 = 0x0;

    pub const FILEMARKS: u8 = 0x1;

    pub const SEQUENTIAL_FILEMARKS: u8 = 0x2;

    pub const END_OF_DATA: u8 = 0x3;

    /// A command with every flag clear and every number zero.
    pub fn new() -> (command: Space6)
        ensures
            command == (Space6 { code: 0, count: 0 }),
    {
        Space6 { code: 0, count: 0 }
    }
}

impl Default for Space6 {
    fn default() -> (command: Space6)
        ensures
            command == (Space6 { code: 0, count: 0 }),
    {
        Space6::new()
    }
}

impl NoIO for Space6 {

}

impl Command for Space6 {
    open spec fn valid(&self) -> bool {
        self.code < 16 && self.count < 0x100_0000
    }

    open spec fn cdb(&self) -> Seq<u8> {
        seq![
            0x11u8,
            self.code,
            octet_u32(self.count, 2),
            octet_u32(self.count, 1),
            octet_u32(self.count, 0),
            0u8,
        ]
    }

    open spec fn rejection(&self) -> Seq<char> {
        if self.code >= 16 {
            "Code must be in the range 0..16"@
        } else {
            "Count must be in the range 0..2^24"@
        }
    }

    open spec fn op_code(&self) -> u8 {
        0x11
    }

    open spec fn cdb_len(&self) -> nat {
        6
    }

    open spec fn sense_text(&self, sense: &Sense) -> Seq<char> {
        Seq::empty()
    }

    proof fn cdb_shape(&self) {
    }

    fn to_bytes(&self) -> (bytes: Result<Vec<u8>, &'static str>) {
        if self.code >= 16 {
            return Err("Code must be in the range 0..16");
        }
        if self.count >= 0x100_0000 {
            return Err("Count must be in the range 0..2^24");
        }
        let block = vec![
            Self::OP_CODE,
            self.code,
            byte_of_u32(self.count, 2),
            byte_of_u32(self.count, 1),
            byte_of_u32(self.count, 0),
            0,
        ];
        assert(block@ =~= self.cdb());
        Ok(block)
    }

    fn parse_sense(&self, sense: &Sense) -> (text: String) {
        String::new()
    }
}

} // verus!
