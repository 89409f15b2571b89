use crate::bytes::{byte_of_u32, flag, flag_bit, octet_u32};
use crate::sense::Sense;
use crate::{Command, NoIO};
use vstd::prelude::*;

verus! {

/// WRITE FILEMARKS(6): writes filemarks at the current position.
#[derive(Debug)]
pub struct WriteFilemarks6 {
    /// Report completion at once.
    pub immed: bool,
    /// Filemarks to write, below 2^24.
    pub filemark_count: u32,
}

impl WriteFilemarks6 {
    pub const OP_CODE: u8 = 0x10;

    /// A command with every flag clear and every number zero.
    pub fn new() -> (command: WriteFilemarks6)
        ensures
            command == (WriteFilemarks6 { immed: false, filemark_count: 0 }),
    {
        WriteFilemarks6 { immed: false, filemark_count: 0 }
    }
}

impl Default for WriteFilemarks6 {
    fn default() -> (command: WriteFilemarks6)
        ensures
            command == (WriteFilemarks6 { immed: false, filemark_count: 0 }),
    {
        WriteFilemarks6::new()
    }
}

impl NoIO for WriteFilemarks6 {

}

impl Command for WriteFilemarks6 {
    open spec fn valid(&self) -> bool {
        self.filemark_count < 0x100_0000
    }

    open spec fn cdb(&self) -> Seq<u8> {
        seq![
            0x10u8,
            flag(self.immed, 0x01),
            octet_u32(self.filemark_count, 2),
            octet_u32(self.filemark_count, 1),
            octet_u32(self.filemark_count, 0),
            0u8,
        ]
    }

    open spec fn rejection(&self) -> Seq<char> {
        "Filemark count must be in the range 0..2^24"@
    }

    open spec fn op_code(&self) -> u8 {
        0x10
    }

    open spec fn cdb_len(&self) -> nat {
        6
    }

    open spec fn sense_text(&self, sense: &Sense) -> Seq<char> {
        Seq::empty()
    }

    proof fn cdb_shape(&self) {
    }

    fn to_bytes(&self) -> (bytes: Result<Vec<u8>, &'static str>) {
        if self.filemark_count >= 0x100_0000 {
            return Err("Filemark count must be in the range 0..2^24");
        }
        let block = vec![
            Self::OP_CODE,
            flag_bit(self.immed, 0x01),
            byte_of_u32(self.filemark_count, 2),
            byte_of_u32(self.filemark_count, 1),
            byte_of_u32(self.filemark_count, 0),
            0,
        ];
        assert(block@ =~= self.cdb());
        Ok(block)
    }

    fn parse_sense(&self, sense: &Sense) -> (text: String) {
        String::new()
    }
}

} // verus!
