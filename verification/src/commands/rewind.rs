use crate::bytes::{flag, flag_bit};
use crate::sense::Sense;
use crate::{Command, NoIO};
use vstd::prelude::*;

verus! {

/// REWIND: positions the medium at its beginning.
#[derive(Debug)]
pub struct Rewind {
    /// Report completion before the medium has stopped.
    pub immed: bool,
}

impl Rewind {
    pub const OP_CODE: u8 = 0x01;

    /// A command with every flag clear and every number zero.
    pub fn new() -> (command: Rewind)
        ensures
            command == (Rewind { immed: false }),
    {
        Rewind { immed: false }
    }
}

impl Default for Rewind {
    fn default() -> (command: Rewind)
        ensures
            command == (Rewind { immed: false }),
    {
        Rewind::new()
    }
}

impl NoIO for Rewind {

}

impl Command for Rewind {
    open spec fn valid(&self) -> bool {
        true
    }

    open spec fn cdb(&self) -> Seq<u8> {
        seq![
            0x01u8,
            flag(self.immed, 0x01),
            0u8,
            0u8,
            0u8,
            0u8,
        ]
    }

    open spec fn rejection(&self) -> Seq<char> {
        Seq::empty()
    }

    open spec fn op_code(&self) -> u8 {
        0x01
    }

    open spec fn cdb_len(&self) -> nat {
        6
    }

    open spec fn sense_text(&self, sense: &Sense) -> Seq<char> {
        Seq::empty()
    }

    proof fn cdb_shape(&self) {
    }

    fn to_bytes(&self) -> (bytes: Result<Vec<u8>, &'static str>) {
        let block = vec![
            Self::OP_CODE,
            flag_bit(self.immed, 0x01),
            0,
            0,
            0,
            0,
        ];
        assert(block@ =~= self.cdb());
        Ok(block)
    }

    fn parse_sense(&self, sense: &Sense) -> (text: String) {
        String::new()
    }
}

} // verus!
