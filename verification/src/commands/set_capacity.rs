use crate::bytes::{byte_of_u16, flag, flag_bit, octet_u16};
use crate::sense::Sense;
use crate::{Command, NoIO};
use vstd::prelude::*;

verus! {

/// SET CAPACITY: sets the share of the medium that is used.
#[derive(Debug)]
pub struct SetCapacity {
    /// Report completion at once.
    pub immed: bool,
    /// The share of the medium to use, in 65535ths.
    pub medium_for_proportion_value: u16,
}

impl SetCapacity {
    pub const OP_CODE: u8 = 0x0B;

    /// A command with every flag clear and every number zero.
    pub fn new() -> (command: SetCapacity)
        ensures
            command == (SetCapacity { immed: false, medium_for_proportion_value: 0 }),
    {
        SetCapacity { immed: false, medium_for_proportion_value: 0 }
    }
}

impl Default for SetCapacity {
    fn default() -> (command: SetCapacity)
        ensures
            command == (SetCapacity { immed: false, medium_for_proportion_value: 0 }),
    {
        SetCapacity::new()
    }
}

impl NoIO for SetCapacity {

}

impl Command for SetCapacity {
    open spec fn valid(&self) -> bool {
        true
    }

    open spec fn cdb(&self) -> Seq<u8> {
        seq![
            0x0Bu8,
            flag(self.immed, 0x01),
            0u8,
            octet_u16(self.medium_for_proportion_value, 1),
            octet_u16(self.medium_for_proportion_value, 0),
            0u8,
        ]
    }

    open spec fn rejection(&self) -> Seq<char> {
        Seq::empty()
    }

    open spec fn op_code(&self) -> u8 {
        0x0B
    }

    open spec fn cdb_len(&self) -> nat {
        6
    }

    open spec fn sense_text(&self, sense: &Sense) -> Seq<char> {
        Seq::empty()
    }

    proof fn cdb_shape(&self) {
    }

    fn to_bytes(&self) -> (bytes: Result<Vec<u8>, &'static str>) {
        let block = vec![
            Self::OP_CODE,
            flag_bit(self.immed, 0x01),
            0,
            byte_of_u16(self.medium_for_proportion_value, 1),
            byte_of_u16(self.medium_for_proportion_value, 0),
            0,
        ];
        assert(block@ =~= self.cdb());
        Ok(block)
    }

    fn parse_sense(&self, sense: &Sense) -> (text: String) {
        String::new()
    }
}

} // verus!
