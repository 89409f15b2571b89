use crate::sense::Sense;
use crate::{Command, NoIO};
use vstd::prelude::*;

verus! {

/// PREVENT ALLOW MEDIUM REMOVAL: locks or unlocks the medium in the device.
#[derive(Debug)]
pub struct PreventAllowMediumRemoval {
    /// Whether removal is prevented, below 4.
    pub prevent: u8,
}

impl PreventAllowMediumRemoval {
    pub const OP_CODE: u8 = 0x1E;

    pub const ALLOWED: u8 = 0x0;

    pub const PREVENTED: u8 = 0x1;

    /// A command with every flag clear and every number zero.
    pub fn new() -> (command: PreventAllowMediumRemoval)
        ensures
            command == (PreventAllowMediumRemoval { prevent: 0 }),
    {
        PreventAllowMediumRemoval { prevent: 0 }
    }
}

impl Default for PreventAllowMediumRemoval {
    fn default() -> (command: PreventAllowMediumRemoval)
        ensures
            command == (PreventAllowMediumRemoval { prevent: 0 }),
    {
        PreventAllowMediumRemoval::new()
    }
}

impl NoIO for PreventAllowMediumRemoval {

}

impl Command for PreventAllowMediumRemoval {
    open spec fn valid(&self) -> bool {
        self.prevent < 4
    }

    open spec fn cdb(&self) -> Seq<u8> {
        seq![
            0x1Eu8,
            0u8,
            0u8,
            0u8,
            self.prevent,
            0u8,
        ]
    }

    open spec fn rejection(&self) -> Seq<char> {
        "Prevent must be in the range 0..4"@
    }

    open spec fn op_code(&self) -> u8 {
        0x1E
    }

    open spec fn cdb_len(&self) -> nat {
        6
    }

    open spec fn sense_text(&self, sense: &Sense) -> Seq<char> {
        Seq::empty()
    }

    proof fn cdb_shape(&self) {
    }

    fn to_bytes(&self) -> (bytes: Result<Vec<u8>, &'static str>) {
        if self.prevent >= 4 {
            return Err("Prevent must be in the range 0..4");
        }
        let block = vec![
            Self::OP_CODE,
            0,
            0,
            0,
            self.prevent,
            0,
        ];
        assert(block@ =~= self.cdb());
        Ok(block)
    }

    fn parse_sense(&self, sense: &Sense) -> (text: String) {
        String::new()
    }
}

} // verus!
