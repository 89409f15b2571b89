use crate::bytes::{byte, byte_of_u32, flag, flag_bit, octet_u32};
use crate::sense::Sense;
use crate::{Command, NoIO};
use vstd::prelude::*;

verus! {

/// LOCATE(10): positions the medium at a logical object.
#[derive(Debug)]
pub struct Locate10 {
    /// The identifier is vendor-specific.
    pub bt: bool,
    /// Change to `partition` first.
    pub cp: bool,
    /// Report completion at once.
    pub immed: bool,
    /// Where to position.
    pub logical_object_identifier: u32,
    /// The partition to change to.
    pub partition: u8,
}

impl Locate10 {
    pub const OP_CODE: u8 = 0x2B;

    /// A command with every flag clear and every number zero.
    pub fn new() -> (command: Locate10)
        ensures
            command == (Locate10 {
                bt: false,
                cp: false,
                immed: false,
                logical_object_identifier: 0,
                partition: 0,
            }),
    {
        Locate10 { bt: false, cp: false, immed: false, logical_object_identifier: 0, partition: 0 }
    }
}

impl Default for Locate10 {
    fn default() -> (command: Locate10)
        ensures
            command == (Locate10 {
                bt: false,
                cp: false,
                immed: false,
                logical_object_identifier: 0,
                partition: 0,
            }),
    {
        Locate10::new()
    }
}

impl NoIO for Locate10 {

}

impl Command for Locate10 {
    open spec fn valid(&self) -> bool {
        true
    }

    open spec fn cdb(&self) -> Seq<u8> {
        seq![
            0x2Bu8,
            byte(flag(self.bt, 0x04) + flag(self.cp, 0x02) + flag(self.immed, 0x01)),
            0u8,
            octet_u32(self.logical_object_identifier, 3),
            octet_u32(self.logical_object_identifier, 2),
            octet_u32(self.logical_object_identifier, 1),
            octet_u32(self.logical_object_identifier, 0),
            0u8,
            self.partition,
            0u8,
        ]
    }

    open spec fn rejection(&self) -> Seq<char> {
        Seq::empty()
    }

    open spec fn op_code(&self) -> u8 {
        0x2B
    }

    open spec fn cdb_len(&self) -> nat {
        10
    }

    open spec fn sense_text(&self, sense: &Sense) -> Seq<char> {
        Seq::empty()
    }

    proof fn cdb_shape(&self) {
    }

    fn to_bytes(&self) -> (bytes: Result<Vec<u8>, &'static str>) {
        let bt = flag_bit(self.bt, 0x04);
        let cp = flag_bit(self.cp, 0x02);
        let immed = flag_bit(self.immed, 0x01);
        let flags = bt | cp | immed;
        assert(flags == bt + cp + immed) by (bit_vector)
            requires
                flags == bt | cp | immed,
                bt == 0x04 || bt == 0,
                cp == 0x02 || cp == 0,
                immed == 0x01 || immed == 0,
        ;
        let block = vec![
            Self::OP_CODE,
            flags,
            0,
            byte_of_u32(self.logical_object_identifier, 3),
            byte_of_u32(self.logical_object_identifier, 2),
            byte_of_u32(self.logical_object_identifier, 1),
            byte_of_u32(self.logical_object_identifier, 0),
            0,
            self.partition,
            0,
        ];
        assert(block@ =~= self.cdb());
        Ok(block)
    }

    fn parse_sense(&self, sense: &Sense) -> (text: String) {
        String::new()
    }
}

} // verus!
