use crate::bytes::{byte, byte_of_u64, flag, flag_bit, octet_u64};
use crate::sense::Sense;
use crate::{Command, NoIO};
use vstd::prelude::*;

verus! {

/// LOCATE(16): positions the medium at a logical object or file.
#[derive(Debug)]
pub struct Locate16 {
    /// What the identifier names, below 8.
    pub dest_type: u8,
    /// A reserved bit of the layout.
    pub rsvd: bool,
    /// Change to `partition` first.
    pub cp: bool,
    /// Report completion at once.
    pub immed: bool,
    /// Take the partition from the block address mode.
    pub bam: bool,
    /// The partition to change to.
    pub partition: u8,
    /// Where to position.
    pub logical_object_identifier: u64,
}

impl Locate16 {
    pub const OP_CODE: u8 = 0x92;

    pub const LOGICAL_OBJECT_IDENTIFIER: u8 = 0x0;

    pub const LOGICAL_FILE_IDENTIFIER: u8 = 0x1;

    pub const END_OF_DATA: u8 = 0x3;

    /// A command with every flag clear and every number zero.
    pub fn new() -> (command: Locate16)
        ensures
            command == (Locate16 {
                dest_type: 0,
                rsvd: false,
                cp: false,
                immed: false,
                bam: false,
                partition: 0,
                logical_object_identifier: 0,
            }),
    {
        Locate16 {
            dest_type: 0,
            rsvd: false,
            cp: false,
            immed: false,
            bam: false,
            partition: 0,
            logical_object_identifier: 0,
        }
    }
}

impl Default for Locate16 {
    fn default() -> (command: Locate16)
        ensures
            command == (Locate16 {
                dest_type: 0,
                rsvd: false,
                cp: false,
                immed: false,
                bam: false,
                partition: 0,
                logical_object_identifier: 0,
            }),
    {
        Locate16::new()
    }
}

impl NoIO for Locate16 {

}

impl Command for Locate16 {
    open spec fn valid(&self) -> bool {
        self.dest_type < 8
    }

    open spec fn cdb(&self) -> Seq<u8> {
        seq![
            0x92u8,
            byte(
                self.dest_type * 8 + flag(self.rsvd, 0x04) + flag(self.cp, 0x02)
                    + flag(self.immed, 0x01),
            ),
            flag(self.bam, 0x01),
            self.partition,
            octet_u64(self.logical_object_identifier, 7),
            octet_u64(self.logical_object_identifier, 6),
            octet_u64(self.logical_object_identifier, 5),
            octet_u64(self.logical_object_identifier, 4),
            octet_u64(self.logical_object_identifier, 3),
            octet_u64(self.logical_object_identifier, 2),
            octet_u64(self.logical_object_identifier, 1),
            octet_u64(self.logical_object_identifier, 0),
            0u8,
            0u8,
            0u8,
            0u8,
        ]
    }

    open spec fn rejection(&self) -> Seq<char> {
        "Dest type must be in the range 0..8"@
    }

    open spec fn op_code(&self) -> u8 {
        0x92
    }

    open spec fn cdb_len(&self) -> nat {
        16
    }

    open spec fn sense_text(&self, sense: &Sense) -> Seq<char> {
        Seq::empty()
    }

    proof fn cdb_shape(&self) {
    }

    fn to_bytes(&self) -> (bytes: Result<Vec<u8>, &'static str>) {
        if self.dest_type >= 8 {
            return Err("Dest type must be in the range 0..8");
        }
        let dest_type = self.dest_type;
        let rsvd = flag_bit(self.rsvd, 0x04);
        let cp = flag_bit(self.cp, 0x02);
        let immed = flag_bit(self.immed, 0x01);
        let flags = dest_type << 3 | rsvd | cp | immed;
        assert(flags == dest_type * 8 + rsvd + cp + immed) by (bit_vector)
            requires
                flags == dest_type << 3 | rsvd | cp | immed,
                dest_type < 8,
                rsvd == 0x04 || rsvd == 0,
                cp == 0x02 || cp == 0,
                immed == 0x01 || immed == 0,
        ;
        let block = vec![
            Self::OP_CODE,
            flags,
            flag_bit(self.bam, 0x01),
            self.partition,
            byte_of_u64(self.logical_object_identifier, 7),
            byte_of_u64(self.logical_object_identifier, 6),
            byte_of_u64(self.logical_object_identifier, 5),
            byte_of_u64(self.logical_object_identifier, 4),
            byte_of_u64(self.logical_object_identifier, 3),
            byte_of_u64(self.logical_object_identifier, 2),
            byte_of_u64(self.logical_object_identifier, 1),
            byte_of_u64(self.logical_object_identifier, 0),
            0,
            0,
            0,
            0,
        ];
        assert(block@ =~= self.cdb());
        Ok(block)
    }

    fn parse_sense(&self, sense: &Sense) -> (text: String) {
        String::new()
    }
}

} // verus!
