use crate::bytes::{byte, byte_of_u32, byte_of_u64, flag, flag_bit, octet_u32, octet_u64};
use crate::sense::Sense;
use crate::{Command, NoIO};
use vstd::prelude::*;

verus! {

/// WRITE FILEMARKS(16): writes filemarks at a given position.
#[derive(Debug)]
pub struct WriteFilemarks16 {
    /// First command of a sequence.
    pub fcs: bool,
    /// Last command of a sequence.
    pub lcs: bool,
    /// Report completion at once.
    pub immed: bool,
    /// The partition to write in.
    pub partition: u8,
    /// Where to start.
    pub logical_object_identifier: u64,
    /// Filemarks to write, below 2^24.
    pub filemark_count: u32,
}

impl WriteFilemarks16 {
    pub const OP_CODE: u8 = 0x80;

    /// A command with every flag clear and every number zero.
    pub fn new() -> (command: WriteFilemarks16)
        ensures
            command == (WriteFilemarks16 {
                fcs: false,
                lcs: false,
                immed: false,
                partition: 0,
                logical_object_identifier: 0,
                filemark_count: 0,
            }),
    {
        WriteFilemarks16 {
            fcs: false,
            lcs: false,
            immed: false,
            partition: 0,
            logical_object_identifier: 0,
            filemark_count: 0,
        }
    }
}

impl Default for WriteFilemarks16 {
    fn default() -> (command: WriteFilemarks16)
        ensures
            command == (WriteFilemarks16 {
                fcs: false,
                lcs: false,
                immed: false,
                partition: 0,
                logical_object_identifier: 0,
                filemark_count: 0,
            }),
    {
        WriteFilemarks16::new()
    }
}

impl NoIO for WriteFilemarks16 {

}

impl Command for WriteFilemarks16 {
    open spec fn valid(&self) -> bool {
        self.filemark_count < 0x100_0000
    }

    open spec fn cdb(&self) -> Seq<u8> {
        seq![
            0x80u8,
            byte(flag(self.fcs, 0x08) + flag(self.lcs, 0x04) + flag(self.immed, 0x01)),
            0u8,
            self.partition,
            octet_u64(self.logical_object_identifier, 7),
            octet_u64(self.logical_object_identifier, 6),
            octet_u64(self.logical_object_identifier, 5),
            octet_u64(self.logical_object_identifier, 4),
            octet_u64(self.logical_object_identifier, 3),
            octet_u64(self.logical_object_identifier, 2),
            octet_u64(self.logical_object_identifier, 1),
            octet_u64(self.logical_object_identifier, 0),
            octet_u32(self.filemark_count, 2),
            octet_u32(self.filemark_count, 1),
            octet_u32(self.filemark_count, 0),
            0u8,
        ]
    }

    open spec fn rejection(&self) -> Seq<char> {
        "Filemark count must be in the range 0..2^24"@
    }

    open spec fn op_code(&self) -> u8 {
        0x80
    }

    open spec fn cdb_len(&self) -> nat {
        16
    }

    open spec fn sense_text(&self, sense: &Sense) -> Seq<char> {
        Seq::empty()
    }

    proof fn cdb_shape(&self) {
    }

    fn to_bytes(&self) -> (bytes: Result<Vec<u8>, &'static str>) {
        if self.filemark_count >= 0x100_0000 {
            return Err("Filemark count must be in the range 0..2^24");
        }
        let fcs = flag_bit(self.fcs, 0x08);
        let lcs = flag_bit(self.lcs, 0x04);
        let immed = flag_bit(self.immed, 0x01);
        let flags = fcs | lcs | immed;
        assert(flags == fcs + lcs + immed) by (bit_vector)
            requires
                flags == fcs | lcs | immed,
                fcs == 0x08 || fcs == 0,
                lcs == 0x04 || lcs == 0,
                immed == 0x01 || immed == 0,
        ;
        let block = vec![
            Self::OP_CODE,
            flags,
            0,
            self.partition,
            byte_of_u64(self.logical_object_identifier, 7),
            byte_of_u64(self.logical_object_identifier, 6),
            byte_of_u64(self.logical_object_identifier, 5),
            byte_of_u64(self.logical_object_identifier, 4),
            byte_of_u64(self.logical_object_identifier, 3),
            byte_of_u64(self.logical_object_identifier, 2),
            byte_of_u64(self.logical_object_identifier, 1),
            byte_of_u64(self.logical_object_identifier, 0),
            byte_of_u32(self.filemark_count, 2),
            byte_of_u32(self.filemark_count, 1),
            byte_of_u32(self.filemark_count, 0),
            0,
        ];
        assert(block@ =~= self.cdb());
        Ok(block)
    }

    fn parse_sense(&self, sense: &Sense) -> (text: String) {
        String::new()
    }
}

} // verus!
