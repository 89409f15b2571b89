use crate::bytes::{byte, byte_of_u32, byte_of_u64, flag, flag_bit, octet_u32, octet_u64};
use crate::sense::Sense;
use crate::{Command, Input};
use vstd::prelude::*;

verus! {

/// VERIFY(16): verifies blocks from a given position.
#[derive(Debug)]
pub struct Verify16 {
    /// Verify to the end of data.
    pub vte: bool,
    /// Verify the logical block protection method.
    pub vlbpm: bool,
    /// Verify by filemarks.
    pub vbf: bool,
    /// Report completion at once.
    pub immed: bool,
    /// Compare with data from the host.
    pub bytcmp: bool,
    /// Verify fixed-size blocks.
    pub fixed: bool,
    /// The partition to verify in.
    pub partition: u8,
    /// Where to start.
    pub logical_object_identifier: u64,
    /// Bytes, blocks or filemarks to verify, below 2^24.
    pub verification_length: u32,
}

impl Verify16 {
    pub const OP_CODE: u8 = 0x8F;

    /// A command with every flag clear and every number zero.
    pub fn new() -> (command: Verify16)
        ensures
            command == (Verify16 {
                vte: false,
                vlbpm: false,
                vbf: false,
                immed: false,
                bytcmp: false,
                fixed: false,
                partition: 0,
                logical_object_identifier: 0,
                verification_length: 0,
            }),
    {
        Verify16 {
            vte: false,
            vlbpm: false,
            vbf: false,
            immed: false,
            bytcmp: false,
            fixed: false,
            partition: 0,
            logical_object_identifier: 0,
            verification_length: 0,
        }
    }
}

impl Default for Verify16 {
    fn default() -> (command: Verify16)
        ensures
            command == (Verify16 {
                vte: false,
                vlbpm: false,
                vbf: false,
                immed: false,
                bytcmp: false,
                fixed: false,
                partition: 0,
                logical_object_identifier: 0,
                verification_length: 0,
            }),
    {
        Verify16::new()
    }
}

impl Input for Verify16 {

}

impl Command for Verify16 {
    open spec fn valid(&self) -> bool {
        self.verification_length < 0x100_0000
    }

    open spec fn cdb(&self) -> Seq<u8> {
        seq![
            0x8Fu8,
            byte(
                flag(self.vte, 0x20) + flag(self.vlbpm, 0x10) + flag(self.vbf, 0x08)
                    + flag(self.immed, 0x04) + flag(self.bytcmp, 0x02) + flag(self.fixed, 0x01),
            ),
            0u8,
            self.partition,
            octet_u64(self.logical_object_identifier, 7),
            octet_u64(self.logical_object_identifier, 6),
            octet_u64(self.logical_object_identifier, 5),
            octet_u64(self.logical_object_identifier, 4),
            octet_u64(self.logical_object_identifier, 3),
            octet_u64(self.logical_object_identifier, 2),
            octet_u64(self.logical_object_identifier, 1),
            octet_u64(self.logical_object_identifier, 0),
            octet_u32(self.verification_length, 2),
            octet_u32(self.verification_length, 1),
            octet_u32(self.verification_length, 0),
            0u8,
        ]
    }

    open spec fn rejection(&self) -> Seq<char> {
        "Verification length must be in the range 0..2^24"@
    }

    open spec fn op_code(&self) -> u8 {
        0x8F
    }

    open spec fn cdb_len(&self) -> nat {
        16
    }

    open spec fn sense_text(&self, sense: &Sense) -> Seq<char> {
        Seq::empty()
    }

    proof fn cdb_shape(&self) {
    }

    fn to_bytes(&self) -> (bytes: Result<Vec<u8>, &'static str>) {
        if self.verification_length >= 0x100_0000 {
            return Err("Verification length must be in the range 0..2^24");
        }
        let vte = flag_bit(self.vte, 0x20);
        let vlbpm = flag_bit(self.vlbpm, 0x10);
        let vbf = flag_bit(self.vbf, 0x08);
        let immed = flag_bit(self.immed, 0x04);
        let bytcmp = flag_bit(self.bytcmp, 0x02);
        let fixed = flag_bit(self.fixed, 0x01);
        let flags = vte | vlbpm | vbf | immed | bytcmp | fixed;
        assert(flags == vte + vlbpm + vbf + immed + bytcmp + fixed) by (bit_vector)
            requires
                flags == vte | vlbpm | vbf | immed | bytcmp | fixed,
                vte == 0x20 || vte == 0,
                vlbpm == 0x10 || vlbpm == 0,
                vbf == 0x08 || vbf == 0,
                immed == 0x04 || immed == 0,
                bytcmp == 0x02 || bytcmp == 0,
                fixed == 0x01 || fixed == 0,
        ;
        let block = vec![
            Self::OP_CODE,
            flags,
            0,
            self.partition,
            byte_of_u64(self.logical_object_identifier, 7),
            byte_of_u64(self.logical_object_identifier, 6),
            byte_of_u64(self.logical_object_identifier, 5),
            byte_of_u64(self.logical_object_identifier, 4),
            byte_of_u64(self.logical_object_identifier, 3),
            byte_of_u64(self.logical_object_identifier, 2),
            byte_of_u64(self.logical_object_identifier, 1),
            byte_of_u64(self.logical_object_identifier, 0),
            byte_of_u32(self.verification_length, 2),
            byte_of_u32(self.verification_length, 1),
            byte_of_u32(self.verification_length, 0),
            0,
        ];
        assert(block@ =~= self.cdb());
        Ok(block)
    }

    fn parse_sense(&self, sense: &Sense) -> (text: String) {
        String::new()
    }
}

} // verus!
