use crate::bytes::{byte, byte_of_u32, flag, flag_bit, octet_u32};
use crate::sense::Sense;
use crate::{Command, NoIO};
use vstd::prelude::*;

verus! {

/// VERIFY(6): verifies blocks from the current position.
#[derive(Debug)]
pub struct Verify6 {
    /// Verify to the end of data.
    pub vte: bool,
    /// Verify the logical block protection method.
    pub vlbpm: bool,
    /// Verify by filemarks.
    pub vbf: bool,
    /// Report completion at once.
    pub immed: bool,
    /// Compare with data from the host.
    pub bytcmp: bool,
    /// Verify fixed-size blocks.
    pub fixed: bool,
    /// Bytes, blocks or filemarks to verify, below 2^24.
    pub verification_length: u32,
}

impl Verify6 {
    pub const OP_CODE: u8 = 0x13;

    /// A command with every flag clear and every number zero.
    pub fn new() -> (command: Verify6)
        ensures
            command == (Verify6 {
                vte: false,
                vlbpm: false,
                vbf: false,
                immed: false,
                bytcmp: false,
                fixed: false,
                verification_length: 0,
            }),
    {
        Verify6 {
            vte: false,
            vlbpm: false,
            vbf: false,
            immed: false,
            bytcmp: false,
            fixed: false,
            verification_length: 0,
        }
    }
}

impl Default for Verify6 {
    fn default() -> (command: Verify6)
        ensures
            command == (Verify6 {
                vte: false,
                vlbpm: false,
                vbf: false,
                immed: false,
                bytcmp: false,
                fixed: false,
                verification_length: 0,
            }),
    {
        Verify6::new()
    }
}

impl NoIO for Verify6 {

}

impl Command for Verify6 {
    open spec fn valid(&self) -> bool {
        self.verification_length < 0x100_0000
    }

    open spec fn cdb(&self) -> Seq<u8> {
        seq![
            0x13u8,
            byte(
                flag(self.vte, 0x20) + flag(self.vlbpm, 0x10) + flag(self.vbf, 0x08)
                    + flag(self.immed, 0x04) + flag(self.bytcmp, 0x02) + flag(self.fixed, 0x01),
            ),
            octet_u32(self.verification_length, 2),
            octet_u32(self.verification_length, 1),
            octet_u32(self.verification_length, 0),
            0u8,
        ]
    }

    open spec fn rejection(&self) -> Seq<char> {
        "Verification length must be in the range 0..2^24"@
    }

    open spec fn op_code(&self) -> u8 {
        0x13
    }

    open spec fn cdb_len(&self) -> nat {
        6
    }

    open spec fn sense_text(&self, sense: &Sense) -> Seq<char> {
        Seq::empty()
    }

    proof fn cdb_shape(&self) {
    }

    fn to_bytes(&self) -> (bytes: Result<Vec<u8>, &'static str>) {
        if self.verification_length >= 0x100_0000 {
            return Err("Verification length must be in the range 0..2^24");
        }
        let vte = flag_bit(self.vte, 0x20);
        let vlbpm = flag_bit(self.vlbpm, 0x10);
        let vbf = flag_bit(self.vbf, 0x08);
        let immed = flag_bit(self.immed, 0x04);
        let bytcmp = flag_bit(self.bytcmp, 0x02);
        let fixed = flag_bit(self.fixed, 0x01);
        let flags = vte | vlbpm | vbf | immed | bytcmp | fixed;
        assert(flags == vte + vlbpm + vbf + immed + bytcmp + fixed) by (bit_vector)
            requires
                flags == vte | vlbpm | vbf | immed | bytcmp | fixed,
                vte == 0x20 || vte == 0,
                vlbpm == 0x10 || vlbpm == 0,
                vbf == 0x08 || vbf == 0,
                immed == 0x04 || immed == 0,
                bytcmp == 0x02 || bytcmp == 0,
                fixed == 0x01 || fixed == 0,
        ;
        let block = vec![
            Self::OP_CODE,
            flags,
            byte_of_u32(self.verification_length, 2),
            byte_of_u32(self.verification_length, 1),
            byte_of_u32(self.verification_length, 0),
            0,
        ];
        assert(block@ =~= self.cdb());
        Ok(block)
    }

    fn parse_sense(&self, sense: &Sense) -> (text: String) {
        String::new()
    }
}

} // verus!
