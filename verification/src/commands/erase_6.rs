use crate::bytes::{byte, flag, flag_bit};
use crate::sense::Sense;
use crate::{Command, NoIO};
use vstd::prelude::*;

verus! {

/// ERASE(6): erases from the current position.
#[derive(Debug)]
pub struct Erase6 {
    /// Report completion at once.
    pub immed: bool,
    /// Erase to the end of the partition.
    pub long: bool,
    /// How to erase, below 4.
    pub method: u8,
    /// Erase the security metadata too.
    pub smd: bool,
    /// Erase the vendor-specific control metadata too.
    pub vcm: bool,
}

impl Erase6 {
    pub const OP_CODE: u8 = 0x19;

    /// A command with every flag clear and every number zero.
    pub fn new() -> (command: Erase6)
        ensures
            command == (Erase6 { immed: false, long: false, method: 0, smd: false, vcm: false }),
    {
        Erase6 { immed: false, long: false, method: 0, smd: false, vcm: false }
    }
}

impl Default for Erase6 {
    fn default() -> (command: Erase6)
        ensures
            command == (Erase6 { immed: false, long: false, method: 0, smd: false, vcm: false }),
    {
        Erase6::new()
    }
}

impl NoIO for Erase6 {

}

impl Command for Erase6 {
    open spec fn valid(&self) -> bool {
        self.method < 4
    }

    open spec fn cdb(&self) -> Seq<u8> {
        seq![
            0x19u8,
            byte(flag(self.immed, 0x02) + flag(self.long, 0x01)),
            byte(self.method * 16 + flag(self.smd, 0x02) + flag(self.vcm, 0x01)),
            0u8,
            0u8,
            0u8,
        ]
    }

    open spec fn rejection(&self) -> Seq<char> {
        "Method must be in the range 0..4"@
    }

    open spec fn op_code(&self) -> u8 {
        0x19
    }

    open spec fn cdb_len(&self) -> nat {
        6
    }

    open spec fn sense_text(&self, sense: &Sense) -> Seq<char> {
        Seq::empty()
    }

    proof fn cdb_shape(&self) {
    }

    fn to_bytes(&self) -> (bytes: Result<Vec<u8>, &'static str>) {
        if self.method >= 4 {
            return Err("Method must be in the range 0..4");
        }
        let immed = flag_bit(self.immed, 0x02);
        let long = flag_bit(self.long, 0x01);
        let flags = immed | long;
        assert(flags == immed + long) by (bit_vector)
            requires
                flags == immed | long,
                immed == 0x02 || immed == 0,
                long == 0x01 || long == 0,
        ;
        let method = self.method;
        let smd = flag_bit(self.smd, 0x02);
        let vcm = flag_bit(self.vcm, 0x01);
        let options = method << 4 | smd | vcm;
        assert(options == method * 16 + smd + vcm) by (bit_vector)
            requires
                options == method << 4 | smd | vcm,
                method < 4,
                smd == 0x02 || smd == 0,
                vcm == 0x01 || vcm == 0,
        ;
        let block = vec![
            Self::OP_CODE,
            flags,
            options,
            0,
            0,
            0,
        ];
        assert(block@ =~= self.cdb());
        Ok(block)
    }

    fn parse_sense(&self, sense: &Sense) -> (text: String) {
        String::new()
    }
}

} // verus!
