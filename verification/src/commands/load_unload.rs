use crate::bytes::{byte, flag, flag_bit};
use crate::sense::Sense;
use crate::{Command, NoIO};
use vstd::prelude::*;

verus! {

/// LOAD UNLOAD: loads, unloads or retensions the medium.
#[derive(Debug)]
pub struct LoadUnload {
    /// Report completion at once.
    pub immed: bool,
    /// Keep the medium from being positioned for access.
    pub hold: bool,
    /// Position at the end of the medium before unloading.
    pub eot: bool,
    /// Retension the medium.
    pub reten: bool,
    /// Load rather than unload.
    pub load: bool,
}

impl LoadUnload {
    pub const OP_CODE: u8 = 0x1B;

    /// A command with every flag clear and every number zero.
    pub fn new() -> (command: LoadUnload)
        ensures
            command == (LoadUnload {
                immed: false,
                hold: false,
                eot: false,
                reten: false,
                load: false,
            }),
    {
        LoadUnload { immed: false, hold: false, eot: false, reten: false, load: false }
    }
}

impl Default for LoadUnload {
    fn default() -> (command: LoadUnload)
        ensures
            command == (LoadUnload {
                immed: false,
                hold: false,
                eot: false,
                reten: false,
                load: false,
            }),
    {
        LoadUnload::new()
    }
}

impl NoIO for LoadUnload {

}

impl Command for LoadUnload {
    open spec fn valid(&self) -> bool {
        true
    }

    open spec fn cdb(&self) -> Seq<u8> {
        seq![
            0x1Bu8,
            flag(self.immed, 0x01),
            0u8,
            0u8,
            byte(
                flag(self.hold, 0x08) + flag(self.eot, 0x04) + flag(self.reten, 0x02)
                    + flag(self.load, 0x01),
            ),
            0u8,
        ]
    }

    open spec fn rejection(&self) -> Seq<char> {
        Seq::empty()
    }

    open spec fn op_code(&self) -> u8 {
        0x1B
    }

    open spec fn cdb_len(&self) -> nat {
        6
    }

    open spec fn sense_text(&self, sense: &Sense) -> Seq<char> {
        Seq::empty()
    }

    proof fn cdb_shape(&self) {
    }

    fn to_bytes(&self) -> (bytes: Result<Vec<u8>, &'static str>) {
        let hold = flag_bit(self.hold, 0x08);
        let eot = flag_bit(self.eot, 0x04);
        let reten = flag_bit(self.reten, 0x02);
        let load = flag_bit(self.load, 0x01);
        let flags = hold | eot | reten | load;
        assert(flags == hold + eot + reten + load) by (bit_vector)
            requires
                flags == hold | eot | reten | load,
                hold == 0x08 || hold == 0,
                eot == 0x04 || eot == 0,
                reten == 0x02 || reten == 0,
                load == 0x01 || load == 0,
        ;
        let block = vec![
            Self::OP_CODE,
            flag_bit(self.immed, 0x01),
            0,
            0,
            flags,
            0,
        ];
        assert(block@ =~= self.cdb());
        Ok(block)
    }

    fn parse_sense(&self, sense: &Sense) -> (text: String) {
        String::new()
    }
}

} // verus!
