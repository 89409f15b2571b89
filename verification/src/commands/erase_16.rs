use crate::bytes::{byte, byte_of_u64, flag, flag_bit, octet_u64};
use crate::sense::Sense;
use crate::{Command, NoIO};
use vstd::prelude::*;

verus! {

/// ERASE(16): erases from a given position.
#[derive(Debug)]
pub struct Erase16 {
    /// First command of a sequence.
    pub fcs: bool,
    /// Last command of a sequence.
    pub lcs: bool,
    /// Report completion at once.
    pub immed: bool,
    /// Erase to the end of the partition.
    pub long: bool,
    /// How to erase, below 4.
    pub method: u8,
    /// Erase the security metadata too.
    pub smd: bool,
    /// Erase the vendor-specific control metadata too.
    pub vcm: bool,
    /// The partition to erase in.
    pub partition: u8,
    /// Where to start.
    pub logical_object_identifier: u64,
}

impl Erase16 {
    pub const OP_CODE: u8 = 0x93;

    /// A command with every flag clear and every number zero.
    pub fn new() -> (command: Erase16)
        ensures
            command == (Erase16 {
                fcs: false,
                lcs: false,
                immed: false,
                long: false,
                method: 0,
                smd: false,
                vcm: false,
                partition: 0,
                logical_object_identifier: 0,
            }),
    {
        Erase16 {
            fcs: false,
            lcs: false,
            immed: false,
            long: false,
            method: 0,
            smd: false,
            vcm: false,
            partition: 0,
            logical_object_identifier: 0,
        }
    }
}

impl Default for Erase16 {
    fn default() -> (command: Erase16)
        ensures
            command == (Erase16 {
                fcs: false,
                lcs: false,
                immed: false,
                long: false,
                method: 0,
                smd: false,
                vcm: false,
                partition: 0,
                logical_object_identifier: 0,
            }),
    {
        Erase16::new()
    }
}

impl NoIO for Erase16 {

}

impl Command for Erase16 {
    open spec fn valid(&self) -> bool {
        self.method < 4
    }

    open spec fn cdb(&self) -> Seq<u8> {
        seq![
            0x93u8,
            byte(
                flag(self.fcs, 0x08) + flag(self.lcs, 0x04) + flag(self.immed, 0x02)
                    + flag(self.long, 0x01),
            ),
            byte(self.method * 16 + flag(self.smd, 0x02) + flag(self.vcm, 0x01)),
            self.partition,
            octet_u64(self.logical_object_identifier, 7),
            octet_u64(self.logical_object_identifier, 6),
            octet_u64(self.logical_object_identifier, 5),
            octet_u64(self.logical_object_identifier, 4),
            octet_u64(self.logical_object_identifier, 3),
            octet_u64(self.logical_object_identifier, 2),
            octet_u64(self.logical_object_identifier, 1),
            octet_u64(self.logical_object_identifier, 0),
            0u8,
            0u8,
            0u8,
            0u8,
        ]
    }

    open spec fn rejection(&self) -> Seq<char> {
        "Method must be in the range 0..4"@
    }

    open spec fn op_code(&self) -> u8 {
        0x93
    }

    open spec fn cdb_len(&self) -> nat {
        16
    }

    open spec fn sense_text(&self, sense: &Sense) -> Seq<char> {
        Seq::empty()
    }

    proof fn cdb_shape(&self) {
    }

    fn to_bytes(&self) -> (bytes: Result<Vec<u8>, &'static str>) {
        if self.method >= 4 {
            return Err("Method must be in the range 0..4");
        }
        let fcs = flag_bit(self.fcs, 0x08);
        let lcs = flag_bit(self.lcs, 0x04);
        let immed = flag_bit(self.immed, 0x02);
        let long = flag_bit(self.long, 0x01);
        let flags = fcs | lcs | immed | long;
        assert(flags == fcs + lcs + immed + long) by (bit_vector)
            requires
                flags == fcs | lcs | immed | long,
                fcs == 0x08 || fcs == 0,
                lcs == 0x04 || lcs == 0,
                immed == 0x02 || immed == 0,
                long == 0x01 || long == 0,
        ;
        let method = self.method;
        let smd = flag_bit(self.smd, 0x02);
        let vcm = flag_bit(self.vcm, 0x01);
        let options = method << 4 | smd | vcm;
        assert(options == method * 16 + smd + vcm) by (bit_vector)
            requires
                options == method << 4 | smd | vcm,
                method < 4,
                smd == 0x02 || smd == 0,
                vcm == 0x01 || vcm == 0,
        ;
        let block = vec![
            Self::OP_CODE,
            flags,
            options,
            self.partition,
            byte_of_u64(self.logical_object_identifier, 7),
            byte_of_u64(self.logical_object_identifier, 6),
            byte_of_u64(self.logical_object_identifier, 5),
            byte_of_u64(self.logical_object_identifier, 4),
            byte_of_u64(self.logical_object_identifier, 3),
            byte_of_u64(self.logical_object_identifier, 2),
            byte_of_u64(self.logical_object_identifier, 1),
            byte_of_u64(self.logical_object_identifier, 0),
            0,
            0,
            0,
            0,
        ];
        assert(block@ =~= self.cdb());
        Ok(block)
    }

    fn parse_sense(&self, sense: &Sense) -> (text: String) {
        String::new()
    }
}

} // verus!
