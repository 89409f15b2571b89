use crate::bytes::{byte_of_u64, octet_u64};
use crate::sense::Sense;
use crate::{Command, NoIO};
use vstd::prelude::*;

verus! {

/// ALLOW OVERWRITE: permits the next write to overwrite data.
#[derive(Debug)]
pub struct AllowOverwrite {
    /// What may be overwritten, below 16.
    pub allow_overwrite: u8,
    /// The partition of the position.
    pub partition: u8,
    /// The position at which overwriting is allowed.
    pub logical_object_identifier: u64,
}

impl AllowOverwrite {
    pub const OP_CODE: u8 = 0x82;

    pub const DISABLED: u8 = 0x0;

    pub const CURRENT_POSITION: u8 = 0x1;

    pub const FORMAT: u8 = 0x2;

    /// A command with every flag clear and every number zero.
    pub fn new() -> (command: AllowOverwrite)
        ensures
            command == (AllowOverwrite {
                allow_overwrite: 0,
                partition: 0,
                logical_object_identifier: 0,
            }),
    {
        AllowOverwrite { allow_overwrite: 0, partition: 0, logical_object_identifier: 0 }
    }
}

impl Default for AllowOverwrite {
    fn default() -> (command: AllowOverwrite)
        ensures
            command == (AllowOverwrite {
                allow_overwrite: 0,
                partition: 0,
                logical_object_identifier: 0,
            }),
    {
        AllowOverwrite::new()
    }
}

impl NoIO for AllowOverwrite {

}

impl Command for AllowOverwrite {
    open spec fn valid(&self) -> bool {
        self.allow_overwrite < 16
    }

    open spec fn cdb(&self) -> Seq<u8> {
        seq![
            0x82u8,
            0u8,
            self.allow_overwrite,
            self.partition,
            octet_u64(self.logical_object_identifier, 7),
            octet_u64(self.logical_object_identifier, 6),
            octet_u64(self.logical_object_identifier, 5),
            octet_u64(self.logical_object_identifier, 4),
            octet_u64(self.logical_object_identifier, 3),
            octet_u64(self.logical_object_identifier, 2),
            octet_u64(self.logical_object_identifier, 1),
            octet_u64(self.logical_object_identifier, 0),
            0u8,
            0u8,
            0u8,
            0u8,
        ]
    }

    open spec fn rejection(&self) -> Seq<char> {
        "Allow overwrite must be in the range 0..16"@
    }

    open spec fn op_code(&self) -> u8 {
        0x82
    }

    open spec fn cdb_len(&self) -> nat {
        16
    }

    open spec fn sense_text(&self, sense: &Sense) -> Seq<char> {
        Seq::empty()
    }

    proof fn cdb_shape(&self) {
    }

    fn to_bytes(&self) -> (bytes: Result<Vec<u8>, &'static str>) {
        if self.allow_overwrite >= 16 {
            return Err("Allow overwrite must be in the range 0..16");
        }
        let block = vec![
            Self::OP_CODE,
            0,
            self.allow_overwrite,
            self.partition,
            byte_of_u64(self.logical_object_identifier, 7),
            byte_of_u64(self.logical_object_identifier, 6),
            byte_of_u64(self.logical_object_identifier, 5),
            byte_of_u64(self.logical_object_identifier, 4),
            byte_of_u64(self.logical_object_identifier, 3),
            byte_of_u64(self.logical_object_identifier, 2),
            byte_of_u64(self.logical_object_identifier, 1),
            byte_of_u64(self.logical_object_identifier, 0),
            0,
            0,
            0,
            0,
        ];
        assert(block@ =~= self.cdb());
        Ok(block)
    }

    fn parse_sense(&self, sense: &Sense) -> (text: String) {
        String::new()
    }
}

} // verus!
