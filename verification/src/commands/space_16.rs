use crate::bytes::{byte_of_u64, octet_u64};
use crate::sense::Sense;
use crate::{Command, NoIO};
use vstd::prelude::*;

verus! {

/// Where SPACE(16) positions the medium before it starts to count.
#[derive(Debug)]
pub struct Space16Positioning {
    /// The partition to change to.
    pub partition_number: u8,
    /// The logical object to start from.
    pub logical_object_identifier: u64,
}

/// SPACE(16): moves over blocks, filemarks or to the end of data, from the
/// current position or from one given with the command.
#[derive(Debug)]
pub struct Space16 {
    /// What to count, below 16.
    pub code: u8,
    /// How many to move over.
    pub count: u64,
    /// The position to start from, if not the current one. It takes sixteen
    /// more bytes after the sixteen of the command.
    pub positioning_info: Option<Space16Positioning>,
}

impl Space16 {
    pub const OP_CODE: u8 = 0x91;

    pub const LOGICAL_BLOCKS: u8 = 0x0;

    pub const FILEMARKS: u8 = 0x1;

    pub const END_OF_DATA: u8 = 0x3;

    /// The length of the positioning extension, as bytes 12 and 13 declare it.
    pub const PARAMETER_LENGTH: u8 = 16;

    /// A command with every number zero and no position.
    pub fn new() -> (command: Space16)
        ensures
            command.code == 0,
            command.count == 0,
            command.positioning_info is None,
    {
        Space16 { code: 0, count: 0, positioning_info: None }
    }

    /// The sixteen bytes of the command proper; bytes 12 and 13 hold
    /// `parameter_length`.
    pub open spec fn head(&self, parameter_length: u8) -> Seq<u8> {
        seq![
            0x91u8,
            self.code,
            0u8,
            0u8,
            octet_u64(self.count, 7),
            octet_u64(self.count, 6),
            octet_u64(self.count, 5),
            octet_u64(self.count, 4),
            octet_u64(self.count, 3),
            octet_u64(self.count, 2),
            octet_u64(self.count, 1),
            octet_u64(self.count, 0),
            0u8,
            parameter_length,
            0u8,
            0u8,
        ]
    }
}

impl Space16Positioning {
    /// The sixteen bytes of the positioning extension.
    pub open spec fn extension(&self) -> Seq<u8> {
        seq![
            0u8,
            0u8,
            0u8,
            self.partition_number,
            octet_u64(self.logical_object_identifier, 7),
            octet_u64(self.logical_object_identifier, 6),
            octet_u64(self.logical_object_identifier, 5),
            octet_u64(self.logical_object_identifier, 4),
            octet_u64(self.logical_object_identifier, 3),
            octet_u64(self.logical_object_identifier, 2),
            octet_u64(self.logical_object_identifier, 1),
            octet_u64(self.logical_object_identifier, 0),
            0u8,
            0u8,
            0u8,
            0u8,
        ]
    }
}

impl Default for Space16 {
    fn default() -> (command: Space16)
        ensures
            command.code == 0,
            command.count == 0,
            command.positioning_info is None,
    {
        Space16::new()
    }
}

impl NoIO for Space16 {

}

impl Command for Space16 {
    open spec fn valid(&self) -> bool {
        self.code < 16
    }

    open spec fn cdb(&self) -> Seq<u8> {
        match self.positioning_info {
            None => self.head(0),
            Some(position) => self.head(16) + position.extension(),
        }
    }

    open spec fn rejection(&self) -> Seq<char> {
        "Code must be in the range 0..16"@
    }

    open spec fn op_code(&self) -> u8 {
        0x91
    }

    open spec fn cdb_len(&self) -> nat {
        if self.positioning_info is None {
            16
        } else {
            32
        }
    }

    open spec fn sense_text(&self, sense: &Sense) -> Seq<char> {
        Seq::empty()
    }

    proof fn cdb_shape(&self) {
    }

    fn to_bytes(&self) -> (bytes: Result<Vec<u8>, &'static str>) {
        if self.code >= 16 {
            return Err("Code must be in the range 0..16");
        }
        let parameter_length = match &self.positioning_info {
            None => 0,
            Some(_) => Self::PARAMETER_LENGTH,
        };
        let mut block = vec![
            Self::OP_CODE,
            self.code,
            0,
            0,
            byte_of_u64(self.count, 7),
            byte_of_u64(self.count, 6),
            byte_of_u64(self.count, 5),
            byte_of_u64(self.count, 4),
            byte_of_u64(self.count, 3),
            byte_of_u64(self.count, 2),
            byte_of_u64(self.count, 1),
            byte_of_u64(self.count, 0),
            0,
            parameter_length,
            0,
            0,
        ];
        assert(block@ =~= self.head(parameter_length));
        if let Some(position) = &self.positioning_info {
            let mut extension = vec![
                0,
                0,
                0,
                position.partition_number,
                byte_of_u64(position.logical_object_identifier, 7),
                byte_of_u64(position.logical_object_identifier, 6),
                byte_of_u64(position.logical_object_identifier, 5),
                byte_of_u64(position.logical_object_identifier, 4),
                byte_of_u64(position.logical_object_identifier, 3),
                byte_of_u64(position.logical_object_identifier, 2),
                byte_of_u64(position.logical_object_identifier, 1),
                byte_of_u64(position.logical_object_identifier, 0),
                0,
                0,
                0,
                0,
            ];
            assert(extension@ =~= position.extension());
            block.append(&mut extension);
        }
        Ok(block)
    }

    fn parse_sense(&self, sense: &Sense) -> (text: String) {
        String::new()
    }
}

} // verus!
