use crate::bytes::{be16, be24, be64, flag, flag_bit, low_bits, read_be16, read_be24, read_be64};
use crate::sense::Sense;
use crate::{Command, Output};
use vstd::prelude::*;

verus! {

/// READ BLOCK LIMITS: asks for the block lengths the device supports, or for
/// the largest logical object identifier.
#[derive(Debug)]
pub struct ReadBlockLimits {
    /// Ask for the maximum logical object identifier instead of the limits.
    pub mloi: bool,
}

/// What READ BLOCK LIMITS returns.
#[derive(Debug, PartialEq, Eq, Structural)]
pub enum ReadBlockLimitsOutput {
    BlockLimits(ReadBlockLimitsOutputRange),
    MaximumLogicalObjectIdentifier(u64),
}

/// The block lengths a device supports.
#[derive(Debug, PartialEq, Eq, Structural)]
pub struct ReadBlockLimitsOutputRange {
    /// Block lengths are multiples of two to this power.
    pub granularity: u8,
    pub maximum_block_length_limit: u32,
    pub minimum_block_length_limit: u16,
}

impl ReadBlockLimits {
    pub const OP_CODE: u8 = 0x05;

    pub const BLOCK_LIMITS_SIZE: usize = 6;

    pub const MLOI_SIZE: usize = 20;

    /// A command that asks for the block limits.
    pub fn new() -> (command: ReadBlockLimits)
        ensures
            command == (ReadBlockLimits { mloi: false }),
    {
        ReadBlockLimits { mloi: false }
    }

    /// The least number of bytes that hold the data asked for.
    pub open spec fn required_len(&self) -> nat {
        if self.mloi {
            20
        } else {
            6
        }
    }

    /// What a returned buffer decodes to: nothing if it is shorter than the
    /// data asked for.
    pub open spec fn parsed(&self, s: Seq<u8>) -> Option<ReadBlockLimitsOutput> {
        if s.len() < self.required_len() {
            None
        } else if self.mloi {
            Some(ReadBlockLimitsOutput::MaximumLogicalObjectIdentifier(be64(s, 12) as u64))
        } else {
            Some(
                ReadBlockLimitsOutput::BlockLimits(
                    ReadBlockLimitsOutputRange {
                        granularity: (s[0] as nat % 32) as u8,
                        maximum_block_length_limit: be24(s, 1) as u32,
                        minimum_block_length_limit: be16(s, 4) as u16,
                    },
                ),
            )
        }
    }

    /// The least number of bytes that hold the data asked for.
    pub fn output_len(&self) -> (len: usize)
        ensures
            len == self.required_len(),
    {
        if self.mloi {
            Self::MLOI_SIZE
        } else {
            Self::BLOCK_LIMITS_SIZE
        }
    }

    /// Decodes the returned data. A buffer shorter than the data asked for
    /// gives nothing; bytes after the data are ignored.
    pub fn parse_buffer(&self, buf: &[u8]) -> (output: Option<ReadBlockLimitsOutput>)
        ensures
            output == self.parsed(buf@),
            output is Some <==> buf.len() >= self.required_len(),
    {
        if self.mloi {
            if buf.len() < Self::MLOI_SIZE {
                None
            } else {
                let limit = read_be64(buf, 12);
                Some(ReadBlockLimitsOutput::MaximumLogicalObjectIdentifier(limit))
            }
        } else if buf.len() < Self::BLOCK_LIMITS_SIZE {
            None
        } else {
            let block_limits = ReadBlockLimitsOutputRange {
                granularity: low_bits(buf[0], 0x1F),
                maximum_block_length_limit: read_be24(buf, 1),
                minimum_block_length_limit: read_be16(buf, 4),
            };
            Some(ReadBlockLimitsOutput::BlockLimits(block_limits))
        }
    }
}

impl Default for ReadBlockLimits {
    fn default() -> (command: ReadBlockLimits)
        ensures
            command == (ReadBlockLimits { mloi: false }),
    {
        ReadBlockLimits::new()
    }
}

impl Output for ReadBlockLimits {

}

impl Command for ReadBlockLimits {
    open spec fn valid(&self) -> bool {
        true
    }

    open spec fn cdb(&self) -> Seq<u8> {
        seq![0x05u8, flag(self.mloi, 0x01), 0u8, 0u8, 0u8, 0u8]
    }

    open spec fn rejection(&self) -> Seq<char> {
        Seq::empty()
    }

    open spec fn op_code(&self) -> u8 {
        0x05
    }

    open spec fn cdb_len(&self) -> nat {
        6
    }

    open spec fn sense_text(&self, sense: &Sense) -> Seq<char> {
        Seq::empty()
    }

    proof fn cdb_shape(&self) {
    }

    fn to_bytes(&self) -> (bytes: Result<Vec<u8>, &'static str>) {
        let block = vec![Self::OP_CODE, flag_bit(self.mloi, 0x01), 0, 0, 0, 0];
        assert(block@ =~= self.cdb());
        Ok(block)
    }

    fn parse_sense(&self, sense: &Sense) -> (text: String) {
        String::new()
    }
}

} // verus!
