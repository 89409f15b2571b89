use crate::bytes::{
    be16, be24, be32, bit_is_set, byte, byte_of_u16, flag, flag_bit, has_bit, octet_u16,
    read_be16, read_be24, read_be32,
};
use crate::sense::Sense;
use crate::text::{field_text, text_of};
use crate::{Command, Output};
use vstd::prelude::*;
use vstd::slice::slice_subrange;

verus! {

/// REPORT DENSITY SUPPORT: asks for the densities, or the medium types, that
/// the device supports.
#[derive(Debug)]
pub struct ReportDensitySupport {
    /// Ask for medium types rather than densities.
    pub medium_type: bool,
    /// Ask about the mounted medium only.
    pub media: bool,
    /// The room for the answer.
    pub allocation_length: u16,
}

/// One entry of what REPORT DENSITY SUPPORT returns.
#[derive(Debug)]
pub enum ReportDensitySupportOutput {
    Density(ReportDensitySupportOutputDensity),
    Medium(ReportDensitySupportOutputMedium),
}

/// A density that the device supports: a record of 52 bytes.
#[derive(Debug)]
pub struct ReportDensitySupportOutputDensity {
    pub primary_density_code: u8,
    pub secondary_density_code: u8,
    /// The device can write at this density.
    pub wrtok: bool,
    /// The density code occurs in more than one record.
    pub dup: bool,
    /// The density is the default of the device.
    pub deflt: bool,
    pub bits_per_mm: u32,
    pub media_width: u16,
    pub tracks: u16,
    pub capacity: u32,
    pub assigning_organization: String,
    pub density_name: String,
    pub description: String,
}

/// A medium type that the device supports: a record of 56 bytes.
#[derive(Debug)]
pub struct ReportDensitySupportOutputMedium {
    pub medium_type: u8,
    /// The densities of the medium type, nine at most.
    pub primary_density_codes: Vec<u8>,
    pub media_width: u16,
    pub medium_length: u16,
    pub assigning_organization: String,
    pub medium_type_name: String,
    pub description: String,
}

/// How many density codes a medium record holds: the count it declares, and
/// no more than the nine it has room for.
pub open spec fn density_code_count(declared: u8) -> int {
    if declared < 9 {
        declared as int
    } else {
        9
    }
}

impl ReportDensitySupportOutputDensity {
    /// Whether `self` is what the 52-byte record `r` holds.
    pub open spec fn describes(&self, r: Seq<u8>) -> bool {
        &&& self.primary_density_code == r[0]
        &&& self.secondary_density_code == r[1]
        &&& self.wrtok == has_bit(r[2], 0x80)
        &&& self.dup == has_bit(r[2], 0x40)
        &&& self.deflt == has_bit(r[2], 0x20)
        &&& self.bits_per_mm == be24(r, 5)
        &&& self.media_width == be16(r, 8)
        &&& self.tracks == be16(r, 10)
        &&& self.capacity == be32(r, 12)
        &&& self.assigning_organization@ == field_text(r.subrange(16, 24))
        &&& self.density_name@ == field_text(r.subrange(24, 32))
        &&& self.description@ == field_text(r.subrange(32, 52))
    }
}

impl ReportDensitySupportOutputMedium {
    /// Whether `self` is what the 56-byte record `r` holds.
    pub open spec fn describes(&self, r: Seq<u8>) -> bool {
        &&& self.medium_type == r[0]
        &&& self.primary_density_codes@ == r.subrange(5, 5 + density_code_count(r[4]))
        &&& self.media_width == be16(r, 14)
        &&& self.medium_length == be16(r, 16)
        &&& self.assigning_organization@ == field_text(r.subrange(20, 28))
        &&& self.medium_type_name@ == field_text(r.subrange(28, 36))
        &&& self.description@ == field_text(r.subrange(36, 56))
    }
}

impl ReportDensitySupport {
    pub const OP_CODE: u8 = 0x44;

    pub const DENSITY_SIZE: usize = 52;

    pub const MEDIUM_SIZE: usize = 56;

    /// The length of the header that precedes the records.
    pub const HEADER_SIZE: usize = 4;

    /// A command that asks for the densities, with no room for an answer.
    pub fn new() -> (command: ReportDensitySupport)
        ensures
            command == (ReportDensitySupport {
                medium_type: false,
                media: false,
                allocation_length: 0,
            }),
    {
        ReportDensitySupport { medium_type: false, media: false, allocation_length: 0 }
    }

    /// Where the records end: at the length that the first two bytes declare,
    /// or at the end of the buffer if that comes first.
    pub open spec fn limit(s: Seq<u8>) -> int {
        if be16(s, 0) < s.len() {
            be16(s, 0) as int
        } else {
            s.len() as int
        }
    }

    /// Where record `k` starts.
    pub open spec fn record_start(&self, k: int) -> int {
        if self.medium_type {
            4 + 56 * k
        } else {
            4 + 52 * k
        }
    }

    /// Whether the buffer holds record `k`: it starts before the limit and
    /// the buffer has all of its bytes.
    pub open spec fn record_present(&self, s: Seq<u8>, k: int) -> bool {
        self.record_start(k) < Self::limit(s) && self.record_start(k + 1) <= s.len()
    }

    /// Whether `entry` is what record `k` of the buffer holds, in the kind
    /// that was asked for.
    pub open spec fn entry_describes(
        &self,
        entry: ReportDensitySupportOutput,
        s: Seq<u8>,
        k: int,
    ) -> bool {
        let r = s.subrange(self.record_start(k), self.record_start(k + 1));
        match entry {
            ReportDensitySupportOutput::Density(density) => !self.medium_type && density.describes(
                r,
            ),
            ReportDensitySupportOutput::Medium(medium) => self.medium_type && medium.describes(r),
        }
    }

    /// Whether every entry of `list` is a record of the buffer: entry `k` is
    /// what record `k` holds.
    pub open spec fn follows(&self, s: Seq<u8>, list: Seq<ReportDensitySupportOutput>) -> bool {
        forall|k: int|
            0 <= k < list.len() ==> self.record_present(s, k) && #[trigger] self.entry_describes(
                list[k],
                s,
                k,
            )
    }

    /// Whether `list` holds the records of the buffer: one entry for each
    /// record that is present, in the order of the buffer, and no record is
    /// present after the last.
    pub open spec fn lists(&self, s: Seq<u8>, list: Seq<ReportDensitySupportOutput>) -> bool {
        self.follows(s, list) && !self.record_present(s, list.len() as int)
    }

    /// Decodes one density record: nothing unless `buf` has exactly 52 bytes.
    pub fn parse_density(&self, buf: &[u8]) -> (density: Option<
        ReportDensitySupportOutputDensity,
    >)
        ensures
            density is Some <==> buf.len() == 52,
            density matches Some(d) ==> d.describes(buf@),
    {
        if buf.len() != Self::DENSITY_SIZE {
            return None;
        }
        Some(
            ReportDensitySupportOutputDensity {
                primary_density_code: buf[0],
                secondary_density_code: buf[1],
                wrtok: bit_is_set(buf[2], 0x80),
                dup: bit_is_set(buf[2], 0x40),
                deflt: bit_is_set(buf[2], 0x20),
                bits_per_mm: read_be24(buf, 5),
                media_width: read_be16(buf, 8),
                tracks: read_be16(buf, 10),
                capacity: read_be32(buf, 12),
                assigning_organization: text_of(slice_subrange(buf, 16, 24)),
                density_name: text_of(slice_subrange(buf, 24, 32)),
                description: text_of(slice_subrange(buf, 32, 52)),
            },
        )
    }

    /// Decodes one medium record: nothing unless `buf` has exactly 56 bytes.
    pub fn parse_medium(&self, buf: &[u8]) -> (medium: Option<ReportDensitySupportOutputMedium>)
        ensures
            medium is Some <==> buf.len() == 56,
            medium matches Some(m) ==> m.describes(buf@),
    {
        if buf.len() != Self::MEDIUM_SIZE {
            return None;
        }
        let declared = buf[4];
        let count: usize = if declared < 9 {
            declared as usize
        } else {
            9
        };
        let mut codes: Vec<u8> = Vec::new();
        let mut i: usize = 0;
        while i < count
            invariant
                i <= count <= 9,
                buf.len() == 56,
                codes@ == buf@.subrange(5, 5 + i),
            decreases count - i,
        {
            codes.push(buf[5 + i]);
            i = i + 1;
            assert(codes@ =~= buf@.subrange(5, 5 + i));
        }
        Some(
            ReportDensitySupportOutputMedium {
                medium_type: buf[0],
                primary_density_codes: codes,
                media_width: read_be16(buf, 14),
                medium_length: read_be16(buf, 16),
                assigning_organization: text_of(slice_subrange(buf, 20, 28)),
                medium_type_name: text_of(slice_subrange(buf, 28, 36)),
                description: text_of(slice_subrange(buf, 36, 56)),
            },
        )
    }

    /// Decodes the returned data: the records of the kind that was asked for,
    /// in the order of the buffer. A buffer without the four header bytes
    /// gives nothing. The records end at the declared length or at the end of
    /// the buffer; a last record that the buffer holds only in part is left
    /// out, and the records before it are still returned.
    pub fn parse_buffer(&self, buf: &[u8]) -> (output: Option<Vec<ReportDensitySupportOutput>>)
        ensures
            output is Some <==> buf.len() >= 4,
            output matches Some(list) ==> self.lists(buf@, list@),
    {
        if buf.len() < Self::HEADER_SIZE {
            return None;
        }
        let declared = read_be16(buf, 0) as usize;
        let limit = if declared < buf.len() {
            declared
        } else {
            buf.len()
        };
        let size = if self.medium_type {
            Self::MEDIUM_SIZE
        } else {
            Self::DENSITY_SIZE
        };
        let mut list: Vec<ReportDensitySupportOutput> = Vec::new();
        let mut pos: usize = Self::HEADER_SIZE;
        while pos < limit && buf.len() - pos >= size
            invariant
                limit == Self::limit(buf@),
                limit <= buf.len(),
                size == if self.medium_type {
                    56int
                } else {
                    52int
                },
                pos == self.record_start(list.len() as int),
                self.follows(buf@, list@),
            decreases buf.len() - pos,
        {
            let record = slice_subrange(buf, pos, pos + size);
            if self.medium_type {
                if let Some(medium) = self.parse_medium(record) {
                    list.push(ReportDensitySupportOutput::Medium(medium));
                }
            } else {
                if let Some(density) = self.parse_density(record) {
                    list.push(ReportDensitySupportOutput::Density(density));
                }
            }
            pos = pos + size;
        }
        Some(list)
    }
}

impl Default for ReportDensitySupport {
    fn default() -> (command: ReportDensitySupport)
        ensures
            command == (ReportDensitySupport {
                medium_type: false,
                media: false,
                allocation_length: 0,
            }),
    {
        ReportDensitySupport::new()
    }
}

impl Output for ReportDensitySupport {

}

impl Command for ReportDensitySupport {
    open spec fn valid(&self) -> bool {
        true
    }

    open spec fn cdb(&self) -> Seq<u8> {
        seq![
            0x44u8,
            byte(flag(self.medium_type, 0x02) + flag(self.media, 0x01)),
            0u8,
            0u8,
            0u8,
            0u8,
            0u8,
            octet_u16(self.allocation_length, 1),
            octet_u16(self.allocation_length, 0),
            0u8,
        ]
    }

    open spec fn rejection(&self) -> Seq<char> {
        Seq::empty()
    }

    open spec fn op_code(&self) -> u8 {
        0x44
    }

    open spec fn cdb_len(&self) -> nat {
        10
    }

    open spec fn sense_text(&self, sense: &Sense) -> Seq<char> {
        Seq::empty()
    }

    proof fn cdb_shape(&self) {
    }

    fn to_bytes(&self) -> (bytes: Result<Vec<u8>, &'static str>) {
        let medium_type = flag_bit(self.medium_type, 0x02);
        let media = flag_bit(self.media, 0x01);
        let flags = medium_type | media;
        assert(flags == medium_type + media) by (bit_vector)
            requires
                flags == medium_type | media,
                medium_type == 0x02 || medium_type == 0,
                media == 0x01 || media == 0,
        ;
        let block = vec![
            Self::OP_CODE,
            flags,
            0,
            0,
            0,
            0,
            0,
            byte_of_u16(self.allocation_length, 1),
            byte_of_u16(self.allocation_length, 0),
            0,
        ];
        assert(block@ =~= self.cdb());
        Ok(block)
    }

    fn parse_sense(&self, sense: &Sense) -> (text: String) {
        String::new()
    }
}

} // verus!
