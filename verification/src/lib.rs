//! Commands for sequential-access (tape) devices: their descriptor blocks,
//! the structured data some of them return, the completion status and sense
//! data of a device, and the bookkeeping of a device session.
//!
//! A command is a plain value. [`Command::to_bytes`] checks its fields and lays
//! out its command descriptor block (CDB); [`Device`] pairs a block with the
//! direction of its data transfer and decodes what the transport reports back.

use vstd::prelude::*;

pub mod bytes;
pub mod commands;
pub mod device;
pub mod sense;
pub mod status;
pub mod text;

pub use device::Device;
pub use device::DeviceStatus;
pub use sense::Sense;
pub use status::DriverStatus;
pub use status::DriverSuggest;
pub use status::HostStatus;
pub use status::Status;

verus! {

/// A command that a device understands.
pub trait Command {
    /// Whether every field lies within the range its layout has room for.
    spec fn valid(&self) -> bool;

    /// The descriptor block of the command, byte by byte.
    spec fn cdb(&self) -> Seq<u8>;

    /// The message that names the field out of range.
    spec fn rejection(&self) -> Seq<char>;

    /// The operation code, which is the first byte of every block.
    spec fn op_code(&self) -> u8;

    /// The length of the block.
    spec fn cdb_len(&self) -> nat;

    /// What the command has to say about sense data returned for it.
    spec fn sense_text(&self, sense: &Sense) -> Seq<char>;

    /// The block has the length the command declares and starts with its
    /// operation code.
    proof fn cdb_shape(&self)
        ensures
            self.cdb().len() == self.cdb_len(),
            self.cdb()[0] == self.op_code(),
    ;

    /// Lays out the descriptor block. A command with a field out of range is
    /// rejected, with the message that names the field, and no byte of it is
    /// produced.
    fn to_bytes(&self) -> (bytes: Result<Vec<u8>, &'static str>)
        ensures
            self.valid() ==> (bytes matches Ok(block) && block@ == self.cdb()),
            !self.valid() ==> (bytes matches Err(message) && message@ == self.rejection()),
            bytes matches Ok(block) ==> block@.len() == self.cdb_len() && block@[0]
                == self.op_code(),
    ;

    /// Describes the command-specific part of sense data.
    fn parse_sense(&self, sense: &Sense) -> (text: String)
        ensures
            text@ == self.sense_text(sense),
    ;
}

/// Marks a command that sends data to the device.
pub trait Input {

}

/// Marks a command that receives data from the device.
pub trait Output {

}

/// Marks a command without a data transfer.
pub trait NoIO {

}

/// What encoding a command yields: its block, or the rejection message.
pub open spec fn encoding<C: Command + ?Sized>(command: &C) -> Result<Seq<u8>, Seq<char>> {
    if command.valid() {
        Ok(command.cdb())
    } else {
        Err(command.rejection())
    }
}

/// The content of an encoding result.
pub open spec fn outcome(bytes: Result<Vec<u8>, &'static str>) -> Result<Seq<u8>, Seq<char>> {
    match bytes {
        Ok(block) => Ok(block@),
        Err(message) => Err(message@),
    }
}

/// Encoding is a function of the command: any two results of encoding one
/// command hold the same bytes, or the same message.
pub proof fn lemma_encoding_repeats<C: Command>(
    command: &C,
    first: Result<Vec<u8>, &'static str>,
    second: Result<Vec<u8>, &'static str>,
)
    requires
        outcome(first) == encoding(command),
        outcome(second) == encoding(command),
    ensures
        outcome(first) == outcome(second),
        first is Ok <==> second is Ok,
        first matches Ok(a) ==> (second matches Ok(b) && a@ == b@),
        first matches Err(a) ==> (second matches Err(b) && a@ == b@),
{
}

/// Every block that encoding yields has the declared length and starts with
/// the operation code.
pub proof fn lemma_encoding_shape<C: Command>(command: &C)
    ensures
        encoding(command) matches Ok(block) ==> block.len() == command.cdb_len() && block[0]
            == command.op_code(),
{
    command.cdb_shape();
}

} // verus!
