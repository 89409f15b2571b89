//! The device session and the status of a completed command.
//!
//! The library performs no input or output of its own. A [`Device`] keeps the
//! handle of the open transport and turns a command into a [`Submission`]:
//! the handle, the direction of the data transfer, the command block and the
//! lengths that the transport needs. The caller hands the submission to the
//! transport, which blocks until the device has answered, and gives the raw
//! completion codes and the sense bytes to [`DeviceStatus::from_raw`].

use crate::sense::{recognized, Sense};
use crate::status::{DriverStatus, DriverSuggest, HostStatus, Status};
use crate::{Command, Input, NoIO, Output};
use vstd::prelude::*;
use vstd::string::StringExecFns;

verus! {

/// The room for sense data that every submission asks for.
pub const SENSE_BUFFER_LEN: u8 = 255;

/// What a device reported when a command completed.
#[derive(Debug)]
pub struct DeviceStatus {
    pub status: Status,
    pub host_status: HostStatus,
    pub driver_status: DriverStatus,
    pub driver_suggest: DriverSuggest,
    /// The sense data, if the device returned any.
    pub sense: Option<Sense>,
}

impl DeviceStatus {
    /// Whether `self` is what the raw completion codes and the sense bytes
    /// decode to. The driver's status word holds both the driver status and
    /// the suggestion.
    pub open spec fn decodes(
        self,
        status: u8,
        host_status: u16,
        driver_status: u16,
        sense: Seq<u8>,
    ) -> bool {
        &&& self.status == Status::of(status)
        &&& self.host_status == HostStatus::of(host_status)
        &&& self.driver_status == DriverStatus::of(driver_status)
        &&& self.driver_suggest == DriverSuggest::of(driver_status)
        &&& self.sense is Some <==> recognized(sense)
        &&& self.sense matches Some(s) ==> s.decodes(sense)
    }

    /// The four outcomes, one to a line, and the sense data where there is
    /// any.
    pub open spec fn text(self) -> Seq<char> {
        let head = "Status:        "@ + self.status.name() + "\nHostStatus:    "@
            + self.host_status.name() + "\nDriverStatus:  "@ + self.driver_status.name()
            + "\nDriverSuggest: "@ + self.driver_suggest.name();
        match self.sense {
            Some(sense) => head + "\n== Sense ==\n"@ + sense.text(),
            None => head,
        }
    }

    /// Decodes the completion of a command: the three raw codes that the
    /// transport returned and the sense bytes that it filled in. Any status
    /// is a result, none is an error.
    pub fn from_raw(status: u8, host_status: u16, driver_status: u16, sense: &[u8]) -> (decoded:
        DeviceStatus)
        ensures
            decoded.decodes(status, host_status, driver_status, sense@),
    {
        DeviceStatus {
            status: Status::from_u8(status),
            host_status: HostStatus::from_u16(host_status),
            driver_status: DriverStatus::from_u16(driver_status),
            driver_suggest: DriverSuggest::from_u16(driver_status),
            sense: Sense::from_buf(sense),
        }
    }

    /// The four outcomes, one to a line, and the sense data where there is
    /// any.
    pub fn to_text(&self) -> (text: String)
        ensures
            text@ == self.text(),
    {
        let mut text = String::from_str("Status:        ");
        text.append(self.status.to_text().as_str());
        text.append("\nHostStatus:    ");
        text.append(self.host_status.to_text().as_str());
        text.append("\nDriverStatus:  ");
        text.append(self.driver_status.to_text().as_str());
        text.append("\nDriverSuggest: ");
        text.append(self.driver_suggest.to_text().as_str());
        if let Some(sense) = &self.sense {
            text.append("\n== Sense ==\n");
            text.append(sense.to_text().as_str());
        }
        text
    }
}

/// The direction in which a command transfers data.
#[derive(Debug, Clone, Copy, PartialEq, Eq, Structural)]
pub enum Direction {
    /// No data is transferred.
    NoData,
    /// The host sends data to the device.
    HostToDevice,
    /// The device sends data to the host.
    DeviceToHost,
}

/// A command ready for the transport.
#[derive(Debug)]
pub struct Submission {
    /// The handle of the open transport.
    pub handle: i32,
    pub direction: Direction,
    /// The command block.
    pub cdb: Vec<u8>,
    /// The length of the data buffer, as the transport takes it.
    pub transfer_len: u32,
    /// The room for sense data.
    pub sense_len: u8,
}

/// The length of a data buffer as the transport takes it: its low 32 bits.
pub open spec fn transfer_len(buffer_len: nat) -> nat {
    buffer_len % 0x1_0000_0000
}

/// The message for a command issued on a device that is not open.
pub open spec fn not_open() -> Seq<char> {
    "No device is currently open"@
}

/// The message for a command with a field out of range.
pub open spec fn not_encoded(rejection: Seq<char>) -> Seq<char> {
    "Error converting CDB to bytes: "@ + rejection
}

/// What issuing `command` on a device with `handle` yields: an error if no
/// transport is open, then an error if the command is not valid, else the
/// submission.
pub open spec fn issues<T: Command>(
    handle: Option<i32>,
    command: &T,
    direction: Direction,
    buffer_len: nat,
    result: Result<Submission, String>,
) -> bool {
    match handle {
        None => result matches Err(message) && message@ == not_open(),
        Some(open_handle) => if command.valid() {
            &&& result matches Ok(submission)
            &&& submission.handle == open_handle
            &&& submission.direction == direction
            &&& submission.cdb@ == command.cdb()
            &&& submission.transfer_len == transfer_len(buffer_len)
            &&& submission.sense_len == 255
        } else {
            result matches Err(message) && message@ == not_encoded(command.rejection())
        },
    }
}

/// A session with one device: closed, or open with the handle of its
/// transport. A device is used from one thread at a time.
#[derive(Debug)]
pub struct Device {
    sg_fd: Option<i32>,
}

impl Device {
    /// The handle of the open transport; none while the device is closed.
    pub closed spec fn handle(&self) -> Option<i32> {
        self.sg_fd
    }

    /// A closed device.
    pub fn new() -> (device: Device)
        ensures
            device.handle() is None,
    {
        Device { sg_fd: None }
    }

    /// Whether a transport is open.
    pub fn is_open(&self) -> (open: bool)
        ensures
            open == self.handle() is Some,
    {
        self.sg_fd.is_some()
    }

    /// Takes the handle of a transport that the caller has opened; the device
    /// is open from now on. A handle that the device held before is handed
    /// back, for the caller to release.
    pub fn open(&mut self, handle: i32) -> (previous: Option<i32>)
        ensures
            final(self).handle() == Some(handle),
            previous == old(self).handle(),
    {
        let previous = self.sg_fd;
        self.sg_fd = Some(handle);
        previous
    }

    /// Closes the device and hands back the handle it held, for the caller to
    /// release. Closing a closed device changes nothing and hands back none.
    pub fn close(&mut self) -> (released: Option<i32>)
        ensures
            final(self).handle() is None,
            released == old(self).handle(),
    {
        let released = self.sg_fd;
        self.sg_fd = None;
        released
    }

    /// Prepares a command for the transport, with `buffer_len` bytes of data
    /// going in `direction`.
    fn issue_cmd_internal<T: Command>(
        &self,
        cdb: &T,
        direction: Direction,
        buffer_len: usize,
    ) -> (result: Result<Submission, String>)
        ensures
            issues(self.handle(), cdb, direction, buffer_len as nat, result),
    {
        let handle = match self.sg_fd {
            None => {
                return Err(String::from_str("No device is currently open"));
            },
            Some(handle) => handle,
        };
        match cdb.to_bytes() {
            Err(rejection) => {
                let mut message = String::from_str("Error converting CDB to bytes: ");
                message.append(rejection);
                Err(message)
            },
            Ok(bytes) => {
                let transfer_len = low_word(buffer_len);
                Ok(
                    Submission {
                        handle,
                        direction,
                        cdb: bytes,
                        transfer_len,
                        sense_len: SENSE_BUFFER_LEN,
                    },
                )
            },
        }
    }

    /// Prepares a command that transfers no data. Fails if the device is not
    /// open, and then if the command has a field out of range.
    pub fn issue_cmd<T: Command + NoIO>(&self, cdb: &T) -> (result: Result<Submission, String>)
        ensures
            issues(self.handle(), cdb, Direction::NoData, 0, result),
    {
        self.issue_cmd_internal(cdb, Direction::NoData, 0)
    }

    /// Prepares a command that sends `buffer` to the device. Fails if the
    /// device is not open, and then if the command has a field out of range.
    pub fn issue_cmd_with_input<T: Command + Input>(&self, cdb: &T, buffer: &[u8]) -> (result:
        Result<Submission, String>)
        ensures
            issues(self.handle(), cdb, Direction::HostToDevice, buffer@.len(), result),
    {
        self.issue_cmd_internal(cdb, Direction::HostToDevice, buffer.len())
    }

    /// Prepares a command that has the device fill `buffer`. Fails if the
    /// device is not open, and then if the command has a field out of range.
    pub fn issue_cmd_with_output<T: Command + Output>(&self, cdb: &T, buffer: &[u8]) -> (result:
        Result<Submission, String>)
        ensures
            issues(self.handle(), cdb, Direction::DeviceToHost, buffer@.len(), result),
    {
        self.issue_cmd_internal(cdb, Direction::DeviceToHost, buffer.len())
    }
}

impl Default for Device {
    fn default() -> (device: Device)
        ensures
            device.handle() is None,
    {
        Device::new()
    }
}

/// The low 32 bits of a length.
fn low_word(len: usize) -> (low: u32)
    ensures
        low == transfer_len(len as nat),
{
    let wide = len as u64;
    (wide % 0x1_0000_0000) as u32
}

/// A command issued on a device that was never opened, or was closed, fails
/// with the message that no device is open, whatever the command.
pub proof fn lemma_closed_device_issues_nothing<T: Command>(
    device: Device,
    command: &T,
    direction: Direction,
    buffer_len: nat,
    result: Result<Submission, String>,
)
    requires
        device.handle() is None,
        issues(device.handle(), command, direction, buffer_len, result),
    ensures
        result matches Err(message) && message@ == not_open(),
{
}

} // verus!
