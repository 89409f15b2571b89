use scsi::commands::FormatMedium;
use scsi::commands::Read6;
use scsi::commands::Rewind;
use scsi::commands::Space6;
use scsi::commands::Write6;
use scsi::device::Direction;
use scsi::Device;

#[test]
fn a_new_device_is_closed() {
    let device = Device::new();
    assert!(!device.is_open());
    let device: Device = Default::default();
    assert!(!device.is_open());
}

#[test]
fn a_device_that_was_never_opened_issues_nothing() {
    let device = Device::new();
    let result = device.issue_cmd(&Rewind { immed: false });
    assert_eq!(result.unwrap_err(), "No device is currently open");
    let result = device.issue_cmd_with_input(&Write6::new(), &[1, 2, 3]);
    assert_eq!(result.unwrap_err(), "No device is currently open");
    let result = device.issue_cmd_with_output(&Read6::new(), &[0; 8]);
    assert_eq!(result.unwrap_err(), "No device is currently open");
}

#[test]
fn a_closed_device_reports_that_before_it_checks_the_command() {
    let device = Device::new();
    let result = device.issue_cmd(&Space6 { code: 200, count: 0 });
    assert_eq!(result.unwrap_err(), "No device is currently open");
}

#[test]
fn open_and_close() {
    let mut device = Device::new();
    assert_eq!(device.close(), None);
    assert_eq!(device.open(3), None);
    assert!(device.is_open());
    assert_eq!(device.open(4), Some(3));
    assert!(device.is_open());
    assert_eq!(device.close(), Some(4));
    assert!(!device.is_open());
    assert_eq!(device.close(), None);
    assert!(!device.is_open());
    let result = device.issue_cmd(&Rewind::new());
    assert_eq!(result.unwrap_err(), "No device is currently open");
}

#[test]
fn issue_without_data() {
    let mut device = Device::new();
    device.open(7);
    let submission = device.issue_cmd(&Rewind { immed: true }).expect("a submission");
    assert_eq!(submission.handle, 7);
    assert_eq!(submission.direction, Direction::NoData);
    assert_eq!(submission.cdb, vec![0x01, 0x01, 0, 0, 0, 0]);
    assert_eq!(submission.transfer_len, 0);
    assert_eq!(submission.sense_len, 255);
    assert!(device.is_open());
}

#[test]
fn issue_with_input() {
    let mut device = Device::new();
    device.open(5);
    let cmd = FormatMedium { verify: false, immed: true, format: 1, transfer_length: 3 };
    let submission = device.issue_cmd_with_input(&cmd, &[9, 8, 7]).expect("a submission");
    assert_eq!(submission.handle, 5);
    assert_eq!(submission.direction, Direction::HostToDevice);
    assert_eq!(submission.cdb, vec![0x04, 0x01, 0x01, 0x00, 0x03, 0x00]);
    assert_eq!(submission.transfer_len, 3);
    assert_eq!(submission.sense_len, 255);
}

#[test]
fn issue_with_output() {
    let mut device = Device::new();
    device.open(0);
    let cmd = Read6 { sili: false, fixed: true, transfer_length: 80 };
    let buffer = [0u8; 80];
    let submission = device.issue_cmd_with_output(&cmd, &buffer).expect("a submission");
    assert_eq!(submission.handle, 0);
    assert_eq!(submission.direction, Direction::DeviceToHost);
    assert_eq!(submission.cdb, vec![0x08, 0x01, 0x00, 0x00, 0x50, 0x00]);
    assert_eq!(submission.transfer_len, 80);
    assert_eq!(submission.sense_len, 255);
}

#[test]
fn an_open_device_rejects_a_command_out_of_range() {
    let mut device = Device::new();
    device.open(3);
    let result = device.issue_cmd(&Space6 { code: 16, count: 0 });
    assert_eq!(
        result.unwrap_err(),
        "Error converting CDB to bytes: Code must be in the range 0..16"
    );
    let cmd = Read6 { sili: true, fixed: true, transfer_length: 1 << 24 };
    let result = device.issue_cmd_with_output(&cmd, &[]);
    assert_eq!(
        result.unwrap_err(),
        "Error converting CDB to bytes: Transfer length must be in the range 0..2^24"
    );
    assert!(device.is_open());
}
