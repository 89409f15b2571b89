use scsi::device::DeviceStatus;
use scsi::DriverStatus;
use scsi::DriverSuggest;
use scsi::HostStatus;
use scsi::Status;

#[test]
fn status_names_every_documented_code() {
    assert_eq!(Status::from_u8(0x00), Status::Good);
    assert_eq!(Status::from_u8(0x02), Status::CheckCondition);
    assert_eq!(Status::from_u8(0x04), Status::ConditionMet);
    assert_eq!(Status::from_u8(0x08), Status::Busy);
    assert_eq!(Status::from_u8(0x18), Status::ReservationConflict);
    assert_eq!(Status::from_u8(0x28), Status::TaskSetFull);
    assert_eq!(Status::from_u8(0x30), Status::ACAActive);
    assert_eq!(Status::from_u8(0x40), Status::TaskAborted);
}

#[test]
fn status_keeps_every_other_code() {
    let documented = [0x00u8, 0x02, 0x04, 0x08, 0x18, 0x28, 0x30, 0x40];
    for val in 0..=255u8 {
        if !documented.contains(&val) {
            assert_eq!(Status::from_u8(val), Status::Unknown(val));
        } else {
            assert_ne!(Status::from_u8(val), Status::Unknown(val));
        }
    }
}

#[test]
fn host_status_names_every_documented_code() {
    let named = [
        HostStatus::OK,
        HostStatus::NoConnect,
        HostStatus::BusBusy,
        HostStatus::TimeOut,
        HostStatus::BadTarget,
        HostStatus::Abort,
        HostStatus::Parity,
        HostStatus::Error,
        HostStatus::Reset,
        HostStatus::BadIntr,
        HostStatus::Passthrough,
        HostStatus::SoftError,
        HostStatus::ImmRetry,
        HostStatus::Requeue,
    ];
    for (val, expected) in named.iter().enumerate() {
        assert_eq!(HostStatus::from_u16(val as u16), *expected);
    }
    assert_eq!(HostStatus::from_u16(0x0E), HostStatus::Unknown(0x0E));
    assert_eq!(HostStatus::from_u16(0x100), HostStatus::Unknown(0x100));
    assert_eq!(HostStatus::from_u16(0xFFFF), HostStatus::Unknown(0xFFFF));
}

#[test]
fn driver_status_reads_the_low_four_bits() {
    let named = [
        DriverStatus::OK,
        DriverStatus::Busy,
        DriverStatus::Soft,
        DriverStatus::Media,
        DriverStatus::Error,
        DriverStatus::Invalid,
        DriverStatus::Timeout,
        DriverStatus::Hard,
        DriverStatus::Sense,
    ];
    for (val, expected) in named.iter().enumerate() {
        assert_eq!(DriverStatus::from_u16(val as u16), *expected);
        assert_eq!(DriverStatus::from_u16(0xABC0 + val as u16), *expected);
    }
    for val in 9..16u16 {
        assert_eq!(DriverStatus::from_u16(val), DriverStatus::Unknown(val));
        assert_eq!(DriverStatus::from_u16(0x1230 + val), DriverStatus::Unknown(0x1230 + val));
    }
}

#[test]
fn driver_suggest_reads_bits_four_to_seven() {
    assert_eq!(DriverSuggest::from_u16(0x00), DriverSuggest::Nothing);
    assert_eq!(DriverSuggest::from_u16(0x10), DriverSuggest::Retry);
    assert_eq!(DriverSuggest::from_u16(0x20), DriverSuggest::Abort);
    assert_eq!(DriverSuggest::from_u16(0x30), DriverSuggest::Remap);
    assert_eq!(DriverSuggest::from_u16(0x40), DriverSuggest::Die);
    assert_eq!(DriverSuggest::from_u16(0x80), DriverSuggest::Sense);
    assert_eq!(DriverSuggest::from_u16(0x0F), DriverSuggest::Nothing);
    assert_eq!(DriverSuggest::from_u16(0xFF18), DriverSuggest::Retry);
    assert_eq!(DriverSuggest::from_u16(0x0188), DriverSuggest::Sense);
    for code in [0x50u16, 0x60, 0x70, 0x90, 0xA0, 0xB0, 0xC0, 0xD0, 0xE0, 0xF0] {
        assert_eq!(DriverSuggest::from_u16(code), DriverSuggest::Unknown(code));
        assert_eq!(DriverSuggest::from_u16(0x0703 + code), DriverSuggest::Unknown(0x0703 + code));
    }
}

#[test]
fn status_names_as_text() {
    assert_eq!(Status::Good.to_text(), "Good");
    assert_eq!(Status::ACAActive.to_text(), "ACAActive");
    assert_eq!(Status::Unknown(0).to_text(), "Unknown(0)");
    assert_eq!(Status::Unknown(255).to_text(), "Unknown(255)");
    assert_eq!(HostStatus::TimeOut.to_text(), "TimeOut");
    assert_eq!(HostStatus::Unknown(65535).to_text(), "Unknown(65535)");
    assert_eq!(DriverStatus::Media.to_text(), "Media");
    assert_eq!(DriverStatus::Unknown(4105).to_text(), "Unknown(4105)");
    assert_eq!(DriverSuggest::Die.to_text(), "Die");
    assert_eq!(DriverSuggest::Unknown(80).to_text(), "Unknown(80)");
}

#[test]
fn text_matches_the_derived_names() {
    for val in 0..=255u8 {
        let status = Status::from_u8(val);
        assert_eq!(status.to_text(), format!("{:?}", status));
    }
    for val in [0u16, 1, 7, 8, 9, 13, 14, 0x10, 0x48, 0x59, 0x80, 0x1234, 0xFFFF] {
        let host = HostStatus::from_u16(val);
        assert_eq!(host.to_text(), format!("{:?}", host));
        let driver = DriverStatus::from_u16(val);
        assert_eq!(driver.to_text(), format!("{:?}", driver));
        let suggest = DriverSuggest::from_u16(val);
        assert_eq!(suggest.to_text(), format!("{:?}", suggest));
    }
}

#[test]
fn device_status_decodes_the_four_codes() {
    let status = DeviceStatus::from_raw(0x02, 0x07, 0x18, &[0u8; 255]);
    assert_eq!(status.status, Status::CheckCondition);
    assert_eq!(status.host_status, HostStatus::Error);
    assert_eq!(status.driver_status, DriverStatus::Sense);
    assert_eq!(status.driver_suggest, DriverSuggest::Retry);
    assert!(status.sense.is_none());
    assert_eq!(
        status.to_text(),
        "Status:        CheckCondition\nHostStatus:    Error\nDriverStatus:  Sense\nDriverSuggest: Retry"
    );
}

#[test]
fn device_status_with_sense() {
    let mut sense = [0u8; 255];
    sense[..18].copy_from_slice(&[
        0xF1, 0x00, 0x83, 0x00, 0x00, 0x01, 0x00, 0x0A, 0, 0, 0, 0, 0x00, 0x01, 0, 0, 0, 0,
    ]);
    let status = DeviceStatus::from_raw(0x55, 0x0E, 0x5A, &sense);
    assert_eq!(status.status, Status::Unknown(0x55));
    assert_eq!(status.host_status, HostStatus::Unknown(0x0E));
    assert_eq!(status.driver_status, DriverStatus::Unknown(0x5A));
    assert_eq!(status.driver_suggest, DriverSuggest::Unknown(0x5A));
    let decoded = status.sense.as_ref().expect("sense data");
    assert_eq!(decoded.response_code, 0x71);
    assert_eq!(
        status.to_text(),
        "Status:        Unknown(85)\nHostStatus:    Unknown(14)\nDriverStatus:  Unknown(90)\n\
         DriverSuggest: Unknown(90)\n== Sense ==\nResponse code: 113\nSense key: 3\n\
         Additional sense code: 0\nAdditional sense code qualifier: 1\nInformation valid: yes\n\
         Information: 256\nFilemark: yes\nEnd of medium: no\nIncorrect length: no"
    );
}
