use scsi::commands::Read6;
use scsi::sense::Sense;
use scsi::Command;

#[test]
fn to_bytes_test() {
    let read_cmd = Read6 {
        sili: true,
        fixed: true,
        transfer_length: 300,
    };

    let buffer = read_cmd.to_bytes();
    assert_eq!(buffer, Ok(vec![0x08_u8, 0x03, 0x00, 0x01, 0x2C, 0x00]));
}

#[test]
fn transfer_length_test() {
    let read_cmd = Read6 {
        sili: true,
        fixed: true,
        transfer_length: 2_u32.pow(24),
    };

    let buffer = read_cmd.to_bytes();
    assert_eq!(buffer, Err("Transfer length must be in the range 0..2^24"));
}

#[test]
fn read_6_largest_transfer_length_is_encoded() {
    let read_cmd = Read6 {
        sili: false,
        fixed: false,
        transfer_length: 2_u32.pow(24) - 1,
    };

    assert_eq!(
        read_cmd.to_bytes(),
        Ok(vec![0x08_u8, 0x00, 0xFF, 0xFF, 0xFF, 0x00])
    );
}

#[test]
fn read_6_new_is_all_clear() {
    let read_cmd = Read6::new();
    assert!(!read_cmd.sili);
    assert!(!read_cmd.fixed);
    assert_eq!(read_cmd.transfer_length, 0);
    assert_eq!(read_cmd.to_bytes(), Ok(vec![0x08_u8, 0, 0, 0, 0, 0]));
    let by_default: Read6 = Default::default();
    assert_eq!(by_default.to_bytes(), Ok(vec![0x08_u8, 0, 0, 0, 0, 0]));
}

#[test]
fn read_6_encodes_the_same_bytes_twice() {
    let read_cmd = Read6 {
        sili: true,
        fixed: false,
        transfer_length: 0x0A0B0C,
    };
    let first = read_cmd.to_bytes();
    let second = read_cmd.to_bytes();
    assert_eq!(first, second);
    assert_eq!(first, Ok(vec![0x08_u8, 0x02, 0x0A, 0x0B, 0x0C, 0x00]));

    let rejected = Read6 {
        sili: true,
        fixed: false,
        transfer_length: u32::MAX,
    };
    assert_eq!(rejected.to_bytes(), rejected.to_bytes());
    assert!(rejected.to_bytes().is_err());
}

#[test]
fn read_6_reports_the_residual_from_fixed_sense() {
    let mut buf = vec![0u8; 18];
    buf[0] = 0xF0;
    buf[2] = 0x20;
    buf[3] = 0x00;
    buf[4] = 0x00;
    buf[5] = 0x01;
    buf[6] = 0x2C;
    buf[7] = 10;
    let sense = Sense::from_buf(&buf).expect("sense data");
    let read_cmd = Read6::new();
    assert_eq!(
        read_cmd.parse_sense(&sense),
        "== Read6 Specific ==\nRequested transfer length minus the actual block length is 300"
    );
}
