use scsi::sense::Sense;
use scsi::text::decimal_string;

#[test]
fn sense_needs_a_known_response_code() {
    assert!(Sense::from_buf(&[]).is_none());
    assert!(Sense::from_buf(&[0u8; 255]).is_none());
    assert!(Sense::from_buf(&[0x6F, 0, 0]).is_none());
    assert!(Sense::from_buf(&[0x74, 0, 0]).is_none());
    assert!(Sense::from_buf(&[0xFF, 0, 0]).is_none());
    for code in [0x70u8, 0x71, 0x72, 0x73, 0xF0, 0xF1, 0xF2, 0xF3] {
        let sense = Sense::from_buf(&[code]).expect("sense data");
        assert_eq!(sense.response_code, code & 0x7F);
    }
}

#[test]
fn sense_takes_at_most_255_bytes() {
    let mut buf = vec![0u8; 256];
    buf[0] = 0x70;
    assert!(Sense::from_buf(&buf).is_none());
    assert!(Sense::from_buf(&buf[..255]).is_some());
}

#[test]
fn fixed_sense_fields() {
    let buf = [
        0xF0, 0x00, 0x25, 0x00, 0x00, 0x00, 0x10, 0x0A, 0, 0, 0, 0, 0x24, 0x02, 0, 0, 0, 0,
    ];
    let sense = Sense::from_buf(&buf).expect("sense data");
    assert_eq!(sense.response_code, 0x70);
    assert!(sense.valid);
    assert!(!sense.filemark);
    assert!(!sense.eom);
    assert!(sense.ili);
    assert_eq!(sense.sense_key, Some(5));
    assert_eq!(sense.information, [0, 0, 0, 0, 0, 0, 0, 0x10]);
    assert_eq!(sense.information_number(), 16);
    assert_eq!(sense.additional_sense_code, Some(0x24));
    assert_eq!(sense.additional_sense_code_qualifier, Some(0x02));
    assert_eq!(sense.data, buf.to_vec());
}

#[test]
fn fixed_sense_flags() {
    let sense = Sense::from_buf(&[0x70, 0, 0xC8]).expect("sense data");
    assert!(sense.filemark);
    assert!(sense.eom);
    assert!(!sense.ili);
    assert!(!sense.valid);
    assert_eq!(sense.sense_key, Some(8));
}

#[test]
fn short_fixed_sense_has_absent_fields() {
    let sense = Sense::from_buf(&[0xF0, 0x00]).expect("sense data");
    assert_eq!(sense.sense_key, None);
    assert!(!sense.valid);
    assert!(!sense.filemark);
    assert_eq!(sense.information, [0u8; 8]);
    assert_eq!(sense.additional_sense_code, None);
    assert_eq!(sense.additional_sense_code_qualifier, None);

    let sense = Sense::from_buf(&[0xF0, 0, 0x03, 1, 2, 3]).expect("sense data");
    assert_eq!(sense.sense_key, Some(3));
    assert!(!sense.valid);
    assert_eq!(sense.information, [0u8; 8]);

    let sense = Sense::from_buf(&[0xF0, 0, 0x03, 1, 2, 3, 4]).expect("sense data");
    assert!(sense.valid);
    assert_eq!(sense.information, [0, 0, 0, 0, 1, 2, 3, 4]);
    assert_eq!(sense.information_number(), 0x01020304);

    let sense =
        Sense::from_buf(&[0x70, 0, 0x03, 0, 0, 0, 0, 0x0A, 0, 0, 0, 0, 0x3A]).expect("sense data");
    assert_eq!(sense.additional_sense_code, Some(0x3A));
    assert_eq!(sense.additional_sense_code_qualifier, None);
}

#[test]
fn fixed_sense_ends_at_the_declared_length() {
    let mut buf = [0u8; 255];
    buf[0] = 0x70;
    buf[2] = 0x06;
    buf[7] = 5;
    buf[12] = 0x28;
    buf[13] = 0x01;
    let sense = Sense::from_buf(&buf).expect("sense data");
    assert_eq!(sense.sense_key, Some(6));
    assert_eq!(sense.additional_sense_code, Some(0x28));
    assert_eq!(sense.additional_sense_code_qualifier, None);
    buf[7] = 6;
    let sense = Sense::from_buf(&buf).expect("sense data");
    assert_eq!(sense.additional_sense_code_qualifier, Some(0x01));
    buf[7] = 0;
    let sense = Sense::from_buf(&buf).expect("sense data");
    assert_eq!(sense.additional_sense_code, None);
    assert_eq!(sense.data.len(), 255);
}

#[test]
fn descriptor_sense_fields() {
    let buf = [
        0x72, 0x03, 0x11, 0x01, 0, 0, 0, 16, 0x00, 0x0A, 0x80, 0x00, 1, 2, 3, 4, 5, 6, 7, 8, 0x04,
        0x02, 0x00, 0x60,
    ];
    let sense = Sense::from_buf(&buf).expect("sense data");
    assert_eq!(sense.response_code, 0x72);
    assert_eq!(sense.sense_key, Some(3));
    assert_eq!(sense.additional_sense_code, Some(0x11));
    assert_eq!(sense.additional_sense_code_qualifier, Some(0x01));
    assert!(sense.valid);
    assert_eq!(sense.information, [1, 2, 3, 4, 5, 6, 7, 8]);
    assert_eq!(sense.information_number(), 0x0102030405060708);
    assert!(!sense.filemark);
    assert!(sense.eom);
    assert!(sense.ili);
}

#[test]
fn descriptor_sense_skips_other_descriptors() {
    let buf = [
        0x73, 0x0F, 0x00, 0x00, 0, 0, 0, 22, 0x02, 0x06, 0, 0, 0, 0, 0, 0, 0x04, 0x02, 0x00, 0x80,
        0x00, 0x0A, 0x00, 0x00, 0, 0, 0, 0, 0, 0, 0, 9,
    ];
    assert_eq!(buf.len(), 32);
    let sense = Sense::from_buf(&buf[..30]).expect("sense data");
    assert_eq!(sense.response_code, 0x73);
    assert_eq!(sense.sense_key, Some(15));
    assert!(sense.filemark);
    assert!(!sense.eom);
    // The information descriptor is cut short by the declared length.
    assert!(!sense.valid);
    assert_eq!(sense.information, [0u8; 8]);

    let mut whole = buf;
    whole[7] = 24;
    let sense = Sense::from_buf(&whole).expect("sense data");
    assert!(!sense.valid);
    assert_eq!(sense.information, [0, 0, 0, 0, 0, 0, 0, 9]);
    assert!(sense.filemark);
}

#[test]
fn descriptor_sense_without_descriptors() {
    let sense = Sense::from_buf(&[0x72, 0x05, 0x20, 0x00, 0, 0, 0, 0]).expect("sense data");
    assert_eq!(sense.sense_key, Some(5));
    assert_eq!(sense.additional_sense_code, Some(0x20));
    assert!(!sense.valid);
    assert!(!sense.filemark);
    assert!(!sense.eom);
    assert!(!sense.ili);
    assert_eq!(sense.information, [0u8; 8]);

    let sense = Sense::from_buf(&[0x72, 0x05]).expect("sense data");
    assert_eq!(sense.sense_key, Some(5));
    assert_eq!(sense.additional_sense_code, None);
}

#[test]
fn sense_as_text() {
    let sense = Sense::from_buf(&[0x70, 0, 0x43, 0, 0, 1, 0]).expect("sense data");
    assert_eq!(
        sense.to_text(),
        "Response code: 112\nSense key: 3\nAdditional sense code: absent\n\
         Additional sense code qualifier: absent\nInformation valid: no\nInformation: 256\n\
         Filemark: no\nEnd of medium: yes\nIncorrect length: no"
    );
}

#[test]
fn decimal_numerals() {
    assert_eq!(decimal_string(0), "0");
    assert_eq!(decimal_string(7), "7");
    assert_eq!(decimal_string(10), "10");
    assert_eq!(decimal_string(1234567890), "1234567890");
    assert_eq!(decimal_string(u64::MAX), "18446744073709551615");
    for n in [9u64, 99, 100, 101, 65535, 4294967296] {
        assert_eq!(decimal_string(n), format!("{}", n));
    }
}
