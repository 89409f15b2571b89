use scsi::commands::ReadBlockLimits;
use scsi::commands::ReadBlockLimitsOutput;
use scsi::commands::ReadBlockLimitsOutputRange;
use scsi::commands::ReadPosition;
use scsi::commands::ReadPositionOutput;
use scsi::commands::ReadPositionOutputExtendedForm;
use scsi::commands::ReadPositionOutputLongForm;
use scsi::commands::ReadPositionOutputShortForm;
use scsi::commands::ReportDensitySupport;
use scsi::commands::ReportDensitySupportOutput;

#[test]
fn read_block_limits_needs_six_bytes() {
    let cmd = ReadBlockLimits { mloi: false };
    assert_eq!(cmd.output_len(), 6);
    assert_eq!(cmd.parse_buffer(&[]), None);
    assert_eq!(cmd.parse_buffer(&[0x25, 0x01, 0x02, 0x03, 0x00]), None);
}

#[test]
fn read_block_limits_decodes_the_range() {
    let cmd = ReadBlockLimits { mloi: false };
    assert_eq!(
        cmd.parse_buffer(&[0x25, 0x01, 0x02, 0x03, 0x00, 0x04]),
        Some(ReadBlockLimitsOutput::BlockLimits(ReadBlockLimitsOutputRange {
            granularity: 5,
            maximum_block_length_limit: 0x010203,
            minimum_block_length_limit: 4,
        }))
    );
    assert_eq!(
        cmd.parse_buffer(&[0xFF, 0xFF, 0xFF, 0xFF, 0xFF, 0xFF, 0x77]),
        Some(ReadBlockLimitsOutput::BlockLimits(ReadBlockLimitsOutputRange {
            granularity: 31,
            maximum_block_length_limit: 0xFFFFFF,
            minimum_block_length_limit: 0xFFFF,
        }))
    );
}

#[test]
fn read_block_limits_decodes_the_maximum_identifier() {
    let cmd = ReadBlockLimits { mloi: true };
    assert_eq!(cmd.output_len(), 20);
    let mut buf = vec![0xEEu8; 20];
    buf[12..20].copy_from_slice(&[0x01, 0x02, 0x03, 0x04, 0x05, 0x06, 0x07, 0x08]);
    assert_eq!(cmd.parse_buffer(&buf[..19]), None);
    assert_eq!(
        cmd.parse_buffer(&buf),
        Some(ReadBlockLimitsOutput::MaximumLogicalObjectIdentifier(0x0102030405060708))
    );
    assert_eq!(cmd.parse_buffer(&[0x25, 0x01, 0x02, 0x03, 0x00, 0x04]), None);
}

fn position_bytes() -> Vec<u8> {
    let mut buf = Vec::new();
    for i in 0..32u8 {
        buf.push(0x10 + i);
    }
    buf
}

#[test]
fn read_position_lengths() {
    let len = |service_action: u8| ReadPosition { service_action, allocation_length: 0 }.output_len();
    assert_eq!(len(ReadPosition::SHORT_FORM_BLOCK), 20);
    assert_eq!(len(ReadPosition::SHORT_FORM_VENDOR), 20);
    assert_eq!(len(ReadPosition::LONG_FORM), 32);
    assert_eq!(len(ReadPosition::EXTENDED_FORM), 32);
    assert_eq!(len(2), 0);
    assert_eq!(len(7), 0);
    assert_eq!(len(255), 0);
}

#[test]
fn read_position_short_form() {
    let mut buf = position_bytes();
    buf[0] = 0xB5;
    for service_action in [ReadPosition::SHORT_FORM_BLOCK, ReadPosition::SHORT_FORM_VENDOR] {
        let cmd = ReadPosition { service_action, allocation_length: 20 };
        assert_eq!(cmd.parse_buffer(&buf[..19]), None);
        assert_eq!(
            cmd.parse_buffer(&buf[..20]),
            Some(ReadPositionOutput::ShortForm(ReadPositionOutputShortForm {
                bop: true,
                eop: false,
                locu: true,
                bycu: true,
                rsvd: false,
                lolu: true,
                bpew: true,
                partition_number: 0x11,
                first_logical_object_location: 0x14151617,
                last_logical_object_location: 0x18191A1B,
                number_of_logical_objects_in_object_buffer: 0x001D1E1F,
                number_of_bytes_in_object_buffer: 0x20212223,
            }))
        );
    }
}

#[test]
fn read_position_long_form() {
    let mut buf = position_bytes();
    buf[0] = 0x4A;
    let cmd = ReadPosition { service_action: ReadPosition::LONG_FORM, allocation_length: 32 };
    assert_eq!(cmd.parse_buffer(&buf[..31]), None);
    assert_eq!(
        cmd.parse_buffer(&buf),
        Some(ReadPositionOutput::LongForm(ReadPositionOutputLongForm {
            bop: false,
            eop: true,
            mpu: true,
            lonu: false,
            rsvd: true,
            bpew: false,
            partition_number: 0x14151617,
            logical_object_number: 0x18191A1B1C1D1E1F,
            logical_file_identifier: 0x2021222324252627,
        }))
    );
}

#[test]
fn read_position_extended_form() {
    let mut buf = position_bytes();
    buf[0] = 0x48;
    buf.push(0x99);
    let cmd = ReadPosition { service_action: ReadPosition::EXTENDED_FORM, allocation_length: 32 };
    assert_eq!(cmd.parse_buffer(&buf[..31]), None);
    assert_eq!(
        cmd.parse_buffer(&buf),
        Some(ReadPositionOutput::ExtendedForm(ReadPositionOutputExtendedForm {
            bop: false,
            eop: true,
            locu: false,
            bycu: false,
            rsvd: true,
            lolu: false,
            bpew: false,
            partition_number: 0x11,
            number_of_logical_objects_in_object_buffer: 0x00151617,
            first_logical_object_location: 0x18191A1B1C1D1E1F,
            last_logical_object_location: 0x2021222324252627,
            number_of_bytes_in_object_buffer: 0x28292A2B2C2D2E2F,
        }))
    );
}

#[test]
fn read_position_unknown_form_decodes_to_nothing() {
    let buf = position_bytes();
    for service_action in [2u8, 3, 5, 7, 9, 31, 200] {
        let cmd = ReadPosition { service_action, allocation_length: 32 };
        assert_eq!(cmd.parse_buffer(&buf), None);
    }
}

fn density_record(code: u8, name: &[u8; 8]) -> Vec<u8> {
    let mut r = vec![0u8; 52];
    r[0] = code;
    r[1] = code + 1;
    r[2] = 0xA0;
    r[5..8].copy_from_slice(&[0x01, 0x02, 0x03]);
    r[8..10].copy_from_slice(&[0x00, 0x7F]);
    r[10..12].copy_from_slice(&[0x03, 0x80]);
    r[12..16].copy_from_slice(&[0x00, 0x0B, 0x71, 0xB0]);
    r[16..24].copy_from_slice(b"LTO-CVE ");
    r[24..32].copy_from_slice(name);
    r[32..52].copy_from_slice(b"Ultrium 5/16T       ");
    r
}

fn medium_record(kind: u8, declared_codes: u8) -> Vec<u8> {
    let mut r = vec![0u8; 56];
    r[0] = kind;
    r[4] = declared_codes;
    r[5..14].copy_from_slice(&[0x40, 0x42, 0x44, 0x46, 0x58, 0x5A, 0x5C, 0x5E, 0x60]);
    r[14..16].copy_from_slice(&[0x00, 0x7F]);
    r[16..18].copy_from_slice(&[0x02, 0x00]);
    r[20..28].copy_from_slice(b"LTO-CVE ");
    r[28..36].copy_from_slice(b"U-832   ");
    r[36..56].copy_from_slice(b"Ultrium 8 Data Tape ");
    r
}

fn framed(declared: u16, records: &[Vec<u8>]) -> Vec<u8> {
    let mut buf = vec![(declared >> 8) as u8, declared as u8, 0, 0];
    for r in records {
        buf.extend_from_slice(r);
    }
    buf
}

#[test]
fn report_density_support_needs_the_header() {
    let cmd = ReportDensitySupport::new();
    assert!(cmd.parse_buffer(&[]).is_none());
    assert!(cmd.parse_buffer(&[0x00, 0x34, 0x00]).is_none());
    let empty = cmd.parse_buffer(&[0x00, 0x00, 0x00, 0x00]).expect("a header");
    assert!(empty.is_empty());
    let empty = cmd.parse_buffer(&[0x00, 0x04, 0x00, 0x00]).expect("a header");
    assert!(empty.is_empty());
}

#[test]
fn report_density_support_two_density_records_in_order() {
    let cmd = ReportDensitySupport { medium_type: false, media: false, allocation_length: 108 };
    let buf = framed(108, &[density_record(0x58, b"U-516   "), density_record(0x5A, b"U-616   ")]);
    assert_eq!(buf.len(), 108);
    let list = cmd.parse_buffer(&buf).expect("two records");
    assert_eq!(list.len(), 2);
    match &list[0] {
        ReportDensitySupportOutput::Density(d) => {
            assert_eq!(d.primary_density_code, 0x58);
            assert_eq!(d.secondary_density_code, 0x59);
            assert!(d.wrtok);
            assert!(!d.dup);
            assert!(d.deflt);
            assert_eq!(d.bits_per_mm, 0x010203);
            assert_eq!(d.media_width, 127);
            assert_eq!(d.tracks, 896);
            assert_eq!(d.capacity, 750_000);
            assert_eq!(d.assigning_organization, "LTO-CVE ");
            assert_eq!(d.density_name, "U-516   ");
            assert_eq!(d.description, "Ultrium 5/16T       ");
        }
        ReportDensitySupportOutput::Medium(_) => panic!("a medium record"),
    }
    match &list[1] {
        ReportDensitySupportOutput::Density(d) => {
            assert_eq!(d.primary_density_code, 0x5A);
            assert_eq!(d.secondary_density_code, 0x5B);
            assert_eq!(d.density_name, "U-616   ");
        }
        ReportDensitySupportOutput::Medium(_) => panic!("a medium record"),
    }
}

#[test]
fn report_density_support_stops_at_the_declared_length() {
    let cmd = ReportDensitySupport::new();
    let records = [density_record(0x58, b"U-516   "), density_record(0x5A, b"U-616   ")];
    // The second record starts at 56: a declared length of 56 ends before it.
    let list = cmd.parse_buffer(&framed(56, &records)).expect("one record");
    assert_eq!(list.len(), 1);
    // A declared length of 57 reaches its first byte, and the buffer holds all of it.
    let list = cmd.parse_buffer(&framed(57, &records)).expect("two records");
    assert_eq!(list.len(), 2);
    // A declared length of 4 ends at the header.
    let list = cmd.parse_buffer(&framed(4, &records)).expect("no record");
    assert_eq!(list.len(), 0);
    // A declared length beyond the buffer ends at the buffer.
    let list = cmd.parse_buffer(&framed(0xFFFF, &records)).expect("two records");
    assert_eq!(list.len(), 2);
}

#[test]
fn report_density_support_leaves_out_a_partial_last_record() {
    let cmd = ReportDensitySupport::new();
    let mut buf = framed(1000, &[density_record(0x58, b"U-516   "), density_record(0x5A, b"U-616   ")]);
    buf.truncate(107);
    let list = cmd.parse_buffer(&buf).expect("one record");
    assert_eq!(list.len(), 1);
    match &list[0] {
        ReportDensitySupportOutput::Density(d) => assert_eq!(d.primary_density_code, 0x58),
        ReportDensitySupportOutput::Medium(_) => panic!("a medium record"),
    }
    buf.truncate(55);
    let list = cmd.parse_buffer(&buf).expect("no record");
    assert!(list.is_empty());
}

#[test]
fn report_density_support_text_that_is_not_utf8_is_empty() {
    let cmd = ReportDensitySupport::new();
    let mut record = density_record(0x58, b"U-516   ");
    record[16] = 0xFF;
    record[31] = 0xC3;
    record[32..34].copy_from_slice(&[0xC3, 0xA9]);
    let list = cmd.parse_buffer(&framed(56, &[record])).expect("one record");
    match &list[0] {
        ReportDensitySupportOutput::Density(d) => {
            assert_eq!(d.assigning_organization, "");
            assert_eq!(d.density_name, "");
            assert_eq!(d.description, "\u{e9}trium 5/16T       ");
        }
        ReportDensitySupportOutput::Medium(_) => panic!("a medium record"),
    }
}

#[test]
fn report_density_support_medium_records() {
    let cmd = ReportDensitySupport { medium_type: true, media: false, allocation_length: 200 };
    let buf = framed(116, &[medium_record(0x78, 3), medium_record(0x88, 200)]);
    assert_eq!(buf.len(), 116);
    let list = cmd.parse_buffer(&buf).expect("two records");
    assert_eq!(list.len(), 2);
    match &list[0] {
        ReportDensitySupportOutput::Medium(m) => {
            assert_eq!(m.medium_type, 0x78);
            assert_eq!(m.primary_density_codes, vec![0x40, 0x42, 0x44]);
            assert_eq!(m.media_width, 127);
            assert_eq!(m.medium_length, 512);
            assert_eq!(m.assigning_organization, "LTO-CVE ");
            assert_eq!(m.medium_type_name, "U-832   ");
            assert_eq!(m.description, "Ultrium 8 Data Tape ");
        }
        ReportDensitySupportOutput::Density(_) => panic!("a density record"),
    }
    match &list[1] {
        ReportDensitySupportOutput::Medium(m) => {
            assert_eq!(m.medium_type, 0x88);
            assert_eq!(
                m.primary_density_codes,
                vec![0x40, 0x42, 0x44, 0x46, 0x58, 0x5A, 0x5C, 0x5E, 0x60]
            );
        }
        ReportDensitySupportOutput::Density(_) => panic!("a density record"),
    }
}

#[test]
fn report_density_support_single_records() {
    let cmd = ReportDensitySupport::new();
    let record = density_record(0x40, b"U-116   ");
    assert!(cmd.parse_density(&record).is_some());
    assert!(cmd.parse_density(&record[..51]).is_none());
    assert!(cmd.parse_density(&medium_record(1, 0)).is_none());
    let record = medium_record(0x18, 0);
    let medium = cmd.parse_medium(&record).expect("a record");
    assert!(medium.primary_density_codes.is_empty());
    assert!(cmd.parse_medium(&record[..55]).is_none());
    assert!(cmd.parse_medium(&density_record(1, b"        ")).is_none());
}
