use smbios_discovery::locate::{Format, Locator, Phase, Scan, ScanError};
use smbios_discovery::record::{EntryPointRecord, ExtendedEntryPoint, LegacyEntryPoint};
use smbios_discovery::source::{read_image, IoFault, ReadReply, ReadRequest};
use smbios_discovery::window::MemoryWindow;

fn sum_to_zero(bytes: &[u8]) -> u8 {
    let mut sum: u8 = 0;
    for byte in bytes {
        sum = sum.wrapping_add(*byte);
    }
    0u8.wrapping_sub(sum)
}

fn legacy_bytes() -> Vec<u8> {
    let mut raw = vec![0u8; 0x1F];
    raw[0..4].copy_from_slice(b"_SM_");
    raw[5] = 0x1F;
    raw[6] = 2;
    raw[7] = 7;
    raw[0x10..0x15].copy_from_slice(b"_DMI_");
    raw[0x16..0x18].copy_from_slice(&[0x00, 0x01]);
    raw[0x18..0x1C].copy_from_slice(&[0x00, 0x05, 0x0F, 0x00]);
    raw[0x1C..0x1E].copy_from_slice(&[0x2A, 0x00]);
    raw[0x15] = sum_to_zero(&raw[0x10..0x1F]);
    raw[4] = sum_to_zero(&raw);
    raw
}

fn extended_bytes() -> Vec<u8> {
    let mut raw = vec![0u8; 0x18];
    raw[0..5].copy_from_slice(b"_SM3_");
    raw[6] = 0x18;
    raw[7] = 3;
    raw[8] = 5;
    raw[9] = 2;
    raw[0x0C..0x10].copy_from_slice(&[0x00, 0x10, 0x00, 0x00]);
    raw[0x10..0x18].copy_from_slice(&[0x00, 0x00, 0x0E, 0x00, 0x00, 0x00, 0x00, 0x00]);
    raw[5] = sum_to_zero(&raw);
    raw
}

fn scanning(window: MemoryWindow, format: Format, at: u64, phase: Phase) -> Locator {
    Locator::Scanning(Scan { window, format, at, phase })
}

#[test]
fn locator_starts_with_the_legacy_anchor_at_the_start_of_the_window() {
    let window = MemoryWindow::legacy();
    let locator = Locator::start(window);
    assert_eq!(locator, scanning(window, Format::Legacy, 0xF0000, Phase::Anchor));
    assert_eq!(locator.pending(), Some(ReadRequest { offset: 0xF0000, len: 4 }));
    assert_eq!(locator.outcome(), None);
}

#[test]
fn locator_over_a_window_without_addresses_is_finished() {
    let locator = Locator::start(MemoryWindow { start: 9, end: 8 });
    assert_eq!(locator, Locator::Finished(Err(ScanError::NotFound)));
    assert_eq!(locator.pending(), None);
    assert_eq!(locator.outcome(), Some(Err(ScanError::NotFound)));
}

#[test]
fn locator_steps_by_paragraphs_to_the_end_of_the_window() {
    let window = MemoryWindow::new(0x100, 0x12F).unwrap();
    let mut locator = Locator::start(window);
    let mut asked = Vec::new();
    while let Some(request) = locator.pending() {
        asked.push((request.offset, request.len));
        locator = locator.advance(ReadReply::Data(vec![0u8; request.len as usize]));
    }
    assert_eq!(
        asked,
        vec![(0x100, 4), (0x110, 4), (0x120, 4), (0x100, 5), (0x110, 5), (0x120, 5)]
    );
    assert_eq!(locator.outcome(), Some(Err(ScanError::NotFound)));
}

#[test]
fn locator_reads_anchor_then_length_then_record() {
    let window = MemoryWindow::new(0x100, 0x1FF).unwrap();
    let record = legacy_bytes();
    let locator = scanning(window, Format::Legacy, 0x140, Phase::Anchor);
    let locator = locator.advance(ReadReply::Data(record[..4].to_vec()));
    assert_eq!(locator, scanning(window, Format::Legacy, 0x140, Phase::Length));
    assert_eq!(locator.pending(), Some(ReadRequest { offset: 0x140, len: 6 }));
    let locator = locator.advance(ReadReply::Data(record[..6].to_vec()));
    assert_eq!(locator, scanning(window, Format::Legacy, 0x140, Phase::Body(0x1F)));
    assert_eq!(locator.pending(), Some(ReadRequest { offset: 0x140, len: 0x1F }));
    let locator = locator.advance(ReadReply::Data(record));
    assert_eq!(
        locator.outcome(),
        Some(Ok(EntryPointRecord::Legacy(LegacyEntryPoint {
            major: 2,
            minor: 7,
            table_address: 0x000F_0500,
            table_length: 0x0100,
            structure_count: 42,
        })))
    );
    assert_eq!(locator.pending(), None);
}

#[test]
fn locator_reads_the_extended_length_one_byte_later() {
    let window = MemoryWindow::new(0x100, 0x1FF).unwrap();
    let record = extended_bytes();
    let locator = scanning(window, Format::Extended, 0x1F0, Phase::Anchor);
    assert_eq!(locator.pending(), Some(ReadRequest { offset: 0x1F0, len: 5 }));
    let locator = locator.advance(ReadReply::Data(record[..5].to_vec()));
    assert_eq!(locator.pending(), Some(ReadRequest { offset: 0x1F0, len: 7 }));
    let locator = locator.advance(ReadReply::Data(record[..7].to_vec()));
    assert_eq!(locator.pending(), Some(ReadRequest { offset: 0x1F0, len: 0x18 }));
    let locator = locator.advance(ReadReply::Data(record));
    assert_eq!(
        locator.outcome(),
        Some(Ok(EntryPointRecord::Extended(ExtendedEntryPoint {
            major: 3,
            minor: 5,
            docrev: 2,
            table_address: 0x000E_0000,
            table_max_size: 0x1000,
        })))
    );
}

#[test]
fn fault_in_the_legacy_search_ends_the_search() {
    let window = MemoryWindow::legacy();
    for phase in [Phase::Anchor, Phase::Length, Phase::Body(0x1F)] {
        for fault in [IoFault::Os(5), IoFault::Os(13), IoFault::InvalidData, IoFault::Other] {
            let locator = scanning(window, Format::Legacy, 0xF0040, phase);
            let locator = locator.advance(ReadReply::Fault(fault));
            assert_eq!(locator, Locator::Finished(Err(ScanError::Io(fault))));
            assert_eq!(locator.pending(), None);
            assert_eq!(locator.outcome(), Some(Err(ScanError::Io(fault))));
        }
    }
}

#[test]
fn fault_in_the_extended_search_ends_the_search() {
    let window = MemoryWindow::legacy();
    let locator = scanning(window, Format::Extended, 0xF0040, Phase::Anchor);
    let locator = locator.advance(ReadReply::Fault(IoFault::Os(5)));
    assert_eq!(locator, Locator::Finished(Err(ScanError::Io(IoFault::Os(5)))));
}

#[test]
fn short_read_in_the_legacy_search_starts_the_extended_search() {
    let window = MemoryWindow::legacy();
    for phase in [Phase::Anchor, Phase::Length, Phase::Body(0x1F)] {
        let locator = scanning(window, Format::Legacy, 0xF0040, phase);
        let locator = locator.advance(ReadReply::Fault(IoFault::UnexpectedEof));
        assert_eq!(locator, scanning(window, Format::Extended, 0xF0000, Phase::Anchor));
        assert_eq!(locator.pending(), Some(ReadRequest { offset: 0xF0000, len: 5 }));
    }
}

#[test]
fn short_read_in_the_extended_search_gives_not_found() {
    let window = MemoryWindow::legacy();
    for phase in [Phase::Anchor, Phase::Length, Phase::Body(0x18)] {
        let locator = scanning(window, Format::Extended, 0xF0040, phase);
        let locator = locator.advance(ReadReply::Fault(IoFault::UnexpectedEof));
        assert_eq!(locator, Locator::Finished(Err(ScanError::NotFound)));
    }
}

#[test]
fn reply_of_another_length_counts_as_a_short_read() {
    let window = MemoryWindow::legacy();
    let locator = scanning(window, Format::Legacy, 0xF0040, Phase::Anchor);
    let next = locator.advance(ReadReply::Data(b"_SM".to_vec()));
    assert_eq!(next, scanning(window, Format::Extended, 0xF0000, Phase::Anchor));
    let next = locator.advance(ReadReply::Data(b"_SM_x".to_vec()));
    assert_eq!(next, scanning(window, Format::Extended, 0xF0000, Phase::Anchor));
    let locator = scanning(window, Format::Extended, 0xF0040, Phase::Length);
    let next = locator.advance(ReadReply::Data(b"_SM3_\0".to_vec()));
    assert_eq!(next, Locator::Finished(Err(ScanError::NotFound)));
    let locator = scanning(window, Format::Extended, 0xF0040, Phase::Body(0x18));
    let mut longer = extended_bytes();
    longer.push(0);
    let next = locator.advance(ReadReply::Data(longer));
    assert_eq!(next, Locator::Finished(Err(ScanError::NotFound)));
}

#[test]
fn last_paragraph_of_the_window_is_searched() {
    let window = MemoryWindow::new(0x100, 0x120).unwrap();
    let locator = scanning(window, Format::Legacy, 0x110, Phase::Anchor);
    let locator = locator.advance(ReadReply::Data(vec![0u8; 4]));
    assert_eq!(locator, scanning(window, Format::Legacy, 0x120, Phase::Anchor));
    let locator = locator.advance(ReadReply::Data(vec![0u8; 4]));
    assert_eq!(locator, scanning(window, Format::Extended, 0x100, Phase::Anchor));
    let window = MemoryWindow::new(0x100, 0x11F).unwrap();
    let locator = scanning(window, Format::Legacy, 0x110, Phase::Anchor);
    let locator = locator.advance(ReadReply::Data(vec![0u8; 4]));
    assert_eq!(locator, scanning(window, Format::Extended, 0x100, Phase::Anchor));
}

#[test]
fn window_at_the_top_of_the_address_space_does_not_wrap() {
    let window = MemoryWindow::new(u64::MAX - 0x20, u64::MAX).unwrap();
    let mut locator = Locator::start(window);
    let mut asked = Vec::new();
    while let Some(request) = locator.pending() {
        asked.push(request.offset);
        locator = locator.advance(ReadReply::Data(vec![0u8; request.len as usize]));
    }
    let places = vec![u64::MAX - 0x20, u64::MAX - 0x10, u64::MAX];
    assert_eq!(asked, [places.clone(), places].concat());
    assert_eq!(locator.outcome(), Some(Err(ScanError::NotFound)));
}

#[test]
fn finished_locator_ignores_replies() {
    let locator = Locator::Finished(Err(ScanError::Malformed));
    assert_eq!(locator.advance(ReadReply::Data(legacy_bytes())), locator);
    assert_eq!(locator.advance(ReadReply::Fault(IoFault::Os(5))), locator);
}

#[test]
fn record_that_fails_its_checks_ends_the_search_as_malformed() {
    let window = MemoryWindow::legacy();
    let mut record = legacy_bytes();
    record[0x11] = b'X';
    let locator = scanning(window, Format::Legacy, 0xF0040, Phase::Body(0x1F));
    assert_eq!(
        locator.advance(ReadReply::Data(record)),
        Locator::Finished(Err(ScanError::Malformed))
    );
    let locator = scanning(window, Format::Legacy, 0xF0040, Phase::Body(0));
    assert_eq!(
        locator.advance(ReadReply::Data(Vec::new())),
        Locator::Finished(Err(ScanError::Malformed))
    );
}

#[test]
fn image_answers_requests_inside_it() {
    let image: Vec<u8> = (0u8..=9).collect();
    assert_eq!(
        read_image(&image, ReadRequest { offset: 3, len: 4 }),
        ReadReply::Data(vec![3, 4, 5, 6])
    );
    assert_eq!(
        read_image(&image, ReadRequest { offset: 0, len: 10 }),
        ReadReply::Data(image.clone())
    );
    assert_eq!(read_image(&image, ReadRequest { offset: 10, len: 0 }), ReadReply::Data(vec![]));
}

#[test]
fn image_fails_requests_past_its_end() {
    let image: Vec<u8> = (0u8..=9).collect();
    let short = ReadReply::Fault(IoFault::UnexpectedEof);
    assert_eq!(read_image(&image, ReadRequest { offset: 3, len: 8 }), short);
    assert_eq!(read_image(&image, ReadRequest { offset: 10, len: 1 }), short);
    assert_eq!(read_image(&image, ReadRequest { offset: 11, len: 0 }), short);
    assert_eq!(read_image(&image, ReadRequest { offset: u64::MAX, len: u64::MAX }), short);
    assert_eq!(read_image(&image, ReadRequest { offset: 1, len: u64::MAX }), short);
}

#[test]
fn source_that_faults_in_the_legacy_search_is_never_asked_for_the_extended_anchor() {
    let window = MemoryWindow::legacy();
    let mut locator = Locator::start(window);
    let mut asked = Vec::new();
    while let Some(request) = locator.pending() {
        asked.push((request.offset, request.len));
        let reply = if asked.len() < 3 {
            ReadReply::Data(vec![0u8; request.len as usize])
        } else {
            ReadReply::Fault(IoFault::Os(5))
        };
        locator = locator.advance(reply);
    }
    assert_eq!(asked, vec![(0xF0000, 4), (0xF0010, 4), (0xF0020, 4)]);
    assert_eq!(locator.outcome(), Some(Err(ScanError::Io(IoFault::Os(5)))));
}

#[test]
fn source_that_ends_in_the_legacy_search_is_asked_for_the_extended_anchor() {
    let window = MemoryWindow::legacy();
    let mut image = vec![0u8; 0xF0028];
    image[0xF0010..0xF0028].copy_from_slice(&extended_bytes());
    let mut locator = Locator::start(window);
    let mut asked = Vec::new();
    while let Some(request) = locator.pending() {
        asked.push((request.offset, request.len));
        locator = locator.advance(read_image(&image, request));
    }
    assert_eq!(
        asked,
        vec![
            (0xF0000, 4),
            (0xF0010, 4),
            (0xF0020, 4),
            (0xF0030, 4),
            (0xF0000, 5),
            (0xF0010, 5),
            (0xF0010, 7),
            (0xF0010, 0x18),
        ]
    );
    assert_eq!(
        locator.outcome(),
        Some(Ok(EntryPointRecord::Extended(ExtendedEntryPoint {
            major: 3,
            minor: 5,
            docrev: 2,
            table_address: 0x000E_0000,
            table_max_size: 0x1000,
        })))
    );
}
