use joint_firmware::firmware::drivers::flash_storage::{
    calculate_crc, check_bank, load, load_bank, select_bank, Bank, DiagnosticData, FactoryData,
    FaultRecord, StorageError, MAGIC, VERSION,
};

/// A bank image with the given magic number, version and body, closed with
/// the CRC that the `crc` crate computes for them.
fn image(magic: u32, version: u32, body: &[u8]) -> Vec<u8> {
    let mut bytes: Vec<u8> = Vec::new();
    bytes.extend_from_slice(&magic.to_le_bytes());
    bytes.extend_from_slice(&version.to_le_bytes());
    bytes.extend_from_slice(body);
    let crc = crc::Crc::<u32>::new(&crc::CRC_32_CKSUM).checksum(&bytes);
    bytes.extend_from_slice(&crc.to_le_bytes());
    bytes
}

#[test]
fn crc_is_the_cksum_of_all_but_the_last_four_bytes() {
    // The check value of CRC-32/CKSUM is that of the digits 1 to 9.
    assert_eq!(calculate_crc(b"123456789...."), 0x765E_7680);
    assert_eq!(calculate_crc(b"123456789\0\0\0\0"), 0x765E_7680);
    assert_ne!(calculate_crc(b"123456780...."), 0x765E_7680);
    // Of an image shorter than four bytes nothing is covered.
    assert_eq!(calculate_crc(b"abc"), calculate_crc(b""));
    assert_eq!(calculate_crc(b"abcd"), calculate_crc(b""));
    assert_eq!(calculate_crc(b""), 0xFFFF_FFFF);
}

#[test]
fn a_sealed_image_is_accepted() {
    let bank = image(MAGIC, VERSION, &[1, 2, 3, 4, 5, 6, 7]);
    assert_eq!(load_bank(&bank), Ok(()));
    let bare = image(MAGIC, VERSION, &[]);
    assert_eq!(bare.len(), 12);
    assert_eq!(load_bank(&bare), Ok(()));
}

#[test]
fn magic_comes_before_version_before_crc() {
    let mut bank = image(MAGIC, VERSION, &[9; 40]);
    let end = bank.len();
    bank[end - 1] ^= 0x01;
    assert_eq!(load_bank(&bank), Err(StorageError::CrcMismatch));
    bank[4] = 2;
    assert_eq!(load_bank(&bank), Err(StorageError::VersionMismatch));
    bank[0] = 0;
    assert_eq!(load_bank(&bank), Err(StorageError::InvalidMagic));
}

#[test]
fn a_change_anywhere_in_the_body_is_noticed() {
    let bank = image(MAGIC, VERSION, &[0; 16]);
    for at in 8..bank.len() - 4 {
        let mut damaged = bank.clone();
        damaged[at] ^= 0x80;
        assert_eq!(load_bank(&damaged), Err(StorageError::CrcMismatch));
    }
}

#[test]
fn an_erased_or_short_bank_has_no_magic() {
    assert_eq!(load_bank(&[0xFF; 2048]), Err(StorageError::InvalidMagic));
    assert_eq!(load_bank(&[]), Err(StorageError::InvalidMagic));
    let eleven = &image(MAGIC, VERSION, &[])[..11];
    assert_eq!(load_bank(eleven), Err(StorageError::InvalidMagic));
}

#[test]
fn the_check_goes_by_the_crc_it_is_given() {
    let bank = image(MAGIC, VERSION, &[5; 8]);
    let stored = u32::from_le_bytes([bank[16], bank[17], bank[18], bank[19]]);
    assert_eq!(check_bank(&bank, stored), Ok(()));
    assert_eq!(check_bank(&bank, stored.wrapping_add(1)), Err(StorageError::CrcMismatch));
    let other_version = image(MAGIC, 7, &[5; 8]);
    assert_eq!(check_bank(&other_version, 0), Err(StorageError::VersionMismatch));
    let other_magic = image(0xDEAD_BEEF, VERSION, &[5; 8]);
    assert_eq!(check_bank(&other_magic, 0), Err(StorageError::InvalidMagic));
}

#[test]
fn the_primary_bank_is_preferred() {
    let good = image(MAGIC, VERSION, &[1; 8]);
    let also_good = image(MAGIC, VERSION, &[2; 8]);
    let stale = image(MAGIC, 0, &[3; 8]);
    let blank = vec![0xFFu8; 32];
    assert_eq!(load(&good, &also_good), Ok(Bank::A));
    assert_eq!(load(&good, &blank), Ok(Bank::A));
    assert_eq!(load(&blank, &good), Ok(Bank::B));
    assert_eq!(load(&stale, &good), Ok(Bank::B));
    // With both refused, the reason of the backup bank is reported.
    assert_eq!(load(&blank, &stale), Err(StorageError::VersionMismatch));
    assert_eq!(load(&stale, &blank), Err(StorageError::InvalidMagic));
}

#[test]
fn bank_selection_by_verdicts() {
    assert_eq!(select_bank(Ok(()), Err(StorageError::CrcMismatch)), Ok(Bank::A));
    assert_eq!(select_bank(Err(StorageError::CrcMismatch), Ok(())), Ok(Bank::B));
    assert_eq!(
        select_bank(Err(StorageError::CrcMismatch), Err(StorageError::InvalidMagic)),
        Err(StorageError::InvalidMagic)
    );
}

#[test]
fn default_records() {
    let fault = FaultRecord::default();
    assert_eq!((fault.fault_type, fault.timestamp, fault.vbus_mv), (0, 0, 0));
    assert_eq!((fault.current_ma, fault.temp_c), (0, 0));
    assert_eq!(fault.reserved, [0; 7]);
    let diagnostics = DiagnosticData::default();
    assert_eq!(diagnostics.total_runtime_hours, 0);
    assert_eq!(diagnostics.power_cycle_count, 0);
    assert_eq!(diagnostics.temp_max_c, -40);
    assert_eq!(diagnostics.temp_min_c, 125);
    assert_eq!(diagnostics.fault_history.len(), 10);
    assert!(diagnostics.fault_history.iter().all(|f| f.fault_type == 0 && f.timestamp == 0));
    let factory = FactoryData::default();
    assert_eq!(factory.hardware_version, 200);
    assert_eq!(factory.serial_number, 0);
    assert!(!factory.factory_test_passed);
}
