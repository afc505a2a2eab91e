//! Persistent data in the two flash banks: the records that are kept there
//! and the checks by which a bank image is accepted.
//!
//! A bank image starts with the magic number and the data version, four bytes
//! each, and ends with the CRC-32 of everything before it; all three are
//! stored least significant byte first. The CRC is computed by the `crc`
//! crate; what it returns is named by `cksum` and believed, not proved.

use vstd::prelude::*;
use vstd::slice::slice_subrange;

verus! {

/// Marks a bank that has been written.
pub const MAGIC: u32 = 0xCAFE_BABE;

/// Version of the data layout.
pub const VERSION: u32 = 1;

/// Size of a flash page, and so of a bank, in bytes.
pub const PAGE_SIZE: usize = 2048;

/// Address of the primary bank.
pub const BANK_A_ADDR: u32 = 0x0801_F000;

/// Address of the backup bank.
pub const BANK_B_ADDR: u32 = 0x0801_F800;

/// Bytes that the magic number, the version and the CRC take together.
pub const FRAME_SIZE: usize = 12;

/// Why a bank could not be read or written.
#[derive(Debug, Clone, Copy, PartialEq, Eq, Structural)]
pub enum StorageError {
    InvalidMagic,
    VersionMismatch,
    CrcMismatch,
    EraseError,
    WriteError,
}

/// One of the two banks.
#[derive(Debug, Clone, Copy, PartialEq, Eq, Structural)]
pub enum Bank {
    /// The primary bank.
    A,
    /// The backup bank.
    B,
}

/// One recorded fault.
#[derive(Clone, Copy, Debug)]
pub struct FaultRecord {
    pub fault_type: u8,
    pub timestamp: u32,
    pub vbus_mv: u16,
    pub current_ma: u16,
    pub temp_c: i8,
    pub reserved: [u8; 7],
}

impl Default for FaultRecord {
    fn default() -> (r: Self)
        ensures
            r.fault_type == 0,
            r.timestamp == 0,
            r.vbus_mv == 0,
            r.current_ma == 0,
            r.temp_c == 0,
            forall|i: int| 0 <= i < 7 ==> r.reserved@[i] == 0,
    {
        FaultRecord {
            fault_type: 0,
            timestamp: 0,
            vbus_mv: 0,
            current_ma: 0,
            temp_c: 0,
            reserved: [0u8;7],
        }
    }
}

/// Diagnostic data gathered over the life of the joint.
#[derive(Clone, Copy, Debug)]
pub struct DiagnosticData {
    pub total_runtime_hours: u32,
    pub power_cycle_count: u32,
    pub fault_history: [FaultRecord; 10],
    pub temp_max_c: i16,
    pub temp_min_c: i16,
    pub last_fault_timestamp: u32,
    pub reserved: [u8; 64],
}

impl Default for DiagnosticData {
    /// No runtime, no faults, and temperature extremes that the first reading
    /// replaces: a maximum of -40 °C and a minimum of 125 °C.
    fn default() -> (d: Self)
        ensures
            d.total_runtime_hours == 0,
            d.power_cycle_count == 0,
            d.temp_max_c == -40,
            d.temp_min_c == 125,
            d.last_fault_timestamp == 0,
            forall|i: int| 0 <= i < 10 ==> (#[trigger] d.fault_history@[i]).fault_type == 0,
    {
        let blank = FaultRecord::default();
        DiagnosticData {
            total_runtime_hours: 0,
            power_cycle_count: 0,
            fault_history: [blank;10],
            temp_max_c: -40,
            temp_min_c: 125,
            last_fault_timestamp: 0,
            reserved: [0u8;64],
        }
    }
}

/// Data set once during manufacturing.
#[derive(Clone, Copy, Debug)]
pub struct FactoryData {
    pub hardware_version: u16,
    pub serial_number: u32,
    pub manufacturing_date: u32,
    pub factory_test_passed: bool,
    pub reserved: [u8; 32],
}

impl Default for FactoryData {
    /// Hardware version 2.0, nothing else known.
    fn default() -> (f: Self)
        ensures
            f.hardware_version == 200,
            f.serial_number == 0,
            f.manufacturing_date == 0,
            !f.factory_test_passed,
    {
        FactoryData {
            hardware_version: 200,
            serial_number: 0,
            manufacturing_date: 0,
            factory_test_passed: false,
            reserved: [0u8;32],
        }
    }
}

/// The CRC-32/CKSUM of `bytes`, as `crc::Crc::checksum` computes it.
pub uninterp spec fn cksum(bytes: Seq<u8>) -> u32;

/// `crc::Crc::<u32>::checksum` for the algorithm `CRC_32_CKSUM`: the
/// checksum of `bytes`, which depends on the bytes alone.
#[verifier::external_body]
fn checksum(bytes: &[u8]) -> (c: u32)
    ensures
        c == cksum(bytes@),
{
    crc::Crc::<u32>::new(&crc::CRC_32_CKSUM).checksum(bytes)
}

/// The number that the four bytes of `bytes` from `at` on encode, least
/// significant byte first.
pub open spec fn le_u32(bytes: Seq<u8>, at: int) -> int
    recommends
        0 <= at,
        at + 4 <= bytes.len(),
{
    bytes[at] + 0x100 * bytes[at + 1] + 0x1_0000 * bytes[at + 2] + 0x100_0000 * bytes[at + 3]
}

/// The part of a bank image that its CRC covers: all but the last four bytes;
/// nothing of an image shorter than that.
pub open spec fn covered(image: Seq<u8>) -> Seq<u8> {
    if image.len() >= 4 {
        image.subrange(0, image.len() - 4)
    } else {
        Seq::empty()
    }
}

/// Whether a bank image is accepted.
pub open spec fn image_verdict(image: Seq<u8>) -> Result<(), StorageError> {
    bank_verdict(image, cksum(covered(image)))
}

/// The bank to load from, given the verdict on each: the primary bank if it
/// is accepted, else the backup bank if that is accepted, else the reason for
/// which the backup bank was refused.
pub open spec fn bank_choice(
    primary: Result<(), StorageError>,
    backup: Result<(), StorageError>,
) -> Result<Bank, StorageError> {
    match (primary, backup) {
        (Ok(_), _) => Ok(Bank::A),
        (Err(_), Ok(_)) => Ok(Bank::B),
        (Err(_), Err(e)) => Err(e),
    }
}

/// Whether a bank image is accepted, given the CRC `computed` of its covered
/// part. The magic number is checked first, then the version, then the CRC.
/// An image too short to hold the three has no magic number.
pub open spec fn bank_verdict(image: Seq<u8>, computed: u32) -> Result<(), StorageError> {
    if image.len() < FRAME_SIZE || le_u32(image, 0) != MAGIC {
        Err(StorageError::InvalidMagic)
    } else if le_u32(image, 4) != VERSION {
        Err(StorageError::VersionMismatch)
    } else if le_u32(image, image.len() - 4) != computed {
        Err(StorageError::CrcMismatch)
    } else {
        Ok(())
    }
}

/// Reads four bytes of `bytes` from `at` on, least significant byte first.
fn read_le_u32(bytes: &[u8], at: usize) -> (v: u32)
    requires
        at + 4 <= bytes@.len(),
    ensures
        v == le_u32(bytes@, at as int),
{
    let wide: u64 = bytes[at] as u64 + 0x100 * (bytes[at + 1] as u64) + 0x1_0000 * (bytes[at
        + 2] as u64) + 0x100_0000 * (bytes[at + 3] as u64);
    wide as u32
}

/// Checks a bank image against the CRC `computed` of its covered part.
pub fn check_bank(image: &[u8], computed: u32) -> (r: Result<(), StorageError>)
    ensures
        r == bank_verdict(image@, computed),
{
    let len: usize = image.len();
    if len < FRAME_SIZE {
        return Err(StorageError::InvalidMagic);
    }
    if read_le_u32(image, 0) != MAGIC {
        return Err(StorageError::InvalidMagic);
    }
    if read_le_u32(image, 4) != VERSION {
        return Err(StorageError::VersionMismatch);
    }
    if read_le_u32(image, len - 4) != computed {
        return Err(StorageError::CrcMismatch);
    }
    Ok(())
}

/// The CRC of the covered part of a bank image.
pub fn calculate_crc(image: &[u8]) -> (c: u32)
    ensures
        c == cksum(covered(image@)),
{
    let len: usize = image.len();
    let end: usize = if len < 4 {
        0
    } else {
        len - 4
    };
    let part = slice_subrange(image, 0, end);
    assert(part@ =~= covered(image@));
    checksum(part)
}

/// Whether a bank image is accepted: its magic number, its version and its
/// CRC are as they should be.
pub fn load_bank(image: &[u8]) -> (r: Result<(), StorageError>)
    ensures
        r == image_verdict(image@),
        image@.len() < FRAME_SIZE ==> r == Err::<(), StorageError>(StorageError::InvalidMagic),
{
    let computed: u32 = calculate_crc(image);
    check_bank(image, computed)
}

/// The bank to load from, given the verdict on each.
pub fn select_bank(
    primary: Result<(), StorageError>,
    backup: Result<(), StorageError>,
) -> (r: Result<Bank, StorageError>)
    ensures
        r == bank_choice(primary, backup),
        r is Err <==> primary is Err && backup is Err,
{
    match primary {
        Ok(_) => Ok(Bank::A),
        Err(_) => match backup {
            Ok(_) => Ok(Bank::B),
            Err(e) => Err(e),
        },
    }
}

/// The bank to load from, given the images of both: the primary bank unless
/// it is refused, then the backup bank.
pub fn load(bank_a: &[u8], bank_b: &[u8]) -> (r: Result<Bank, StorageError>)
    ensures
        r == bank_choice(image_verdict(bank_a@), image_verdict(bank_b@)),
{
    select_bank(load_bank(bank_a), load_bank(bank_b))
}

} // verus!
