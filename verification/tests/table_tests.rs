use acpi_tables::AcpiError;
use acpi_tables::SdtHeader;
use acpi_tables::checksum::checksum;
use acpi_tables::{GuestWrite, Sdt, Table};
use vm_memory::{Address, Bytes, GuestAddress, GuestMemoryError, GuestMemoryMmap};

fn blob(body: Vec<u8>) -> Table {
    let length = u32::try_from(36 + body.len()).unwrap();
    Table::new(SdtHeader::new(*b"BLOB", length, 1, *b"FIRECK", *b"FCVMBLOB", 0), body)
}

fn image(table: &Table) -> Vec<u8> {
    let mut image = table.header().as_bytes().to_vec();
    image.extend_from_slice(table.body());
    image
}

fn wrapping_total(bytes: &[u8]) -> u8 {
    bytes.iter().fold(0u8, |sum, byte| sum.wrapping_add(*byte))
}

fn guest_memory(start: u64, size: usize) -> GuestMemoryMmap {
    GuestMemoryMmap::<()>::from_ranges(&[(GuestAddress(start), size)]).unwrap()
}

fn commit<T: Sdt>(
    table: &mut T,
    memory: &GuestMemoryMmap,
    address: GuestAddress,
) -> Result<usize, AcpiError> {
    let write = table.write_to_guest(address.raw_value())?;
    let transferred = write.len();
    let outcome = memory.write_slice(&write.bytes, GuestAddress(write.address));
    write.finish(outcome)?;
    Ok(transferred)
}

#[test]
fn guest_write_new_keeps_address_and_bytes() {
    let write = GuestWrite::new(0x1000, vec![1, 2, 3]).unwrap();
    assert_eq!(write.address, 0x1000);
    assert_eq!(write.bytes, vec![1, 2, 3]);
    assert_eq!(write.len(), 3);
}

#[test]
fn guest_write_new_accepts_the_last_addressable_range() {
    let write = GuestWrite::new(u64::MAX - 4, vec![0; 4]).unwrap();
    assert_eq!(write.address, u64::MAX - 4);
    assert_eq!(write.len(), 4);
    let empty = GuestWrite::new(u64::MAX, Vec::new()).unwrap();
    assert_eq!(empty.len(), 0);
}

#[test]
fn guest_write_new_rejects_a_range_past_the_address_space() {
    let r = GuestWrite::new(u64::MAX - 3, vec![0; 4]);
    assert!(matches!(r, Err(AcpiError::InvalidGuestAddress)));
    let r = GuestWrite::new(u64::MAX, vec![7]);
    assert!(matches!(r, Err(AcpiError::InvalidGuestAddress)));
}

#[test]
fn finish_passes_success_on() {
    let write = GuestWrite::new(0, vec![1]).unwrap();
    assert!(matches!(write.finish(Ok(())), Ok(())));
}

#[test]
fn finish_wraps_the_cause_of_a_failure() {
    let write = GuestWrite::new(0x40, vec![1]).unwrap();
    let cause = GuestMemoryError::InvalidGuestAddress(GuestAddress(0x40));
    match write.finish(Err(cause)) {
        Err(AcpiError::GuestMemory(GuestMemoryError::InvalidGuestAddress(at))) => {
            assert_eq!(at, GuestAddress(0x40))
        }
        other => panic!("unexpected result: {:?}", other),
    }

    let write = GuestWrite::new(0, vec![1, 2, 3, 4]).unwrap();
    let cause = GuestMemoryError::PartialBuffer { expected: 4, completed: 1 };
    match write.finish(Err(cause)) {
        Err(AcpiError::GuestMemory(GuestMemoryError::PartialBuffer { expected, completed })) => {
            assert_eq!((expected, completed), (4, 1))
        }
        other => panic!("unexpected result: {:?}", other),
    }
}

#[test]
fn from_wraps_a_guest_memory_error() {
    let error = AcpiError::from(GuestMemoryError::HostAddressNotAvailable);
    assert!(matches!(
        error,
        AcpiError::GuestMemory(GuestMemoryError::HostAddressNotAvailable)
    ));
}

#[test]
fn error_variants_are_distinct() {
    assert!(!matches!(AcpiError::InvalidGuestAddress, AcpiError::InvalidRegisterSize));
    assert!(!matches!(AcpiError::InvalidRegisterSize, AcpiError::GuestMemory(_)));
    assert_eq!(format!("{:?}", AcpiError::InvalidRegisterSize), "InvalidRegisterSize");
}

#[test]
fn table_new_finalizes_the_checksum() {
    let body = vec![1u8, 2, 3, 250, 255];
    let header = SdtHeader::new(*b"XSDT", 41, 1, *b"FIRECK", *b"FCMVXSDT", 3);
    let expected = checksum(&[&header.as_bytes(), &body]);
    let table = Table::new(header, body.clone());
    assert_eq!(table.header().checksum, expected);
    assert_eq!(table.body(), &body[..]);
    assert_eq!(wrapping_total(&image(&table)), 0);
}

#[test]
fn table_new_keeps_the_other_header_fields() {
    let mut header = SdtHeader::new(*b"APIC", 7, 9, *b"ABCDEF", *b"GHIJKLMN", 0x0a0b_0c0d);
    header.checksum = 0xee;
    let table = Table::new(header, vec![0xde, 0xad, 0xbe, 0xef]);
    let kept = table.header();
    assert_eq!(kept.signature, *b"APIC");
    assert_eq!(kept.length, 7);
    assert_eq!(kept.revision, 9);
    assert_eq!(kept.oem_id, *b"ABCDEF");
    assert_eq!(kept.oem_table_id, *b"GHIJKLMN");
    assert_eq!(kept.oem_revision, 0x0a0b_0c0d);
    assert_eq!(kept.creator_id, *b"FCAT");
    assert_eq!(kept.creator_revision, 0x2024_0119);
    assert_eq!(wrapping_total(&image(&table)), 0);
}

#[test]
fn table_without_body_is_its_header() {
    let table = Table::new(SdtHeader::new(*b"DSDT", 36, 2, [0; 6], [0; 8], 0), Vec::new());
    assert_eq!(table.len(), 36);
    assert!(!table.is_empty());
    assert_eq!(table.body().len(), 0);
    assert_eq!(wrapping_total(&table.header().as_bytes()), 0);
}

#[test]
fn is_empty_follows_len() {
    let table = blob(vec![1, 2, 3]);
    assert_eq!(table.len(), 39);
    assert_eq!(table.is_empty(), table.len() == 0);
    assert!(!table.is_empty());
}

#[test]
fn write_to_guest_hands_out_the_whole_image() {
    let mut table = blob(vec![10, 20, 30, 40]);
    let write = table.write_to_guest(0x2000).unwrap();
    assert_eq!(write.address, 0x2000);
    assert_eq!(write.len(), table.len());
    assert_eq!(write.bytes, image(&table));
    assert_eq!(&write.bytes[..4], b"BLOB");
    assert_eq!(&write.bytes[36..], &[10, 20, 30, 40]);
    assert_eq!(wrapping_total(&write.bytes), 0);
}

#[test]
fn write_to_guest_leaves_the_table_as_it_is() {
    let mut table = blob(vec![7; 9]);
    let before = image(&table);
    let first = table.write_to_guest(0).unwrap();
    let second = table.write_to_guest(0x500).unwrap();
    assert_eq!(image(&table), before);
    assert_eq!(first.bytes, second.bytes);
}

#[test]
fn write_to_guest_reports_an_address_without_room() {
    let mut table = blob(vec![0; 8]);
    let r = table.write_to_guest(u64::MAX - 10);
    assert!(matches!(r, Err(AcpiError::InvalidGuestAddress)));
    let r = table.write_to_guest(u64::MAX - 44);
    assert!(r.is_ok());
    let r = table.write_to_guest(u64::MAX - 43);
    assert!(matches!(r, Err(AcpiError::InvalidGuestAddress)));
}

#[test]
fn a_committed_table_is_in_guest_memory() {
    let memory = guest_memory(0x1000, 0x1000);
    let mut table = blob(vec![0xaa, 0xbb, 0xcc]);
    let transferred = commit(&mut table, &memory, GuestAddress(0x1800)).unwrap();
    assert_eq!(transferred, table.len());
    assert_eq!(transferred, 39);

    let mut read = vec![0u8; table.len()];
    memory.read_slice(&mut read, GuestAddress(0x1800)).unwrap();
    assert_eq!(read, image(&table));
    assert_eq!(wrapping_total(&read), 0);
}

#[test]
fn a_table_can_be_committed_twice() {
    let memory = guest_memory(0, 0x1000);
    let mut table = blob(vec![5; 20]);
    commit(&mut table, &memory, GuestAddress(0x100)).unwrap();
    commit(&mut table, &memory, GuestAddress(0x800)).unwrap();
    let mut first = vec![0u8; 56];
    let mut second = vec![0u8; 56];
    memory.read_slice(&mut first, GuestAddress(0x100)).unwrap();
    memory.read_slice(&mut second, GuestAddress(0x800)).unwrap();
    assert_eq!(first, second);
    assert_eq!(first, image(&table));
}

#[test]
fn a_refused_write_is_a_guest_memory_error() {
    let memory = guest_memory(0x1000, 0x1000);
    let mut table = blob(vec![1, 2, 3]);
    let r = commit(&mut table, &memory, GuestAddress(0x9000));
    assert!(matches!(r, Err(AcpiError::GuestMemory(_))));
    let r = commit(&mut table, &memory, GuestAddress(0x1ff0));
    assert!(matches!(r, Err(AcpiError::GuestMemory(_))));
}

#[test]
fn an_address_without_room_never_reaches_guest_memory() {
    let memory = guest_memory(0x1000, 0x1000);
    let mut table = blob(vec![1, 2, 3]);
    let r = commit(&mut table, &memory, GuestAddress(u64::MAX - 2));
    assert!(matches!(r, Err(AcpiError::InvalidGuestAddress)));
}
