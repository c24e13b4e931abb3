use shrek_superslam::files::ltimesh::{LtimeshEntry, LtimeshHeader};
use shrek_superslam::files::{Ltimesh, LtimeshEntryType, LtimeshFile};
use shrek_superslam::{Console, Error};

fn put(raw: &mut Vec<u8>, at: usize, n: u32) {
    raw[at..at + 4].copy_from_slice(&n.to_le_bytes());
}

/// A mesh file of two parts: one of the third type, named "ab", with the
/// data 1, 2, 3, and one of the second type, named "c", with eight bytes of
/// data.
fn mesh() -> Vec<u8> {
    let mut raw = vec![0u8; 0x58];
    put(&mut raw, 0x08, 2);
    put(&mut raw, 0x0C, 0x20);
    // the entries
    raw[0x20 + 3] = 3;
    put(&mut raw, 0x24, 0x40);
    put(&mut raw, 0x28, 0x38);
    raw[0x2C + 3] = 2;
    put(&mut raw, 0x30, 0x50);
    put(&mut raw, 0x34, 0x43);
    // the first part
    put(&mut raw, 0x38, 0x1111);
    raw[0x3C..0x3E].copy_from_slice(b"ab");
    raw[0x40..0x43].copy_from_slice(&[1, 2, 3]);
    // the second part
    put(&mut raw, 0x43, 0x2222);
    raw[0x47] = b'c';
    put(&mut raw, 0x50, 0x43);
    raw
}

#[test]
fn parts_are_read() {
    let mesh = Ltimesh::from_bytes(&mesh(), Console::PC).unwrap();
    assert_eq!(mesh.header, LtimeshHeader { entries: 2, begin_offset: 0x20 });
    assert_eq!(
        mesh.entries,
        vec![
            LtimeshEntry { entry_type: LtimeshEntryType::C, data_offset: 0x40, offset: 0x38 },
            LtimeshEntry { entry_type: LtimeshEntryType::B, data_offset: 0x50, offset: 0x43 }
        ]
    );
    assert_eq!(mesh.files.len(), 2);
    assert_eq!(mesh.files[0].hash, 0x1111);
    assert_eq!(mesh.files[0].name, "ab");
    assert_eq!(mesh.files[0].data, vec![1, 2, 3]);
    assert_eq!(mesh.files[0].file_type, LtimeshEntryType::C);
    assert_eq!(mesh.files[1].hash, 0x2222);
    assert_eq!(mesh.files[1].name, "c");
    assert_eq!(mesh.files[1].data, vec![0x43, 0, 0, 0, 0, 0, 0, 0]);
    assert_eq!(mesh.files[1].file_type, LtimeshEntryType::B);
}

#[test]
fn entry_types() {
    let mut raw = vec![0u8; 12];
    for (byte, kind) in
        [(1, LtimeshEntryType::A), (2, LtimeshEntryType::B), (3, LtimeshEntryType::C)]
    {
        raw[3] = byte;
        assert_eq!(LtimeshEntry::new(&raw, Console::PC).unwrap().entry_type, kind);
    }
    raw[3] = 4;
    assert!(matches!(LtimeshEntry::new(&raw, Console::PC), Err(Error::ConsoleNumberError)));
    assert!(LtimeshEntry::new(&raw[0..11], Console::PC).is_err());
    assert_eq!(LtimeshEntry::size(), 0x0C);
}

#[test]
fn part_needs_its_references() {
    let mut raw = vec![0u8; 12];
    raw[4] = b'n';
    // a part of the first type reads eight bytes at the start of its data
    assert!(LtimeshFile::new(&raw, LtimeshEntryType::A, 8, Console::PC).is_err());
    assert!(LtimeshFile::new(&raw, LtimeshEntryType::B, 8, Console::PC).is_ok());
    let file = LtimeshFile::new(&raw, LtimeshEntryType::A, 4, Console::PC).unwrap();
    assert_eq!(file.name, "");
    assert_eq!(file.data.len(), 8);
    // the data begins behind the hash at the earliest, and within the part
    assert!(matches!(
        LtimeshFile::new(&raw, LtimeshEntryType::C, 3, Console::PC),
        Err(Error::ConsoleNumberError)
    ));
    assert!(LtimeshFile::new(&raw, LtimeshEntryType::C, 13, Console::PC).is_err());
    assert!(LtimeshFile::new(&raw, LtimeshEntryType::C, 12, Console::PC).is_ok());
}

#[test]
fn mesh_of_too_few_bytes_is_refused() {
    for len in [0usize, 0x1F, 0x2B, 0x37] {
        assert!(Ltimesh::from_bytes(&mesh()[0..len], Console::PC).is_err());
    }
    // the second part would begin before the first
    let mut raw = mesh();
    put(&mut raw, 0x34, 0x30);
    assert!(matches!(
        Ltimesh::from_bytes(&raw, Console::PC),
        Err(Error::ConsoleNumberError)
    ));
    // the data of the first part would begin before the part
    let mut raw = mesh();
    put(&mut raw, 0x24, 0x30);
    assert!(matches!(
        Ltimesh::from_bytes(&raw, Console::PC),
        Err(Error::ConsoleNumberError)
    ));
}

#[test]
fn header_is_read() {
    let header = LtimeshHeader::new(&mesh(), Console::PC).unwrap();
    assert_eq!(header.entries, 2);
    assert_eq!(header.begin_offset, 0x20);
    assert!(LtimeshHeader::new(&mesh()[0..0x1F], Console::PC).is_err());
}
