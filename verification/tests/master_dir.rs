use shrek_superslam::master_dir::MasterDirEntry;
use shrek_superslam::{Console, Error, MasterDir};

#[test]
fn two_entries_platform_pc() {
    let data = vec![
        0x0C, 0x00, 0x00, 0x00, 0x1C, 0x00, 0x00, 0x00, 0x00, 0x00, 0x00, 0x00, 0x01, 0x00,
        0x00, 0x00, 0x02, 0x00, 0x00, 0x00, 0x03, 0x00, 0x00, 0x00, 0x61, 0x62, 0x63, 0x64,
        0x04, 0x00, 0x00, 0x00, 0x05, 0x00, 0x00, 0x00, 0x06, 0x00, 0x00, 0x00, 0x65, 0x66,
        0x67, 0x68,
    ];

    let master_dir = MasterDir::from_bytes(&data, Console::PC).unwrap();

    assert_eq!(master_dir.entries.len(), 2);

    assert_eq!(master_dir.entries[0].offset, 0x01);
    assert_eq!(master_dir.entries[0].decomp_size, 0x02);
    assert_eq!(master_dir.entries[0].comp_size, 0x03);
    assert_eq!(master_dir.entries[0].name, "abcd");

    assert_eq!(master_dir.entries[1].offset, 0x04);
    assert_eq!(master_dir.entries[1].decomp_size, 0x05);
    assert_eq!(master_dir.entries[1].comp_size, 0x06);
    assert_eq!(master_dir.entries[1].name, "efgh");
}

#[test]
fn two_entries_platform_gcn() {
    let data = vec![
        0x00, 0x00, 0x00, 0x0C, 0x00, 0x00, 0x00, 0x1C, 0x00, 0x00, 0x00, 0x00, 0x00, 0x00,
        0x00, 0x01, 0x00, 0x00, 0x00, 0x02, 0x00, 0x00, 0x00, 0x03, 0x61, 0x62, 0x63, 0x64,
        0x00, 0x00, 0x00, 0x04, 0x00, 0x00, 0x00, 0x05, 0x00, 0x00, 0x00, 0x06, 0x65, 0x66,
        0x67, 0x68,
    ];

    let master_dir = MasterDir::from_bytes(&data, Console::Gamecube).unwrap();

    assert_eq!(master_dir.entries.len(), 2);

    assert_eq!(master_dir.entries[0].offset, 0x01);
    assert_eq!(master_dir.entries[0].decomp_size, 0x02);
    assert_eq!(master_dir.entries[0].comp_size, 0x03);
    assert_eq!(master_dir.entries[0].name, "abcd");

    assert_eq!(master_dir.entries[1].offset, 0x04);
    assert_eq!(master_dir.entries[1].decomp_size, 0x05);
    assert_eq!(master_dir.entries[1].comp_size, 0x06);
    assert_eq!(master_dir.entries[1].name, "efgh");
}

#[test]
fn new_directory_is_empty() {
    let master_dir = MasterDir::new(Console::PS2);
    assert!(master_dir.entries.is_empty());
    assert!(master_dir.console == Console::PS2);
}

#[test]
fn entry_sizes() {
    let entry = MasterDirEntry {
        offset: 1,
        decomp_size: 2,
        comp_size: 3,
        name: "abcd".to_string(),
    };
    // three words, four letters and a zero byte
    assert_eq!(entry.size(), 17);
    // the padding is the size modulo four
    assert_eq!(entry.padded_size(), 18);
    assert_eq!(
        entry.padded(Console::PC),
        vec![1, 0, 0, 0, 2, 0, 0, 0, 3, 0, 0, 0, b'a', b'b', b'c', b'd', 0, 0]
    );
    assert_eq!(
        entry.padded(Console::Gamecube),
        vec![0, 0, 0, 1, 0, 0, 0, 2, 0, 0, 0, 3, b'a', b'b', b'c', b'd', 0, 0]
    );
}

#[test]
fn directory_bytes_list_the_entries() {
    let master_dir = MasterDir {
        entries: vec![
            MasterDirEntry { offset: 1, decomp_size: 2, comp_size: 3, name: "abc".to_string() },
            MasterDirEntry { offset: 4, decomp_size: 5, comp_size: 6, name: "defg".to_string() },
        ],
        console: Console::PC,
    };
    let bytes = master_dir.to_bytes();
    // two offsets and the zero that ends the list: the first entry begins at
    // 12, the second behind the 16 bytes of the first
    assert_eq!(&bytes[0..12], &[12, 0, 0, 0, 28, 0, 0, 0, 0, 0, 0, 0]);
    assert_eq!(&bytes[12..28], &[1, 0, 0, 0, 2, 0, 0, 0, 3, 0, 0, 0, b'a', b'b', b'c', 0]);
    assert_eq!(
        &bytes[28..],
        &[4, 0, 0, 0, 5, 0, 0, 0, 6, 0, 0, 0, b'd', b'e', b'f', b'g', 0, 0]
    );

    // reading the bytes back gives the entries, each name with the zero
    // bytes that follow it in the file
    let read = MasterDir::from_bytes(&bytes, Console::PC).unwrap();
    assert_eq!(read.entries.len(), 2);
    assert_eq!(read.entries[0].name, "abc\0");
    assert_eq!(read.entries[1].name, "defg\0\0");
    assert_eq!(read.entries[1].comp_size, 6);
}

#[test]
fn directory_bytes_of_no_entries() {
    let master_dir = MasterDir::new(Console::PC);
    assert_eq!(master_dir.to_bytes(), vec![4, 0, 0, 0, 0, 0, 0, 0]);
}

#[test]
fn directory_of_too_few_bytes_fails() {
    assert!(matches!(
        MasterDir::from_bytes(&[1, 2], Console::PC),
        Err(Error::ClassDeserialiseError(_))
    ));
    // the entry is said to begin at 8 and to end at 0x40, behind the end
    let data = vec![0x08, 0, 0, 0, 0x40, 0, 0, 0, 1, 2, 3, 4];
    assert!(matches!(
        MasterDir::from_bytes(&data, Console::PC),
        Err(Error::ClassDeserialiseError(_))
    ));
    // the entry ends before it begins
    let data = vec![0x08, 0, 0, 0, 0x04, 0, 0, 0, 1, 2, 3, 4];
    assert!(matches!(
        MasterDir::from_bytes(&data, Console::PC),
        Err(Error::ConsoleNumberError)
    ));
}

#[test]
fn entry_name_must_be_utf8() {
    let mut data = vec![1, 0, 0, 0, 2, 0, 0, 0, 3, 0, 0, 0];
    data.extend([0xFF, 0xFE]);
    assert!(matches!(
        MasterDirEntry::new(&data, Console::PC),
        Err(Error::StringDeserialiseError)
    ));
    assert!(matches!(
        MasterDirEntry::new(&data[0..11], Console::PC),
        Err(Error::ClassDeserialiseError(_))
    ));
    let entry = MasterDirEntry::new(&data[0..12], Console::PC).unwrap();
    assert_eq!(entry.name, "");
}
