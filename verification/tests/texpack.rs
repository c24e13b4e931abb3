use shrek_superslam::files::texpack::{TexpackEntry, TexpackFile, TexpackHeader};
use shrek_superslam::files::{Texpack, TexpackEntryType};
use shrek_superslam::hash::hash;
use shrek_superslam::{Console, Error};

#[test]
fn header_bytes() {
    let header = TexpackHeader::new(3, Console::PC);
    assert_eq!(
        header.to_bytes().unwrap(),
        vec![b'K', b'P', b'X', b'T', 1, 0, 0, 0, 3, 0, 0, 0, 0, 0, 0, 0]
    );
    let header = TexpackHeader::new(3, Console::Gamecube);
    assert_eq!(
        header.to_bytes().unwrap(),
        vec![b'T', b'X', b'P', b'K', 0, 0, 0, 1, 0, 0, 0, 3, 0, 0, 0, 0]
    );
    let read = TexpackHeader::from_bytes(&header.to_bytes().unwrap(), Console::Gamecube).unwrap();
    assert_eq!(read.entries, 3);
    assert_eq!(TexpackHeader::size(), 0x10);
    assert!(TexpackHeader::from_bytes(&[0u8; 15], Console::PC).is_err());
}

#[test]
fn entry_bytes() {
    let entry = TexpackEntry::new(
        "bk_cape".to_string(),
        0x1000,
        0x20,
        TexpackEntryType::Tga,
        Console::PC,
    );
    assert_eq!(entry.hash, 0x53C00A7D);
    let bytes = entry.to_bytes().unwrap();
    assert_eq!(bytes.len(), 0x30);
    assert_eq!(&bytes[0..4], &[0x7D, 0x0A, 0xC0, 0x53]);
    assert_eq!(&bytes[4..11], b"bk_cape");
    assert_eq!(&bytes[11..0x20], &[0u8; 21]);
    assert_eq!(&bytes[0x20..0x30], &[0, 0x10, 0, 0, 0x20, 0, 0, 0, 2, 0, 0, 0, 0, 0, 0, 0]);

    let read = TexpackEntry::from_bytes(&bytes, Console::PC).unwrap();
    assert_eq!(read.hash, 0x53C00A7D);
    assert_eq!(read.filename, "bk_cape");
    assert_eq!(read.offset, 0x1000);
    assert_eq!(read.size, 0x20);
    assert_eq!(read.filetype, TexpackEntryType::Tga);
    assert_eq!(TexpackEntry::size(), 0x30);
}

#[test]
fn entry_name_is_kept_to_27_bytes() {
    let name = "abcdefghijklmnopqrstuvwxyz0123456789";
    let entry =
        TexpackEntry::new(name.to_string(), 0, 0, TexpackEntryType::Texture, Console::PC);
    let bytes = entry.to_bytes().unwrap();
    assert_eq!(bytes.len(), 0x30);
    assert_eq!(&bytes[4..4 + 27], &name.as_bytes()[0..27]);
    assert_eq!(bytes[4 + 27], 0);
    // a name of 28 bytes is cut as well
    let entry =
        TexpackEntry::new(name[0..28].to_string(), 0, 0, TexpackEntryType::Texture, Console::PC);
    assert_eq!(entry.to_bytes().unwrap().len(), 0x30);
}

#[test]
fn names_that_are_cut_short_are_hashed_in_full() {
    for (short, full) in [
        ("levelrender_fairytalevillag", "levelrender_fairytalevillage"),
        ("levelrender_gepettosworksho", "levelrender_gepettosworkshop"),
        ("levelrender_gingerbreadhous", "levelrender_gingerbreadhouse"),
        ("loadingscreen_gingerbreadho", "loadingscreen_gingerbreadhouse"),
    ] {
        let entry =
            TexpackEntry::new(short.to_string(), 0, 0, TexpackEntryType::Texture, Console::PC);
        assert_eq!(entry.hash, hash(full));
        assert_ne!(entry.hash, hash(short));
    }
}

#[test]
fn entry_of_unknown_type_is_refused() {
    let mut bytes = vec![0u8; 0x30];
    bytes[0x28] = 1;
    assert!(matches!(
        TexpackEntry::from_bytes(&bytes, Console::PC),
        Err(Error::ConsoleNumberError)
    ));
    assert!(TexpackEntry::from_bytes(&bytes[0..0x2F], Console::PC).is_err());
}

#[test]
fn file_names_and_padding() {
    let file = TexpackFile::new("a".to_string(), TexpackEntryType::Texture, &[1, 2, 3], Console::PC);
    assert_eq!(file.filename(), "a.dds");
    assert_eq!(file.padded_size(), 0x1000);
    let padded = file.padded();
    assert_eq!(padded.len(), 0x1000);
    assert_eq!(&padded[0..3], &[1, 2, 3]);
    assert!(padded[3..].iter().all(|b| *b == 0xEE));
    let exact = TexpackFile::new("a".to_string(), TexpackEntryType::Tga, &[0u8; 0x1000], Console::PC);
    assert_eq!(exact.padded_size(), 0x2000);
    assert_eq!(exact.filename(), "a.tga");
    for (console, name) in [
        (Console::Gamecube, "a.gct"),
        (Console::PC, "a.dds"),
        (Console::PS2, "a.tm2"),
        (Console::Xbox, "a.dds"),
    ] {
        let file = TexpackFile::new("a".to_string(), TexpackEntryType::Texture, &[], console);
        assert_eq!(file.filename(), name);
    }
}

#[test]
fn added_files_are_told_by_their_first_bytes() {
    let mut texpack = Texpack::new(Console::PC);
    texpack.add_file("list".to_string(), b"a.dds\nb.dds");
    texpack.add_file("tex".to_string(), b"DDS and more");
    texpack.add_file("gc".to_string(), b"GCNT of another console");
    texpack.add_file("tiny".to_string(), b"DD");
    let kinds: Vec<TexpackEntryType> = texpack.files().iter().map(|f| f.filetype).collect();
    assert_eq!(
        kinds,
        vec![
            TexpackEntryType::Tga,
            TexpackEntryType::Texture,
            TexpackEntryType::Tga,
            TexpackEntryType::Tga
        ]
    );
    let mut texpack = Texpack::new(Console::Gamecube);
    texpack.add_file("gc".to_string(), b"GCNT");
    assert_eq!(texpack.files()[0].filetype, TexpackEntryType::Texture);
    let mut texpack = Texpack::new(Console::PS2);
    texpack.add_file("ps".to_string(), b"TIM2");
    assert_eq!(texpack.files()[0].filetype, TexpackEntryType::Texture);
    let mut texpack = Texpack::new(Console::Xbox);
    texpack.add_file("xb".to_string(), b"DDS ");
    assert_eq!(texpack.files()[0].filetype, TexpackEntryType::Texture);
}

#[test]
fn package_bytes_put_the_textures_first() {
    let mut texpack = Texpack::new(Console::PC);
    texpack.add_file("list".to_string(), b"one");
    texpack.add_file("first".to_string(), b"DDS 1");
    texpack.add_file("other".to_string(), b"two!");
    texpack.add_file("second".to_string(), b"DDS 22");
    let bytes = texpack.to_bytes().unwrap();

    // the header, four entries, padding up to 0x1000, and four padded files
    assert_eq!(bytes.len(), 0x5000);
    assert_eq!(&bytes[0..4], b"KPXT");
    assert_eq!(bytes[8], 4);
    assert!(bytes[0x10 + 4 * 0x30..0x1000].iter().all(|b| *b == 0xEE));

    let read = Texpack::from_bytes(&bytes, Console::PC).unwrap();
    let names: Vec<&str> = read.files().iter().map(|f| f.filename.as_str()).collect();
    assert_eq!(names, vec!["first", "second", "list", "other"]);
    assert_eq!(read.files()[0].data, b"DDS 1".to_vec());
    assert_eq!(read.files()[1].data, b"DDS 22".to_vec());
    assert_eq!(read.files()[2].data, b"one".to_vec());
    assert_eq!(read.files()[3].filetype, TexpackEntryType::Tga);

    // the offsets of the entries: one padded file behind the other
    for (k, offset) in [0x1000u32, 0x2000, 0x3000, 0x4000].iter().enumerate() {
        let entry =
            TexpackEntry::from_bytes(&bytes[0x10 + k * 0x30..0x40 + k * 0x30], Console::PC)
                .unwrap();
        assert_eq!(entry.offset, *offset);
        assert_eq!(entry.hash, hash(&entry.filename));
    }
}

#[test]
fn empty_package() {
    let texpack = Texpack::new(Console::Gamecube);
    let bytes = texpack.to_bytes().unwrap();
    assert_eq!(bytes.len(), 0x1000);
    assert_eq!(&bytes[0..16], &[b'T', b'X', b'P', b'K', 0, 0, 0, 1, 0, 0, 0, 0, 0, 0, 0, 0]);
    assert!(Texpack::from_bytes(&bytes, Console::Gamecube).unwrap().files().is_empty());
}

#[test]
fn package_of_too_few_bytes_is_refused() {
    assert!(Texpack::from_bytes(&[0u8; 8], Console::PC).is_err());
    // two entries are announced, and one is there
    let mut bytes = vec![0u8; 0x40];
    bytes[8] = 2;
    assert!(matches!(
        Texpack::from_bytes(&bytes, Console::PC),
        Err(Error::ClassDeserialiseError(_))
    ));
    // the file of the entry lies behind the end
    let mut bytes = vec![0u8; 0x40];
    bytes[8] = 1;
    bytes[0x10 + 0x20] = 0x30;
    bytes[0x10 + 0x24] = 0x20;
    assert!(matches!(
        Texpack::from_bytes(&bytes, Console::PC),
        Err(Error::ClassDeserialiseError(_))
    ));
}
