use shrek_superslam::compression::compress;
use shrek_superslam::latin1::trim_end_zeros;
use shrek_superslam::master_dat::{dump_master_dat, pad, padded_size};
use shrek_superslam::master_dir::MasterDirEntry;
use shrek_superslam::{Console, Error, MasterDat, MasterDir};

#[test]
fn padded_size_is_the_next_multiple_of_2048() {
    assert_eq!(padded_size(0), 2048);
    assert_eq!(padded_size(1), 2048);
    assert_eq!(padded_size(2047), 2048);
    assert_eq!(padded_size(2048), 4096);
    assert_eq!(padded_size(5000), 6144);
}

#[test]
fn pad_fills_with_the_letters_of_shab() {
    let padded = pad(&[1, 2, 3]);
    assert_eq!(padded.len(), 2048);
    assert_eq!(&padded[0..3], &[1, 2, 3]);
    assert_eq!(&padded[3..11], b"SHABSHAB");
    assert_eq!(padded[2047], b'S');
    assert_eq!(pad(&vec![0u8; 2048]).len(), 4096);
}

#[test]
fn trim_drops_the_zero_characters_at_the_end() {
    assert_eq!(trim_end_zeros("abc\0\0"), "abc");
    assert_eq!(trim_end_zeros("a\0b\0"), "a\0b");
    assert_eq!(trim_end_zeros("\0\0"), "");
    assert_eq!(trim_end_zeros(""), "");
    assert_eq!(trim_end_zeros("data\\caf\u{e9}"), "data\\caf\u{e9}");
}

#[test]
fn new_archive_is_empty() {
    let master_dat = MasterDat::new(Console::PC);
    assert!(master_dat.files().is_empty());
    assert_eq!(master_dat.compressed_file("a"), None);
    assert_eq!(master_dat.decompressed_file("a").unwrap(), None);
}

#[test]
fn added_files_can_be_read_back() {
    let mut master_dat = MasterDat::new(Console::PC);
    master_dat.add_file("data\\a.bin".to_string(), b"first");
    master_dat.add_file("data\\b.bin".to_string(), b"second file");

    assert_eq!(master_dat.files(), vec!["data\\a.bin".to_string(), "data\\b.bin".to_string()]);
    assert_eq!(master_dat.compressed_file("data\\a.bin"), Some(compress(b"first")));
    assert_eq!(
        master_dat.decompressed_file("data\\b.bin").unwrap(),
        Some(b"second file".to_vec())
    );
    assert_eq!(master_dat.compressed_file("data\\c.bin"), None);

    let entries = &master_dat.master_dir.entries;
    assert_eq!(entries.len(), 2);
    assert_eq!(entries[0].offset, 0);
    assert_eq!(entries[0].decomp_size, 5);
    assert_eq!(entries[0].comp_size as usize, compress(b"first").len());
    assert_eq!(entries[0].name, "data\\a.bin");
    // the second file begins behind the first with its padding
    assert_eq!(entries[1].offset, 2048);
    assert_eq!(entries[1].decomp_size, 11);
}

#[test]
fn adding_under_a_name_again_replaces_the_file() {
    let mut master_dat = MasterDat::new(Console::PC);
    master_dat.add_file("a".to_string(), b"one");
    master_dat.add_file("b".to_string(), b"two");
    master_dat.add_file("a".to_string(), b"three");
    assert_eq!(master_dat.files(), vec!["a".to_string(), "b".to_string()]);
    assert_eq!(master_dat.decompressed_file("a").unwrap(), Some(b"three".to_vec()));
}

#[test]
fn archive_bytes_hold_the_padded_files() {
    let mut master_dat = MasterDat::new(Console::PC);
    master_dat.add_file("a".to_string(), b"one");
    master_dat.add_file("b".to_string(), b"two");
    let (dat, dir) = master_dat.to_bytes();
    assert_eq!(dat.len(), 4096);
    assert_eq!(&dat[0..compress(b"one").len()], compress(b"one").as_slice());
    assert_eq!(&dat[2048..2048 + compress(b"two").len()], compress(b"two").as_slice());
    assert_eq!(dir, master_dat.master_dir.to_bytes());

    // the bytes can be loaded again
    let master_dir = MasterDir::from_bytes(&dir, Console::PC).unwrap();
    let loaded = MasterDat::from_bytes(&dat, master_dir).unwrap();
    assert_eq!(loaded.files(), vec!["a".to_string(), "b".to_string()]);
    assert_eq!(loaded.decompressed_file("b").unwrap(), Some(b"two".to_vec()));
}

#[test]
fn loading_fails_where_a_file_lies_behind_the_end() {
    let master_dir = MasterDir {
        entries: vec![MasterDirEntry {
            offset: 4,
            decomp_size: 0,
            comp_size: 10,
            name: "a".to_string(),
        }],
        console: Console::PC,
    };
    assert!(matches!(
        MasterDat::from_bytes(&[0u8; 8], master_dir),
        Err(Error::ClassDeserialiseError(_))
    ));
}

#[test]
fn update_keeps_the_size_and_lays_the_files_out_anew() {
    let mut master_dat = MasterDat::new(Console::PC);
    let big = vec![7u8; 3000];
    master_dat.add_file("a".to_string(), &big);
    master_dat.add_file("b".to_string(), b"two");

    // another size is refused with the size of the file that is there
    assert_eq!(master_dat.update_file("a", b"short"), Err(3000));
    assert_eq!(master_dat.decompressed_file("a").unwrap(), Some(big.clone()));

    let other = vec![9u8; 3000];
    assert_eq!(master_dat.update_file("a", &other), Ok(()));
    assert_eq!(master_dat.decompressed_file("a").unwrap(), Some(other.clone()));
    let entries = &master_dat.master_dir.entries;
    assert_eq!(entries[0].offset, 0);
    assert_eq!(entries[0].comp_size as usize, compress(&other).len());
    assert_eq!(entries[0].decomp_size, 3000);
    assert_eq!(entries[1].offset as usize, padded_size(compress(&other).len()));

    // a file that is not there counts as empty
    assert_eq!(master_dat.update_file("c", b"x"), Err(0));
}

#[test]
fn dump_takes_each_file_of_the_directory() {
    let mut master_dat = MasterDat::new(Console::PC);
    master_dat.add_file("a".to_string(), b"one");
    master_dat.add_file("b".to_string(), b"two");
    let (dat, _) = master_dat.to_bytes();

    let stored = dump_master_dat(&dat, &master_dat.master_dir, false).unwrap();
    assert_eq!(stored.len(), 2);
    assert_eq!(stored[0], ("a".to_string(), compress(b"one")));
    let expanded = dump_master_dat(&dat, &master_dat.master_dir, true).unwrap();
    assert_eq!(expanded[1], ("b".to_string(), b"two".to_vec()));

    assert!(dump_master_dat(&dat[0..100], &master_dat.master_dir, false).is_err());
}
