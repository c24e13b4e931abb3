use shrek_superslam::classes::error::Error as ClassError;
use shrek_superslam::classes::{
    hash_lookup, AttackMoveRegion, AttackMoveType, GameWorld, GfDb, ProjectileType,
    SerialisedShrekSuperSlamGameObject, ShrekSuperSlamObject, WriteableShrekSuperSlamGameObject,
};
use shrek_superslam::files::bin::bin::{Bin, BinObject};
use shrek_superslam::files::bin::dependency::BinDependency;
use shrek_superslam::files::bin::header::BinHeader;
use shrek_superslam::files::bin::offset4type::BinOffset4Struct;
use shrek_superslam::files::bin::section::BinSection;
use shrek_superslam::{Console, Error, FloatBits};

fn put(raw: &mut Vec<u8>, at: usize, n: u32, console: Console) {
    let bytes = console.write_u32(n).unwrap();
    raw[at..at + 4].copy_from_slice(&bytes);
}

fn bits(f: f32) -> FloatBits {
    FloatBits { bits: f.to_bits() }
}

const ATTACK: u32 = 0x100;
const REGION_1: u32 = 0x400;
const REGION_2: u32 = 0x440;
const PROJECTILE: u32 = 0x480;
const END: usize = 0x600;

/// A container with a directory of one entry, "Example", which names an
/// attack with two hitboxes and a projectile.
fn container(console: Console) -> Vec<u8> {
    let mut raw = vec![0u8; END];
    // the header: the directory takes 0x34 bytes, and there is one section
    put(&mut raw, 0x10, 0x34, console);
    put(&mut raw, 0x18, 1, console);
    // the directory, at offset 0: its entries begin at offset 0x24
    put(&mut raw, 0x40, 0x9B3DDBED, console);
    put(&mut raw, 0x40 + 0x14, 0x24, console);
    put(&mut raw, 0x40 + 0x18, 1, console);
    // the entry: the name at offset 0x80, the object at offset 0x100
    put(&mut raw, 0x40 + 0x24, 0x80, console);
    put(&mut raw, 0x40 + 0x28, ATTACK, console);
    // the section, of kind 1, with a table of five offsets
    put(&mut raw, 0x74, 1, console);
    put(&mut raw, 0x78, 5, console);
    put(&mut raw, 0x84, 0, console);
    put(&mut raw, 0x88, ATTACK, console);
    put(&mut raw, 0x8C, REGION_1, console);
    put(&mut raw, 0x90, REGION_2, console);
    put(&mut raw, 0x94, PROJECTILE, console);
    // the strings
    raw[0xC0..0xC0 + 8].copy_from_slice(b"Example\0");
    raw[0xD0..0xD0 + 10].copy_from_slice(b"fast1_atk\0");
    // the table of the hitboxes of the attack, at offset 0xA0
    put(&mut raw, 0xE0, REGION_1, console);
    put(&mut raw, 0xE4, REGION_2, console);
    // the attack
    let attack = 0x40 + ATTACK as usize;
    put(&mut raw, attack, 0xEBF07BB5, console);
    put(&mut raw, attack + 0x04, 0.5f32.to_bits(), console);
    put(&mut raw, attack + 0x20, 0xA0, console);
    put(&mut raw, attack + 0x24, 2, console);
    put(&mut raw, attack + 0x28, 0x90, console);
    raw[attack + 0x33] = 1;
    raw[attack + 0x45] = 200;
    raw[attack + 0x46] = 0xFE;
    put(&mut raw, attack + 0x3C, 77, console);
    put(&mut raw, attack + 0x84, 4.0f32.to_bits(), console);
    put(&mut raw, attack + 0x9C, PROJECTILE, console);
    // the hitboxes
    let region = 0x40 + REGION_1 as usize;
    put(&mut raw, region, 0xF2CFE08D, console);
    put(&mut raw, region + 0x04, 0.25f32.to_bits(), console);
    put(&mut raw, region + 0x30, (-1.0f32).to_bits(), console);
    let region = 0x40 + REGION_2 as usize;
    put(&mut raw, region, 0xF2CFE08D, console);
    put(&mut raw, region + 0x38, 2.0f32.to_bits(), console);
    // the projectile
    let projectile = 0x40 + PROJECTILE as usize;
    put(&mut raw, projectile, 0x8811292E, console);
    put(&mut raw, projectile + 0x08, 3.0f32.to_bits(), console);
    raw
}

#[test]
fn parse_resolves_the_directory() {
    for console in [Console::PC, Console::Gamecube, Console::PS2, Console::Xbox] {
        let bin = Bin::new(container(console), console).unwrap();
        let parsed = bin.parse().unwrap();
        assert_eq!(parsed.len(), 1);
        assert_eq!(parsed[0].0, "Example");
        match &parsed[0].1 {
            ShrekSuperSlamObject::AttackMoveType(attack) => {
                assert_eq!(attack.name, "fast1_atk");
                assert_eq!(attack.endlag, bits(0.5));
                assert_eq!(attack.damage1, bits(4.0));
                assert!(attack.hits_otg);
                assert!(!attack.knocks_down);
                assert_eq!(attack.unknown_03c, 77);
                assert_eq!(attack.unknown_045_max_255, 200);
                assert_eq!(attack.unknown_046_max_128, -2);
                assert_eq!(attack.hitbox_offsets, vec![REGION_1, REGION_2]);
                assert_eq!(attack.hitboxes.len(), 2);
                assert_eq!(attack.hitboxes[0].delay, bits(0.25));
                assert_eq!(attack.hitboxes[0].width, bits(-1.0));
                assert_eq!(attack.hitboxes[1].radius, bits(2.0));
                assert_eq!(attack.projectile_offset, Some(PROJECTILE));
                assert_eq!(attack.projectile.unwrap().x_vector, bits(3.0));
            }
            other => panic!("unexpected object {:?}", other),
        }
    }
}

#[test]
fn objects_are_located_behind_the_header() {
    let console = Console::PC;
    let raw = container(console);
    let bin = Bin::new(raw.clone(), console).unwrap();
    let offsets: Vec<u32> = bin.objects().iter().map(|o| o.offset).collect();
    assert_eq!(offsets, vec![0, ATTACK, REGION_1, REGION_2, PROJECTILE]);
    let names: Vec<&str> = bin.objects().iter().map(|o| o.name).collect();
    assert_eq!(
        names,
        vec![
            "gf::DB",
            "Game::AttackMoveType",
            "Game::AttackMoveRegion",
            "Game::AttackMoveRegion",
            "Game::ProjectileType"
        ]
    );
    for object in bin.objects() {
        let at = object.offset as usize + 0x40;
        assert_eq!(console.read_u32(&raw[at..at + 4]).unwrap(), object.hash);
        assert_eq!(hash_lookup(object.hash), Some(object.name));
    }
    assert_eq!(bin.raw(), raw.as_slice());
    assert_eq!(Bin::header_length(), 0x40);
}

#[test]
fn sections_are_located_one_behind_the_other() {
    let console = Console::PC;
    let mut raw = vec![0u8; 0x100];
    // no directory, and three sections: the tables begin at 0x70
    put(&mut raw, 0x18, 3, console);
    put(&mut raw, 0x40, 7, console);
    put(&mut raw, 0x44, 2, console);
    put(&mut raw, 0x50, 9, console);
    put(&mut raw, 0x54, 1, console);
    put(&mut raw, 0x60, 1, console);
    put(&mut raw, 0x64, 1, console);
    // the offsets of the other sections are not read
    put(&mut raw, 0x70, 0xFFFF_FFFF, console);
    put(&mut raw, 0x7C, 0x80, console);
    put(&mut raw, 0xC0, 0xF2CFE08D, console);
    let bin = Bin::new(raw, console).unwrap();
    assert_eq!(bin.sections.len(), 3);
    assert_eq!(
        bin.sections[0],
        BinSection { number: 7, count: 2, offset: 0x70 }
    );
    assert_eq!(
        bin.sections[1],
        BinSection { number: 9, count: 1, offset: 0x78 }
    );
    assert_eq!(
        bin.sections[2],
        BinSection { number: 1, count: 1, offset: 0x7C }
    );
    assert_eq!(bin.objects().len(), 1);
    assert_eq!(bin.objects()[0].offset, 0x80);
    assert_eq!(bin.objects()[0].name, "Game::AttackMoveRegion");
    assert!(bin.dependencies.is_empty());
    assert!(bin.offset4objs.is_empty());
}

#[test]
fn dependencies_and_other_descriptors_are_read() {
    let console = Console::Gamecube;
    let mut raw = vec![0u8; 0x40 + 0x80 + 0x40];
    put(&mut raw, 0x24, 1, console);
    put(&mut raw, 0x2C, 1, console);
    raw[0x40..0x45].copy_from_slice(b"a.bin");
    put(&mut raw, 0x40 + 0x7C, 5, console);
    raw[0xC0..0xC2].copy_from_slice(b"hi");
    put(&mut raw, 0xC0 + 0x3C, 6, console);
    let bin = Bin::new(raw, console).unwrap();
    assert_eq!(bin.dependencies.len(), 1);
    assert_eq!(bin.dependencies[0].path.trim_end_matches('\0'), "a.bin");
    assert_eq!(bin.dependencies[0].offset, 5);
    assert_eq!(bin.offset4objs.len(), 1);
    assert_eq!(bin.offset4objs[0].s.trim_end_matches('\0'), "hi");
    assert_eq!(bin.offset4objs[0].n, 6);
    assert!(bin.objects().is_empty());
}

#[test]
fn get_object_checks_size_and_hash() {
    let console = Console::PC;
    let bin = Bin::new(container(console), console).unwrap();
    let region = bin.get_object_from_offset::<AttackMoveRegion>(REGION_2).unwrap();
    assert_eq!(region.radius, bits(2.0));
    match bin.get_object_from_offset::<ProjectileType>(REGION_1) {
        Err(Error::ClassDeserialiseError(ClassError::IncorrectType { hash })) => {
            assert_eq!(hash, 0xF2CFE08D)
        }
        other => panic!("unexpected result {:?}", other),
    }
    match bin.get_object_from_offset::<AttackMoveType>(0x400) {
        Err(Error::ClassDeserialiseError(ClassError::NotEnoughBytes {
            requested,
            file_size,
            offset,
        })) => assert_eq!((requested, file_size, offset), (0x260, END as u64, 0x400)),
        other => panic!("unexpected result {:?}", other),
    }
    assert!(bin.get_object_from_offset::<GameWorld>(u32::MAX).is_err());
}

#[test]
fn strings_end_at_the_first_zero_byte() {
    let console = Console::PC;
    let mut raw = container(console);
    raw[0xD0 + 2] = 0xAE;
    let last = raw.len() - 1;
    raw[last] = b'x';
    let bin = Bin::new(raw, console).unwrap();
    assert_eq!(bin.get_str_from_offset(0x80).unwrap(), "Example");
    // each byte is one character of ISO 8859-1
    assert_eq!(bin.get_str_from_offset(0x90).unwrap(), "fa\u{AE}t1_atk");
    assert_eq!(bin.get_str_from_offset(0x87).unwrap(), "");
    // a string that no zero byte ends is empty
    assert_eq!(bin.get_str_from_offset((END - 0x40 - 1) as u32).unwrap(), "");
    assert_eq!(bin.get_str_from_offset((END - 0x40) as u32).unwrap(), "");
    assert!(matches!(
        bin.get_str_from_offset((END - 0x40 + 1) as u32),
        Err(Error::ClassDeserialiseError(ClassError::NotEnoughBytes { .. }))
    ));
}

#[test]
fn unknown_class_is_refused() {
    let console = Console::PC;
    let mut raw = container(console);
    put(&mut raw, 0x40 + REGION_2 as usize, 0x12345678, console);
    match Bin::new(raw.clone(), console) {
        Err(Error::ClassDeserialiseError(ClassError::UnknownClass { hash })) => {
            assert_eq!(hash, 0x12345678)
        }
        other => panic!("unexpected result {:?}", other.map(|_| ())),
    }
    assert!(matches!(
        BinObject::new(&raw, REGION_2, console),
        Err(Error::ClassDeserialiseError(ClassError::UnknownClass { hash: 0x12345678 }))
    ));
    let stub = BinObject::new(&raw, REGION_1, console).unwrap();
    assert_eq!(stub.hash, 0xF2CFE08D);
    assert_eq!(stub.name, "Game::AttackMoveRegion");
    assert_eq!(stub.offset, REGION_1);
}

#[test]
fn class_without_a_codec_is_not_implemented() {
    let console = Console::PC;
    let mut raw = container(console);
    // Game::RotationObject is known by name only
    put(&mut raw, 0x40 + REGION_2 as usize, 0xC239E1AB, console);
    let bin = Bin::new(raw, console).unwrap();
    let stub = bin.objects()[3];
    assert_eq!(stub.name, "Game::RotationObject");
    match bin.resolve_object(&stub) {
        Err(Error::NotImplementedError(name)) => assert_eq!(name, "Game::RotationObject"),
        other => panic!("unexpected result {:?}", other),
    }
    match bin.resolve_object(&bin.objects()[2]).unwrap() {
        ShrekSuperSlamObject::AttackMoveRegion(region) => assert_eq!(region.delay, bits(0.25)),
        other => panic!("unexpected object {:?}", other),
    }
}

#[test]
fn too_short_container_is_refused() {
    match Bin::new(vec![0u8; 0x3F], Console::PC) {
        Err(Error::ClassDeserialiseError(ClassError::NotEnoughBytes {
            requested,
            file_size,
            offset,
        })) => assert_eq!((requested, file_size, offset), (0x40, 0x3F, 0)),
        other => panic!("unexpected result {:?}", other.map(|_| ())),
    }
    // the descriptors would end behind the end of the file
    let mut raw = vec![0u8; 0x40];
    put(&mut raw, 0x18, 2, Console::PC);
    match Bin::new(raw, Console::PC) {
        Err(Error::ClassDeserialiseError(ClassError::NotEnoughBytes {
            requested,
            file_size,
            offset,
        })) => assert_eq!((requested, file_size, offset), (0x20, 0x40, 0x40)),
        other => panic!("unexpected result {:?}", other.map(|_| ())),
    }
    // the table of the section would end behind the end of the file
    let mut raw = vec![0u8; 0x50];
    put(&mut raw, 0x18, 1, Console::PC);
    put(&mut raw, 0x40, 1, Console::PC);
    put(&mut raw, 0x44, 3, Console::PC);
    match Bin::new(raw, Console::PC) {
        Err(Error::ClassDeserialiseError(ClassError::NotEnoughBytes {
            requested,
            file_size,
            offset,
        })) => assert_eq!((requested, file_size, offset), (12, 0x50, 0x50)),
        other => panic!("unexpected result {:?}", other.map(|_| ())),
    }
}

#[test]
fn all_objects_of_a_type() {
    let console = Console::Gamecube;
    let bin = Bin::new(container(console), console).unwrap();
    let regions = bin.get_all_objects_of_type::<AttackMoveRegion>().unwrap();
    assert_eq!(regions.len(), 2);
    assert_eq!(regions[0].0, REGION_1);
    assert_eq!(regions[0].1.delay, bits(0.25));
    assert_eq!(regions[1].0, REGION_2);
    assert_eq!(regions[1].1.radius, bits(2.0));
    assert_eq!(bin.get_all_objects_of_type::<GameWorld>().unwrap().len(), 0);
    let dbs = bin.get_all_objects_of_type::<GfDb>().unwrap();
    assert_eq!(dbs.len(), 1);
    assert_eq!(dbs[0].1.entries.len(), 1);
    assert_eq!(dbs[0].1.entries[0].0, "Example");
    assert_eq!(dbs[0].1.entries[0].1.offset, ATTACK);
}

#[test]
fn writing_back_what_was_read_changes_nothing() {
    for console in [Console::PC, Console::Gamecube] {
        let raw = container(console);
        let mut bin = Bin::new(raw.clone(), console).unwrap();
        let attack = bin.get_object_from_offset::<AttackMoveType>(ATTACK).unwrap();
        bin.overwrite_object(ATTACK, &attack).unwrap();
        assert_eq!(bin.raw(), raw.as_slice());
        let region = bin.get_object_from_offset::<AttackMoveRegion>(REGION_1).unwrap();
        bin.overwrite_object(REGION_1, &region).unwrap();
        let projectile = bin.get_object_from_offset::<ProjectileType>(PROJECTILE).unwrap();
        bin.overwrite_object(PROJECTILE, &projectile).unwrap();
        assert_eq!(bin.raw(), raw.as_slice());
    }
}

#[test]
fn overwrite_patches_the_fields_and_keeps_the_length() {
    let console = Console::PC;
    let raw = container(console);
    let mut bin = Bin::new(raw.clone(), console).unwrap();
    let mut attack = bin.get_object_from_offset::<AttackMoveType>(ATTACK).unwrap();
    attack.damage1 = bits(100.0);
    attack.knocks_down = true;
    attack.unknown_046_max_128 = -128;
    attack.name = "another name".to_string();
    attack.hitboxes[1].radius = bits(9.0);
    attack.projectile.as_mut().unwrap().x_vector = bits(-3.0);
    bin.overwrite_object(ATTACK, &attack).unwrap();

    assert_eq!(bin.raw().len(), raw.len());
    let at = 0x40 + ATTACK as usize;
    let mut expected = raw.clone();
    put(&mut expected, at + 0x84, 100.0f32.to_bits(), console);
    expected[at + 0x34] = 1;
    expected[at + 0x46] = 0x80;
    put(&mut expected, 0x40 + REGION_2 as usize + 0x38, 9.0f32.to_bits(), console);
    put(&mut expected, 0x40 + PROJECTILE as usize + 0x08, (-3.0f32).to_bits(), console);
    assert_eq!(bin.raw(), expected.as_slice());

    let read = bin.get_object_from_offset::<AttackMoveType>(ATTACK).unwrap();
    assert_eq!(read.damage1, bits(100.0));
    assert_eq!(read.name, "fast1_atk");
    assert_eq!(read.hitboxes[1].radius, bits(9.0));
}

#[test]
fn overwrite_of_another_class_is_refused() {
    let console = Console::PC;
    let raw = container(console);
    let mut bin = Bin::new(raw.clone(), console).unwrap();
    let region = bin.get_object_from_offset::<AttackMoveRegion>(REGION_1).unwrap();
    match bin.overwrite_object(PROJECTILE, &region) {
        Err(Error::ClassDeserialiseError(ClassError::IncorrectType { hash })) => {
            assert_eq!(hash, 0x8811292E)
        }
        other => panic!("unexpected result {:?}", other),
    }
    assert!(bin.overwrite_object(END as u32, &region).is_err());
    assert_eq!(bin.raw(), raw.as_slice());
}

#[test]
fn attack_without_offsets_is_written_where_the_file_has_its_hitboxes() {
    let console = Console::PC;
    let raw = container(console);
    let mut bin = Bin::new(raw.clone(), console).unwrap();
    let mut attack = bin.get_object_from_offset::<AttackMoveType>(ATTACK).unwrap();
    // as if the attack came from elsewhere: it remembers no offsets, and has
    // one hitbox more than the file
    attack.hitbox_offsets = vec![];
    attack.projectile_offset = None;
    attack.hitboxes[0].delay = bits(7.0);
    attack.hitboxes.push(AttackMoveRegion {
        delay: bits(1.0),
        width: bits(1.0),
        radius: bits(1.0),
        unknown_010: bits(1.0),
        unknown_024: bits(1.0),
    });
    attack.projectile.as_mut().unwrap().x_vector = bits(55.0);
    bin.overwrite_object(ATTACK, &attack).unwrap();

    let mut expected = raw.clone();
    put(&mut expected, 0x40 + REGION_1 as usize + 0x04, 7.0f32.to_bits(), console);
    // the third hitbox has no place and is left out, and so is the
    // projectile, whose place is not known
    assert_eq!(bin.raw(), expected.as_slice());
}

#[test]
fn write_fails_where_a_hitbox_lies_behind_the_end() {
    let console = Console::PC;
    let raw = container(console);
    let mut bin = Bin::new(raw.clone(), console).unwrap();
    let mut attack = bin.get_object_from_offset::<AttackMoveType>(ATTACK).unwrap();
    attack.hitbox_offsets = vec![REGION_1, 0x1000];
    attack.hitboxes[0].delay = bits(7.0);
    match attack.write(&mut bin, 0x40 + ATTACK as usize) {
        Err(Error::ClassDeserialiseError(ClassError::NotEnoughBytes {
            requested,
            file_size,
            offset,
        })) => assert_eq!((requested, file_size, offset), (0x40, END as u64, 0x1000)),
        other => panic!("unexpected result {:?}", other),
    }
    assert_eq!(bin.raw().len(), raw.len());
}

#[test]
fn container_bytes_keep_everything_behind_the_header() {
    let console = Console::Gamecube;
    let raw = container(console);
    let bin = Bin::new(raw.clone(), console).unwrap();
    assert_eq!(bin.to_bytes().unwrap(), raw);

    // bytes of the header that no field occupies are written as zero
    let mut marked = raw.clone();
    marked[0x00] = 0xAA;
    marked[0x3F] = 0xBB;
    let bin = Bin::new(marked, console).unwrap();
    assert_eq!(bin.to_bytes().unwrap(), raw);
}

#[test]
fn header_fields() {
    let mut raw = vec![0u8; 0x40];
    put(&mut raw, 0x10, 1, Console::PC);
    put(&mut raw, 0x18, 2, Console::PC);
    put(&mut raw, 0x1C, 3, Console::PC);
    put(&mut raw, 0x24, 4, Console::PC);
    put(&mut raw, 0x2C, 5, Console::PC);
    let header = BinHeader::new(&raw, Console::PC).unwrap();
    assert_eq!(
        header,
        BinHeader { gf_db_size: 1, sections: 2, unknown: 3, dependencies: 4, offset4_count: 5 }
    );
    assert_eq!(header.to_bytes(Console::PC).unwrap(), raw);
    assert_eq!(BinHeader::size(), 0x40);
    assert!(BinHeader::new(&raw[0..0x3F], Console::PC).is_err());
}

#[test]
fn section_descriptors() {
    let mut raw = vec![0u8; 0x20];
    put(&mut raw, 0x00, 1, Console::Gamecube);
    put(&mut raw, 0x04, 10, Console::Gamecube);
    put(&mut raw, 0x10, 2, Console::Gamecube);
    put(&mut raw, 0x14, 20, Console::Gamecube);
    let sections = BinSection::new(&raw, Console::Gamecube).unwrap();
    assert_eq!(
        sections,
        vec![
            BinSection { number: 1, count: 10, offset: 0 },
            BinSection { number: 2, count: 20, offset: 0 }
        ]
    );
    assert_eq!(
        BinSection { number: 1, count: 2, offset: 3 }.to_bytes(Console::Gamecube).unwrap(),
        vec![0, 0, 0, 1, 0, 0, 0, 2, 0, 0, 0, 3, 0, 0, 0, 0]
    );
    assert_eq!(BinSection::size(), 0x10);
    assert!(BinSection::new(&raw[0..0x18], Console::Gamecube).is_err());
}

#[test]
fn dependency_descriptors() {
    let mut raw = vec![0u8; 0x80];
    raw[0..5].copy_from_slice(b"a.bin");
    raw[0x3C..0x3C + 4].copy_from_slice(b"desc");
    put(&mut raw, 0x7C, 0x1234, Console::PC);
    let dependencies = BinDependency::new(&raw, Console::PC).unwrap();
    assert_eq!(dependencies.len(), 1);
    assert_eq!(dependencies[0].path.len(), 0x3C);
    assert_eq!(dependencies[0].path.trim_end_matches('\0'), "a.bin");
    assert_eq!(dependencies[0].desc.trim_end_matches('\0'), "desc");
    assert_eq!(dependencies[0].offset, 0x1234);
    assert_eq!(dependencies[0].to_bytes(Console::PC).unwrap(), raw);
    assert_eq!(BinDependency::size(), 0x80);

    let short = BinDependency { path: "p".to_string(), desc: "d".to_string(), offset: 1 };
    let bytes = short.to_bytes(Console::PC).unwrap();
    assert_eq!(bytes.len(), 0x80);
    assert_eq!(bytes[0], b'p');
    assert_eq!(bytes[0x3C], b'd');
    let long = BinDependency { path: "x".repeat(100), desc: String::new(), offset: 1 };
    assert_eq!(&long.to_bytes(Console::PC).unwrap()[0..0x3C], "x".repeat(0x3C).as_bytes());
    let other = BinDependency { path: "\u{20AC}".to_string(), desc: String::new(), offset: 1 };
    assert!(matches!(other.to_bytes(Console::PC), Err(Error::StringDeserialiseError)));
    assert!(BinDependency::new(&raw[0..0x7F], Console::PC).is_err());
}

#[test]
fn offset4_descriptors() {
    let mut raw = vec![0u8; 0x40];
    raw[0..3].copy_from_slice(&[b'a', 0xE9, b'z']);
    put(&mut raw, 0x3C, 7, Console::PC);
    let entries = BinOffset4Struct::new(&raw, Console::PC).unwrap();
    assert_eq!(entries.len(), 1);
    assert_eq!(entries[0].s.trim_end_matches('\0'), "a\u{E9}z");
    assert_eq!(entries[0].n, 7);
    assert_eq!(entries[0].to_bytes(Console::PC).unwrap(), raw);
    assert_eq!(BinOffset4Struct::size(), 0x40);
}

#[test]
fn class_constants_are_registered() {
    assert_eq!(AttackMoveType::hash(), 0xEBF07BB5);
    assert_eq!(AttackMoveRegion::hash(), 0xF2CFE08D);
    assert_eq!(GfDb::hash(), 0x9B3DDBED);
    assert_eq!(hash_lookup(AttackMoveType::hash()), Some(AttackMoveType::name()));
    assert_eq!(hash_lookup(AttackMoveRegion::hash()), Some(AttackMoveRegion::name()));
    assert_eq!(hash_lookup(GfDb::hash()), Some(GfDb::name()));
    assert_eq!(hash_lookup(GameWorld::hash()), Some("Game::GameWorld"));
    assert_eq!(hash_lookup(0), None);
    assert_eq!(AttackMoveType::size(), 0x260);
    assert_eq!(GfDb::size(), 0x24);
}
