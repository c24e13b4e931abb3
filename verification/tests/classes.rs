use shrek_superslam::classes::db::create_object_entry;
use shrek_superslam::classes::error::Error as ClassError;
use shrek_superslam::classes::util::{construct_array, construct_optional_type};
use shrek_superslam::classes::{
    BehaviorAiFighting, BehaviorFightingControlShrek, DynamicThrowable, EffectStringReference,
    Entity, EventSequence, GameWorld, GfDb, ItemSpawner, LoadingScreen, LocalizedString,
    LookAtData, ObjectInitializer, PhysicsFighting, PotionType, PowerupType, ProjectileType,
    RenderSpawn, ScriptDb, SerialisedShrekSuperSlamGameObject, ShrekSuperSlamObject, Spitter,
    SpitterKeyframe, WeaponType, WriteableShrekSuperSlamGameObject,
};
use shrek_superslam::classes::{hash_lookup, AttackMoveRegion, AttackMoveType};
use shrek_superslam::files::Bin;
use shrek_superslam::{Console, Error, FloatBits};

fn put(raw: &mut Vec<u8>, at: usize, n: u32, console: Console) {
    let bytes = console.write_u32(n).unwrap();
    raw[at..at + 4].copy_from_slice(&bytes);
}

fn bits(f: f32) -> FloatBits {
    FloatBits { bits: f.to_bits() }
}

/// A container without a directory and without sections, of `len` bytes.
fn bare(len: usize) -> Vec<u8> {
    vec![0u8; len]
}

/// Puts an object of class `T` at `offset` behind the header.
fn object<T: SerialisedShrekSuperSlamGameObject>(raw: &mut Vec<u8>, offset: u32, c: Console) {
    put(raw, 0x40 + offset as usize, T::hash(), c);
}

#[test]
fn every_class_is_registered_under_its_name() {
    fn check<T: SerialisedShrekSuperSlamGameObject>() {
        assert_eq!(hash_lookup(T::hash()), Some(T::name()));
        assert!(T::size() >= 4);
    }
    check::<AttackMoveRegion>();
    check::<AttackMoveType>();
    check::<BehaviorAiFighting>();
    check::<BehaviorFightingControlShrek>();
    check::<DynamicThrowable>();
    check::<EffectStringReference>();
    check::<Entity>();
    check::<EventSequence>();
    check::<GameWorld>();
    check::<GfDb>();
    check::<ItemSpawner>();
    check::<LoadingScreen>();
    check::<LocalizedString>();
    check::<LookAtData>();
    check::<ObjectInitializer>();
    check::<PhysicsFighting>();
    check::<PotionType>();
    check::<PowerupType>();
    check::<ProjectileType>();
    check::<RenderSpawn>();
    check::<ScriptDb>();
    check::<Spitter>();
    check::<SpitterKeyframe>();
    check::<WeaponType>();
}

#[test]
fn class_sizes() {
    assert_eq!(AttackMoveRegion::size(), 0x40);
    assert_eq!(ProjectileType::size(), 0x74);
    assert_eq!(GameWorld::size(), 0xB430);
    assert_eq!(PhysicsFighting::size(), 0xD50);
    assert_eq!(Spitter::size(), 0xE0);
    assert_eq!(SpitterKeyframe::size(), 0x100);
    assert_eq!(EventSequence::size(), 0x30);
    assert_eq!(ItemSpawner::size(), 0x688);
    assert_eq!(Entity::size(), 0x280);
    assert_eq!(LocalizedString::size(), 0x0C);
    assert_eq!(EffectStringReference::size(), 0x0C);
    assert_eq!(PotionType::size(), 0x100);
    assert_eq!(PowerupType::size(), 0xE4);
    assert_eq!(WeaponType::size(), 0x120);
    assert_eq!(DynamicThrowable::size(), 0x150);
    assert_eq!(LoadingScreen::size(), 0x8C);
    assert_eq!(ObjectInitializer::size(), 0xA8);
    assert_eq!(LookAtData::size(), 0x24);
    assert_eq!(RenderSpawn::size(), 0x290);
    assert_eq!(BehaviorFightingControlShrek::size(), 0xF0);
    assert_eq!(BehaviorAiFighting::size(), 0x350);
    assert_eq!(ScriptDb::size(), 0x24);
    assert_eq!(ScriptDb::hash(), 0xA128E61A);
    assert_eq!(ScriptDb::name(), "GF_TEMP::ScriptDB");
}

#[test]
fn game_world_is_read_and_written() {
    for console in [Console::PC, Console::Gamecube] {
        let mut raw = bare(0x40 + 0x10 + 0xB430);
        object::<GameWorld>(&mut raw, 0x10, console);
        let at = 0x50;
        put(&mut raw, at + 0x14, 1, console);
        put(&mut raw, at + 0x30, 100.0f32.to_bits(), console);
        put(&mut raw, at + 0x48, (-100.0f32).to_bits(), console);
        let mut bin = Bin::new(raw.clone(), console).unwrap();
        let mut world = bin.get_object_from_offset::<GameWorld>(0x10).unwrap();
        assert_eq!(world.playable, 1);
        assert_eq!(world.unknown_float_1_x, bits(100.0));
        assert_eq!(world.unknown_float_2_z, bits(-100.0));

        bin.overwrite_object(0x10, &world).unwrap();
        assert_eq!(bin.raw(), raw.as_slice());

        world.playable = 0;
        world.unknown_float_1_y = bits(5.0);
        bin.overwrite_object(0x10, &world).unwrap();
        let mut expected = raw.clone();
        put(&mut expected, at + 0x14, 0, console);
        put(&mut expected, at + 0x34, 5.0f32.to_bits(), console);
        assert_eq!(bin.raw(), expected.as_slice());
    }
}

#[test]
fn physics_is_written_where_it_is_read() {
    let console = Console::PC;
    let mut raw = bare(0x40 + 0xD50);
    object::<PhysicsFighting>(&mut raw, 0, console);
    // every word of the object is another number
    for word in 1..0xD50 / 4 {
        put(&mut raw, 0x40 + word * 4, 0x1000 + word as u32, console);
    }
    let mut bin = Bin::new(raw.clone(), console).unwrap();
    let mut physics = bin.get_object_from_offset::<PhysicsFighting>(0).unwrap();
    assert_eq!(physics.m_airborn_land_dist.bits, 0x1000 + 0x838 / 4);
    assert_eq!(physics.off_ledge_vel_drop.bits, 0x1000 + 0x85C / 4);
    assert_eq!(physics.off_ledge_vel_roll.bits, 0x1000 + 0x860 / 4);
    assert_eq!(physics.knockback_fric_ground.bits, 0x1000 + 0xB2C / 4);
    assert_eq!(physics.knockback_fric_air.bits, 0x1000 + 0xB34 / 4);
    assert_eq!(physics.knockdown_fric.bits, 0x1000 + 0xB38 / 4);
    assert_eq!(physics.m_airborn_land_dist_stairs.bits, 0x1000 + 0xB3C / 4);
    assert_eq!(physics.walkup_angle_tolerance.bits, 0x1000 + 0xD1C / 4);

    bin.overwrite_object(0, &physics).unwrap();
    assert_eq!(bin.raw(), raw.as_slice());

    physics.off_ledge_vel_drop = bits(1.0);
    physics.knockdown_fric = bits(2.0);
    bin.overwrite_object(0, &physics).unwrap();
    let mut expected = raw.clone();
    put(&mut expected, 0x40 + 0x85C, 1.0f32.to_bits(), console);
    put(&mut expected, 0x40 + 0xB38, 2.0f32.to_bits(), console);
    assert_eq!(bin.raw(), expected.as_slice());
}

/// A container with a spitter of two keyframes, of which the second has an
/// event sequence of three events.
fn spitter_container(console: Console) -> Vec<u8> {
    let mut raw = bare(0x40 + 0x500);
    object::<Spitter>(&mut raw, 0, console);
    put(&mut raw, 0x40 + 0x04, 4, console);
    put(&mut raw, 0x40 + 0x20, 0xE0, console);
    put(&mut raw, 0x40 + 0x24, 2, console);
    put(&mut raw, 0x40 + 0x38, 38, console);
    raw[0x40 + 0x44..0x40 + 0x48].copy_from_slice(&[44, 45, 46, 47]);
    // the table of the keyframes
    put(&mut raw, 0x40 + 0xE0, 0x100, console);
    put(&mut raw, 0x40 + 0xE4, 0x200, console);
    object::<SpitterKeyframe>(&mut raw, 0x100, console);
    put(&mut raw, 0x40 + 0x100 + 0x0C, 12, console);
    object::<SpitterKeyframe>(&mut raw, 0x200, console);
    put(&mut raw, 0x40 + 0x200 + 0x0C, 13, console);
    put(&mut raw, 0x40 + 0x200 + 0xBC, 0x300, console);
    object::<EventSequence>(&mut raw, 0x300, console);
    put(&mut raw, 0x40 + 0x300 + 0x04, 0x330, console);
    put(&mut raw, 0x40 + 0x300 + 0x08, 3, console);
    put(&mut raw, 0x40 + 0x330, 7, console);
    put(&mut raw, 0x40 + 0x334, 8, console);
    put(&mut raw, 0x40 + 0x338, 9, console);
    raw
}

#[test]
fn spitter_holds_its_keyframes() {
    for console in [Console::PC, Console::Gamecube] {
        let raw = spitter_container(console);
        let mut bin = Bin::new(raw.clone(), console).unwrap();
        let mut spitter = bin.get_object_from_offset::<Spitter>(0).unwrap();
        assert_eq!(spitter.unknown_004, 4);
        assert_eq!(spitter.unknown_038, 38);
        assert_eq!(
            (spitter.unknown_044, spitter.unknown_045, spitter.unknown_046, spitter.unknown_047),
            (44, 45, 46, 47)
        );
        assert_eq!(spitter.keyframe_offsets, vec![0x100, 0x200]);
        assert_eq!(spitter.keyframes.len(), 2);
        assert_eq!(spitter.keyframes[0].unknown_00c, 12);
        assert!(spitter.keyframes[0].event.is_none());
        assert_eq!(spitter.keyframes[1].unknown_00c, 13);
        let event = spitter.keyframes[1].event.as_ref().unwrap();
        assert_eq!(event.event_offsets, vec![7, 8, 9]);
        assert_eq!(event.bytes, raw[0x340..0x370].to_vec());
        assert_eq!(Spitter::keyframe_offsets(&raw, 0x40, console).unwrap(), vec![0x100, 0x200]);

        bin.overwrite_object(0, &spitter).unwrap();
        assert_eq!(bin.raw(), raw.as_slice());

        spitter.unknown_047 = 1;
        spitter.keyframes[1].unknown_00c = 99;
        bin.overwrite_object(0, &spitter).unwrap();
        let mut expected = raw.clone();
        expected[0x40 + 0x47] = 1;
        put(&mut expected, 0x40 + 0x200 + 0x0C, 99, console);
        assert_eq!(bin.raw(), expected.as_slice());

        let keyframe = SpitterKeyframe { unknown_00c: 5, event: None };
        keyframe.write(&mut bin, 0x40 + 0x100).unwrap();
        put(&mut expected, 0x40 + 0x100 + 0x0C, 5, console);
        assert_eq!(bin.raw(), expected.as_slice());
    }
}

#[test]
fn spitter_fails_on_a_keyframe_of_another_class() {
    let console = Console::PC;
    let mut raw = spitter_container(console);
    object::<EventSequence>(&mut raw, 0x200, console);
    let bin = Bin::new(raw, console).unwrap();
    match bin.get_object_from_offset::<Spitter>(0) {
        Err(Error::ClassDeserialiseError(ClassError::IncorrectType { hash })) => {
            assert_eq!(hash, EventSequence::hash())
        }
        other => panic!("unexpected result {:?}", other),
    }
}

#[test]
fn item_spawner_holds_its_items() {
    let console = Console::PC;
    let mut raw = bare(0x40 + 0xC00);
    object::<ItemSpawner>(&mut raw, 0, console);
    // one weapon, no potion, two powerups
    put(&mut raw, 0x40 + 0x2C, 0x700, console);
    put(&mut raw, 0x40 + 0x30, 1, console);
    put(&mut raw, 0x40 + 0x34, 0x700, console);
    put(&mut raw, 0x40 + 0x38, 0, console);
    put(&mut raw, 0x40 + 0x3C, 0x710, console);
    put(&mut raw, 0x40 + 0x40, 2, console);
    put(&mut raw, 0x40 + 0x700, 0x800, console);
    put(&mut raw, 0x40 + 0x710, 0x940, console);
    put(&mut raw, 0x40 + 0x714, 0xA40, console);
    object::<WeaponType>(&mut raw, 0x800, console);
    raw[0x40 + 0x800 + 0x11F] = 0x77;
    object::<PowerupType>(&mut raw, 0x940, console);
    object::<PowerupType>(&mut raw, 0xA40, console);
    let bin = Bin::new(raw.clone(), console).unwrap();
    let spawner = bin.get_object_from_offset::<ItemSpawner>(0).unwrap();
    assert_eq!(spawner.weapons.len(), 1);
    assert_eq!(spawner.weapons[0].bytes, raw[0x840..0x840 + 0x120].to_vec());
    assert_eq!(spawner.potions.len(), 0);
    assert_eq!(spawner.powerups.len(), 2);
    assert_eq!(spawner.powerups[1].bytes, raw[0x40 + 0xA40..0x40 + 0xA40 + 0xE4].to_vec());

    let weapons = construct_array::<WeaponType>(&bin, 0x40, console, 0x2C, 0x30).unwrap();
    assert_eq!(weapons.len(), 1);
    // the powerups are no potions
    assert!(matches!(
        construct_array::<PotionType>(&bin, 0x40, console, 0x3C, 0x40),
        Err(Error::ClassDeserialiseError(ClassError::IncorrectType { .. }))
    ));
    // a table that ends behind the end of the file
    let mut long = raw.clone();
    put(&mut long, 0x40 + 0x30, 0x1000, console);
    let bin = Bin::new(long, console).unwrap();
    assert!(matches!(
        bin.get_object_from_offset::<ItemSpawner>(0),
        Err(Error::ClassDeserialiseError(ClassError::NotEnoughBytes {
            requested: 0x4000,
            file_size: 0xC40,
            offset: 0x740
        }))
    ));
}

#[test]
fn optional_object_is_absent_for_an_offset_of_zero() {
    let console = Console::PC;
    let mut raw = bare(0x40 + 0x200);
    put(&mut raw, 0x40 + 0x10, 0x100, console);
    object::<ProjectileType>(&mut raw, 0x100, console);
    put(&mut raw, 0x40 + 0x100 + 0x14, 2.5f32.to_bits(), console);
    let bin = Bin::new(raw, console).unwrap();
    let absent = construct_optional_type::<ProjectileType>(&bin, 0x40, console, 0x0C).unwrap();
    assert!(absent.is_none());
    let present = construct_optional_type::<ProjectileType>(&bin, 0x40, console, 0x10).unwrap();
    assert_eq!(present.unwrap().angle, bits(2.5));
    assert!(construct_optional_type::<AttackMoveRegion>(&bin, 0x40, console, 0x10).is_err());
}

#[test]
fn entity_holds_its_parts() {
    let console = Console::PC;
    let mut raw = bare(0x40 + 0x2000);
    object::<Entity>(&mut raw, 0, console);
    put(&mut raw, 0x40 + 0x04, 0x280, console);
    put(&mut raw, 0x40 + 0x08, 0x300, console);
    put(&mut raw, 0x40 + 0x0C, 0x400, console);
    put(&mut raw, 0x40 + 0x10, 0x700, console);
    raw[0x40 + 0x280..0x40 + 0x286].copy_from_slice(b"shrek\0");
    object::<BehaviorFightingControlShrek>(&mut raw, 0x300, console);
    object::<RenderSpawn>(&mut raw, 0x400, console);
    object::<PhysicsFighting>(&mut raw, 0x700, console);
    put(&mut raw, 0x40 + 0x700 + 0x838, 3.0f32.to_bits(), console);
    let bin = Bin::new(raw.clone(), console).unwrap();
    let entity = bin.get_object_from_offset::<Entity>(0).unwrap();
    assert_eq!(entity.name, "shrek");
    assert_eq!(entity.physics.m_airborn_land_dist, bits(3.0));
    assert_eq!(entity.render.bytes.len(), 0x290);
    assert_eq!(entity.bytes, raw[0x40..0x40 + 0x280].to_vec());
    assert!(matches!(
        bin.resolve_object(&shrek_superslam::files::BinObject::new(&raw, 0, console).unwrap())
            .unwrap(),
        ShrekSuperSlamObject::Entity(_)
    ));
}

#[test]
fn string_objects() {
    let console = Console::PC;
    let mut raw = bare(0x40 + 0x100);
    object::<LocalizedString>(&mut raw, 0, console);
    put(&mut raw, 0x40 + 0x04, 1, console);
    put(&mut raw, 0x40 + 0x08, 0x40, console);
    object::<EffectStringReference>(&mut raw, 0x10, console);
    put(&mut raw, 0x40 + 0x10 + 0x04, 0x50, console);
    object::<LocalizedString>(&mut raw, 0x20, console);
    put(&mut raw, 0x40 + 0x20 + 0x08, 0x4A, console);
    raw[0x80..0x8B].copy_from_slice(b"Shrek\xAE \xE0 l\0");
    raw[0x90..0x96].copy_from_slice(b"spark\0");
    let bin = Bin::new(raw.clone(), console).unwrap();

    let localized = bin.get_object_from_offset::<LocalizedString>(0).unwrap();
    assert_eq!(localized.string, "Shrek\u{AE} \u{E0} l");
    assert!(!localized.is_empty());
    assert_eq!(localized.bytes, raw[0x40..0x4C].to_vec());
    let empty = bin.get_object_from_offset::<LocalizedString>(0x20).unwrap();
    assert_eq!(empty.string, "");
    assert!(empty.is_empty());
    let effect = bin.get_object_from_offset::<EffectStringReference>(0x10).unwrap();
    assert_eq!(effect.string, "spark");

    // the object laid out for an offset: its first eight bytes, the offset
    // of the place behind it, and the string
    let bytes = localized.to_bytes(0x100, console).unwrap();
    assert_eq!(&bytes[0..8], &raw[0x40..0x48]);
    assert_eq!(&bytes[8..12], &[0x0C, 0x01, 0, 0]);
    assert_eq!(&bytes[12..], b"Shrek\xAE \xE0 l");
    let bytes = effect.to_bytes(0, Console::Gamecube).unwrap();
    assert_eq!(&bytes[8..12], &[0, 0, 0, 0x0C]);
    assert_eq!(&bytes[12..], b"spark");

    let other = LocalizedString { string: "\u{20AC}".to_string(), unknown: 0, bytes: vec![0; 12] };
    assert!(matches!(other.to_bytes(0, console), Err(Error::StringDeserialiseError)));
    let short = LocalizedString { string: String::new(), unknown: 0, bytes: vec![0; 7] };
    assert!(matches!(short.to_bytes(0, console), Err(Error::ClassDeserialiseError(_))));
    let far = EffectStringReference { string: String::new(), bytes: vec![0; 12] };
    assert!(matches!(far.to_bytes(0xFFFF_FFF4, console), Err(Error::ConsoleNumberError)));
    assert!(far.to_bytes(0xFFFF_FFF3, console).is_ok());
}

#[test]
fn directory_entries() {
    let console = Console::Gamecube;
    let mut raw = bare(0x40 + 0x200);
    object::<ScriptDb>(&mut raw, 0, console);
    put(&mut raw, 0x40 + 0x14, 0x30, console);
    put(&mut raw, 0x40 + 0x18, 2, console);
    // two entries of 16 bytes
    put(&mut raw, 0x40 + 0x30, 0x60, console);
    put(&mut raw, 0x40 + 0x34, 0x100, console);
    put(&mut raw, 0x40 + 0x40, 0x64, console);
    put(&mut raw, 0x40 + 0x44, 0x140, console);
    raw[0x40 + 0x60..0x40 + 0x68].copy_from_slice(b"one\0two\0");
    object::<AttackMoveRegion>(&mut raw, 0x100, console);
    object::<AttackMoveRegion>(&mut raw, 0x140, console);
    let bin = Bin::new(raw.clone(), console).unwrap();
    let db = bin.get_object_from_offset::<ScriptDb>(0).unwrap();
    assert_eq!(db.entries.len(), 2);
    assert_eq!(db.entries[0].0, "one");
    assert_eq!(db.entries[0].1.offset, 0x100);
    assert_eq!(db.entries[1].0, "two");
    assert_eq!(db.entries[1].1.name, "Game::AttackMoveRegion");
    // the directory is of another class than gf::DB
    assert!(bin.get_object_from_offset::<GfDb>(0).is_err());
    assert!(bin.parse().is_err());

    let entry = create_object_entry(&raw[0x80..0x90], &bin, console).unwrap();
    assert_eq!(entry.0, "two");
    assert_eq!(entry.1.offset, 0x140);

    // an entry that names an object of no known class
    let mut unknown = raw.clone();
    put(&mut unknown, 0x40 + 0x140, 0x0BAD_F00D, console);
    let bin = Bin::new(unknown, console).unwrap();
    assert!(matches!(
        bin.get_object_from_offset::<ScriptDb>(0),
        Err(Error::ClassDeserialiseError(ClassError::UnknownClass { hash: 0x0BAD_F00D }))
    ));
    // entries that end behind the end of the file
    let mut long = raw.clone();
    put(&mut long, 0x40 + 0x18, 0x100, console);
    let bin = Bin::new(long, console).unwrap();
    assert!(matches!(
        bin.get_object_from_offset::<ScriptDb>(0),
        Err(Error::ClassDeserialiseError(ClassError::NotEnoughBytes { .. }))
    ));
}

#[test]
fn objects_of_raw_bytes() {
    let console = Console::PC;
    let mut raw = bare(0x40 + 0x1000);
    object::<PotionType>(&mut raw, 0, console);
    object::<DynamicThrowable>(&mut raw, 0x100, console);
    object::<LoadingScreen>(&mut raw, 0x300, console);
    object::<ObjectInitializer>(&mut raw, 0x400, console);
    object::<LookAtData>(&mut raw, 0x500, console);
    object::<BehaviorAiFighting>(&mut raw, 0x600, console);
    for (i, byte) in raw.iter_mut().enumerate().skip(0x44) {
        if i % 0x100 >= 0x44 {
            *byte = i as u8;
        }
    }
    let bin = Bin::new(raw.clone(), console).unwrap();
    assert_eq!(
        bin.get_object_from_offset::<PotionType>(0).unwrap().bytes,
        raw[0x40..0x140].to_vec()
    );
    assert_eq!(
        bin.get_object_from_offset::<DynamicThrowable>(0x100).unwrap().bytes,
        raw[0x140..0x140 + 0x150].to_vec()
    );
    assert_eq!(
        bin.get_object_from_offset::<LoadingScreen>(0x300).unwrap().bytes,
        raw[0x340..0x340 + 0x8C].to_vec()
    );
    assert_eq!(
        bin.get_object_from_offset::<ObjectInitializer>(0x400).unwrap().bytes,
        raw[0x440..0x440 + 0xA8].to_vec()
    );
    assert_eq!(
        bin.get_object_from_offset::<LookAtData>(0x500).unwrap().bytes,
        raw[0x540..0x540 + 0x24].to_vec()
    );
    assert!(bin.get_object_from_offset::<BehaviorAiFighting>(0x600).is_ok());
    assert!(PotionType::new(&bin, 0x1040 - 0xFF).is_err());
    assert!(PotionType::new(&bin, 0x1040 - 0x100).is_ok());
}

#[test]
fn flags_are_written_as_zero_or_one() {
    let console = Console::PC;
    let mut raw = bare(0x40 + 0x260);
    object::<AttackMoveType>(&mut raw, 0, console);
    raw[0x40 + 0x2C] = 0x80;
    let mut bin = Bin::new(raw.clone(), console).unwrap();
    let attack = bin.get_object_from_offset::<AttackMoveType>(0).unwrap();
    assert!(attack.is_slam);
    bin.overwrite_object(0, &attack).unwrap();
    let mut expected = raw.clone();
    expected[0x40 + 0x2C] = 1;
    assert_eq!(bin.raw(), expected.as_slice());
}
