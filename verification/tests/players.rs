use shrek_superslam::classes::AttackMoveType;
use shrek_superslam::files::Bin;
use shrek_superslam::players::{character_of, find_attack, player_file};
use shrek_superslam::Console;

#[test]
fn character_is_the_folder_of_the_container() {
    assert_eq!(
        character_of("data\\players\\shrek\\player.db.bin"),
        Some("shrek".to_string())
    );
    assert_eq!(character_of("donkey\\player.db.bin"), Some("donkey".to_string()));
    assert_eq!(character_of("\\player.db.bin"), Some(String::new()));
    assert_eq!(character_of("data\\players\\shrek\\render.db.bin"), None);
    assert_eq!(character_of("data\\players\\shrek\\player.db.bin\\"), None);
    assert_eq!(character_of("data/players/shrek/player.db.bin"), None);
    assert_eq!(character_of("player.db.bin"), None);
    assert_eq!(character_of(""), None);
    assert_eq!(character_of("data\\caf\u{e9}\\player.db.bin"), Some("caf\u{e9}".to_string()));
}

#[test]
fn container_of_a_character() {
    assert_eq!(player_file("shrek"), "data\\players\\shrek\\player.db.bin");
    assert_eq!(character_of(&player_file("puss")), Some("puss".to_string()));
}

fn attack(name: &str) -> AttackMoveType {
    let mut raw = vec![0u8; 0x40 + 0x260 + 0x10];
    raw[0x40..0x44].copy_from_slice(&0xEBF07BB5u32.to_le_bytes());
    raw[0x40 + 0x28..0x40 + 0x2C].copy_from_slice(&0x260u32.to_le_bytes());
    raw[0x40 + 0x260..0x40 + 0x260 + name.len()].copy_from_slice(name.as_bytes());
    let bin = Bin::new(raw, Console::PC).unwrap();
    bin.get_object_from_offset::<AttackMoveType>(0).unwrap()
}

#[test]
fn attack_is_found_by_its_name() {
    let attacks = vec![attack("fast1"), attack("slam"), attack("fast1"), attack("")];
    assert_eq!(find_attack(&attacks, &"fast1".to_string()), Some(0));
    assert_eq!(find_attack(&attacks, &"slam".to_string()), Some(1));
    assert_eq!(find_attack(&attacks, &String::new()), Some(3));
    assert_eq!(find_attack(&attacks, &"Slam".to_string()), None);
    assert_eq!(find_attack(&Vec::new(), &"slam".to_string()), None);
}
