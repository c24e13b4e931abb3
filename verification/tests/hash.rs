use shrek_superslam::hash::hash;

// An assortment of strings found in the game files and their corresponding
// hashes, which the hash function should be able to recreate.

#[test]
fn hash_1() {
    assert_eq!(hash(&"1"), 0x00000031);
}

#[test]
fn hash_bkcape() {
    assert_eq!(hash(&"bk_cape"), 0x53C00A7D);
}

#[test]
fn hash_shrekpuppet_shirtfrontr() {
    assert_eq!(hash(&"shrekpuppet_shirtfrontr"), 0x873DD7A1);
}

#[test]
fn hash_of_nothing_is_zero() {
    assert_eq!(hash(""), 0);
}

#[test]
fn hash_ignores_ascii_case() {
    assert_eq!(hash("BK_Cape"), 0x53C00A7D);
    assert_eq!(hash("ShrekPuppet_ShirtFrontR"), hash("shrekpuppet_shirtfrontr"));
}

#[test]
fn hash_rotates_by_five_bits() {
    // 'a' is 0x61: after 'a', the hash is 0x61; after "aa" it is
    // (0x61 << 5) ^ 0x61
    assert_eq!(hash("a"), 0x61);
    assert_eq!(hash("aa"), (0x61 << 5) ^ 0x61);
    // the upper five bits come back in at the bottom
    let seven = hash("aaaaaaa");
    assert_eq!(hash("aaaaaaaa"), ((seven >> 27) | (seven << 5)) ^ 0x61);
}

#[test]
fn hash_leaves_other_characters() {
    // a letter outside ASCII is not lower-cased
    assert_ne!(hash("\u{C9}"), hash("\u{E9}"));
    assert_eq!(hash("\u{C9}"), 0xC9);
}

#[test]
fn hash_of_class_names() {
    // the hash of a name with capital letters is that of the name in small
    // letters
    assert_eq!(hash("gf::DB"), 0xC87DE4E2);
    assert_eq!(hash("gf::db"), 0xC87DE4E2);
    assert_eq!(hash("Game::AttackMoveType"), 0x58273C61);
    assert_eq!(hash("Game::AttackMoveRegion"), 0x913A38EE);
}
