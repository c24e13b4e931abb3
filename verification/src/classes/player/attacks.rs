//! Attacks, their hitboxes and their projectiles.
use vstd::prelude::*;
use crate::classes::util::{
    are_objects_at, array_error, construct_optional_type, elements_written, is_optional_at,
    lemma_element_written_same, lemma_elements_written_same,
    offsets_error, offsets_of, optional_error, optional_written, read_objects, read_offsets,
    smaller, write_element, write_elements,
};
use crate::classes::{SerialisedShrekSuperSlamGameObject, WriteableShrekSuperSlamGameObject};
use crate::console::{Console, FloatBits};
use crate::errors::{not_enough, too_few_bytes, Error};
use crate::files::bin::bin::{string_at, string_error, Bin};
use crate::util::{
    byte_of_flag, flag_at, flag_byte, float_at, get_float, get_signed, get_word,
    lemma_signed_unsigned, lemma_with_byte_same, lemma_with_flag_same, lemma_with_word_same,
    put_byte, put_float, put_signed, put_word, signed_of, unsigned_of, with_byte, with_float,
    with_word, word_at,
};

verus! {

/// Structure representing the in-game `Game::AttackMoveType` object type.
///
/// This type represents a single attack, from a player character or from an
/// item.
#[derive(Debug)]
pub struct AttackMoveType {
    /// The distance at which the attack homes in on the opponent.
    pub aim_range: FloatBits,
    /// The time (in seconds) for a strong move or throw to fully charge.
    pub charge: FloatBits,
    /// The time (in seconds) for the flash effect to appear when charging a
    /// strong move or throw.
    pub charge_effect: FloatBits,
    /// The first damage field, used for most damage calculations.
    pub damage1: FloatBits,
    /// The second damage field, unknown purpose.
    pub damage2: FloatBits,
    /// The third damage field, unknown purpose.
    pub damage3: FloatBits,
    /// If true, the attack cannot be used.
    pub disabled: bool,
    /// The amount of time (in seconds) the character is inactive for after
    /// using the attack.
    pub endlag: FloatBits,
    /// Vertical movement vector - positive goes up, negative goes down.
    pub fall_speed: FloatBits,
    /// The attack's hitboxes, if any.
    pub hitboxes: Vec<AttackMoveRegion>,
    /// If true, the attack hits characters that are knocked down.
    pub hits_otg: bool,
    /// If true, the attack passes through and does no damage or knockback.
    pub intangible: bool,
    /// Period of seconds to grant invincibility for. Expires if another
    /// attack is performed.
    pub invincibility: FloatBits,
    /// If true, the attack slams the opponent on contact, when the user's
    /// SLAM meter is full.
    pub is_slam: bool,
    /// The amount the attack knocks the opponent back. Positive pushes away,
    /// negative pulls toward.
    pub knockback: FloatBits,
    /// True if the attack knocks the opponent down, false if not.
    pub knocks_down: bool,
    /// True to lock the position of the user while the move is being used.
    pub lock_position: bool,
    /// Speed (in seconds) that multi-hit moves hit. Set to zero to make the
    /// move single-hit.
    pub multi_hit_speed: FloatBits,
    /// The attack's name.
    pub name: String,
    /// If true, the move will not make contact with the opponent. The move
    /// will still make contact with walls and throwables.
    pub no_opponent_contact: bool,
    /// The projectile type the attack spawns, if any.
    pub projectile: Option<ProjectileType>,
    /// True if the attack breaks shield (block) on contact, false if not.
    pub shield_breaks: bool,
    /// The amount of time the attack stuns for, in seconds.
    pub stun: FloatBits,
    /// Unknown property at offset +008.
    pub unknown_008: FloatBits,
    /// Unknown property at offset +010.
    pub unknown_010: FloatBits,
    /// Unknown property at offset +018.
    pub unknown_018: FloatBits,
    /// Unknown property at offset +02D.
    pub unknown_02d: bool,
    /// Unknown property at offset +02F.
    pub unknown_02f: bool,
    /// Unknown property at offset +030.
    pub unknown_030: bool,
    /// Unknown property at offset +036.
    pub unknown_036: bool,
    /// Unknown property at offset +037.
    pub unknown_037: bool,
    /// Unknown property at offset +038.
    pub unknown_038: bool,
    /// Unknown property at offset +039.
    pub unknown_039: bool,
    /// Unknown property at offset +03C.
    pub unknown_03c: u32,
    /// Unknown property at offset +040.
    pub unknown_040: bool,
    /// Unknown property at offset +041.
    pub unknown_041: bool,
    /// Unknown property at offset +042.
    pub unknown_042: bool,
    /// Unknown property at offset +043.
    pub unknown_043: bool,
    /// Unknown property at offset +044.
    pub unknown_044: bool,
    /// Unknown property at offset +045.
    pub unknown_045_max_255: u8,
    /// Unknown property at offset +046.
    pub unknown_046_max_128: i8,
    /// Unknown property at offset +047.
    pub unknown_047: bool,
    /// Unknown property at offset +049.
    pub unknown_049_does_something_if_5_max_value_255: u8,
    /// Unknown property at offset +04A.
    pub unknown_04a: bool,
    /// Unknown property at offset +04B.
    pub unknown_04b: bool,
    /// Unknown property at offset +070.
    pub unknown_070: FloatBits,
    /// Unknown property at offset +078.
    pub unknown_078: FloatBits,
    /// Unknown property at offset +07C.
    pub unknown_07c: FloatBits,
    /// Unknown property at offset +090.
    pub unknown_090: FloatBits,
    /// Unknown property at offset +0A8.
    pub unknown_0a8: FloatBits,
    /// Unknown property at offset +0B0.
    pub unknown_0b0: FloatBits,
    /// Unknown property at offset +0B4.
    pub unknown_0b4: FloatBits,
    /// Unknown property at offset +0B8.
    pub unknown_0b8: FloatBits,
    /// Unknown property at offset +0BC.
    pub unknown_0bc: FloatBits,
    /// Unknown property at offset +0C0, relates to opponents horizontal
    /// vector when colliding with a shielded opponent?.
    pub unknown_0c0_shielded_opponent_horizontal_vector: FloatBits,
    /// Unknown property at offset +0C4.
    pub unknown_0c4: FloatBits,
    /// Unknown property at offset +0D8.
    pub unknown_0d8: FloatBits,
    /// Unknown property at offset +0DC.
    pub unknown_0dc: FloatBits,
    /// Unknown property at offset +0E0.
    pub unknown_0e0: FloatBits,
    /// Unknown property at offset +0E4.
    pub unknown_0e4: FloatBits,
    /// Unknown property at offset +0E8.
    pub unknown_0e8: FloatBits,
    /// Unknown property at offset +0EC.
    pub unknown_0ec: FloatBits,
    /// Unknown property at offset +120.
    pub unknown_120: FloatBits,
    /// Unknown property at offset +124.
    pub unknown_124: FloatBits,
    /// Unknown property at offset +128.
    pub unknown_128: FloatBits,
    /// Unknown property at offset +12C.
    pub unknown_12c: FloatBits,
    /// Unknown property at offset +130.
    pub unknown_130: FloatBits,
    /// Unknown property at offset +134.
    pub unknown_134: FloatBits,
    /// Unknown property at offset +138.
    pub unknown_138: FloatBits,
    /// Unknown property at offset +13C.
    pub unknown_13c: FloatBits,
    /// The offsets within the file of each hitbox, in the same order they
    /// exist within the hitboxes property. Empty where the attack was not
    /// read from a file.
    pub hitbox_offsets: Vec<u32>,
    /// The offset within the file the projectile exists at, if there is any
    /// projectile and the attack was read from a file.
    pub projectile_offset: Option<u32>,
}

impl AttackMoveType {
    /// Whether the numbers and flags of this attack are those stored from
    /// `offset` on.
    pub open spec fn fields_read(&self, raw: Seq<u8>, c: Console, offset: int) -> bool {
        &&& self.endlag == float_at(raw, c, offset + 0x04)
        &&& self.invincibility == float_at(raw, c, offset + 0x0C)
        &&& self.fall_speed == float_at(raw, c, offset + 0x14)
        &&& self.aim_range == float_at(raw, c, offset + 0x74)
        &&& self.damage1 == float_at(raw, c, offset + 0x84)
        &&& self.damage2 == float_at(raw, c, offset + 0x88)
        &&& self.damage3 == float_at(raw, c, offset + 0x8C)
        &&& self.charge_effect == float_at(raw, c, offset + 0x94)
        &&& self.charge == float_at(raw, c, offset + 0x98)
        &&& self.multi_hit_speed == float_at(raw, c, offset + 0xA0)
        &&& self.stun == float_at(raw, c, offset + 0xA4)
        &&& self.knockback == float_at(raw, c, offset + 0xAC)
        &&& self.unknown_008 == float_at(raw, c, offset + 0x08)
        &&& self.unknown_010 == float_at(raw, c, offset + 0x10)
        &&& self.unknown_018 == float_at(raw, c, offset + 0x18)
        &&& self.unknown_03c == word_at(raw, c, offset + 0x3C)
        &&& self.unknown_070 == float_at(raw, c, offset + 0x70)
        &&& self.unknown_078 == float_at(raw, c, offset + 0x78)
        &&& self.unknown_07c == float_at(raw, c, offset + 0x7C)
        &&& self.unknown_090 == float_at(raw, c, offset + 0x90)
        &&& self.unknown_0a8 == float_at(raw, c, offset + 0xA8)
        &&& self.unknown_0b0 == float_at(raw, c, offset + 0xB0)
        &&& self.unknown_0b4 == float_at(raw, c, offset + 0xB4)
        &&& self.unknown_0b8 == float_at(raw, c, offset + 0xB8)
        &&& self.unknown_0bc == float_at(raw, c, offset + 0xBC)
        &&& self.unknown_0c0_shielded_opponent_horizontal_vector == float_at(raw, c, offset + 0xC0)
        &&& self.unknown_0c4 == float_at(raw, c, offset + 0xC4)
        &&& self.unknown_0d8 == float_at(raw, c, offset + 0xD8)
        &&& self.unknown_0dc == float_at(raw, c, offset + 0xDC)
        &&& self.unknown_0e0 == float_at(raw, c, offset + 0xE0)
        &&& self.unknown_0e4 == float_at(raw, c, offset + 0xE4)
        &&& self.unknown_0e8 == float_at(raw, c, offset + 0xE8)
        &&& self.unknown_0ec == float_at(raw, c, offset + 0xEC)
        &&& self.unknown_120 == float_at(raw, c, offset + 0x120)
        &&& self.unknown_124 == float_at(raw, c, offset + 0x124)
        &&& self.unknown_128 == float_at(raw, c, offset + 0x128)
        &&& self.unknown_12c == float_at(raw, c, offset + 0x12C)
        &&& self.unknown_130 == float_at(raw, c, offset + 0x130)
        &&& self.unknown_134 == float_at(raw, c, offset + 0x134)
        &&& self.unknown_138 == float_at(raw, c, offset + 0x138)
        &&& self.unknown_13c == float_at(raw, c, offset + 0x13C)
        &&& self.is_slam == flag_at(raw, offset + 0x2C)
        &&& self.shield_breaks == flag_at(raw, offset + 0x2E)
        &&& self.lock_position == flag_at(raw, offset + 0x31)
        &&& self.no_opponent_contact == flag_at(raw, offset + 0x32)
        &&& self.hits_otg == flag_at(raw, offset + 0x33)
        &&& self.knocks_down == flag_at(raw, offset + 0x34)
        &&& self.disabled == flag_at(raw, offset + 0x35)
        &&& self.intangible == flag_at(raw, offset + 0x3A)
        &&& self.unknown_02d == flag_at(raw, offset + 0x2D)
        &&& self.unknown_02f == flag_at(raw, offset + 0x2F)
        &&& self.unknown_030 == flag_at(raw, offset + 0x30)
        &&& self.unknown_036 == flag_at(raw, offset + 0x36)
        &&& self.unknown_037 == flag_at(raw, offset + 0x37)
        &&& self.unknown_038 == flag_at(raw, offset + 0x38)
        &&& self.unknown_039 == flag_at(raw, offset + 0x39)
        &&& self.unknown_040 == flag_at(raw, offset + 0x40)
        &&& self.unknown_041 == flag_at(raw, offset + 0x41)
        &&& self.unknown_042 == flag_at(raw, offset + 0x42)
        &&& self.unknown_043 == flag_at(raw, offset + 0x43)
        &&& self.unknown_044 == flag_at(raw, offset + 0x44)
        &&& self.unknown_045_max_255 == raw[offset + 0x45]
        &&& self.unknown_046_max_128 == signed_of(raw[offset + 0x46])
        &&& self.unknown_047 == flag_at(raw, offset + 0x47)
        &&& self.unknown_049_does_something_if_5_max_value_255 == raw[offset + 0x49]
        &&& self.unknown_04a == flag_at(raw, offset + 0x4A)
        &&& self.unknown_04b == flag_at(raw, offset + 0x4B)
    }

    /// `raw` with the numbers of this attack written from `offset` on.
    pub open spec fn numbers_written(&self, raw: Seq<u8>, c: Console, offset: int) -> Seq<u8> {
        let raw = with_float(raw, c, offset + 0x04, self.endlag);
        let raw = with_float(raw, c, offset + 0x0C, self.invincibility);
        let raw = with_float(raw, c, offset + 0x14, self.fall_speed);
        let raw = with_float(raw, c, offset + 0x74, self.aim_range);
        let raw = with_float(raw, c, offset + 0x84, self.damage1);
        let raw = with_float(raw, c, offset + 0x88, self.damage2);
        let raw = with_float(raw, c, offset + 0x8C, self.damage3);
        let raw = with_float(raw, c, offset + 0x94, self.charge_effect);
        let raw = with_float(raw, c, offset + 0x98, self.charge);
        let raw = with_float(raw, c, offset + 0xA0, self.multi_hit_speed);
        let raw = with_float(raw, c, offset + 0xA4, self.stun);
        let raw = with_float(raw, c, offset + 0xAC, self.knockback);
        let raw = with_float(raw, c, offset + 0x08, self.unknown_008);
        let raw = with_float(raw, c, offset + 0x10, self.unknown_010);
        let raw = with_float(raw, c, offset + 0x18, self.unknown_018);
        let raw = with_word(raw, c, offset + 0x3C, self.unknown_03c);
        let raw = with_float(raw, c, offset + 0x70, self.unknown_070);
        let raw = with_float(raw, c, offset + 0x78, self.unknown_078);
        let raw = with_float(raw, c, offset + 0x7C, self.unknown_07c);
        let raw = with_float(raw, c, offset + 0x90, self.unknown_090);
        let raw = with_float(raw, c, offset + 0xA8, self.unknown_0a8);
        let raw = with_float(raw, c, offset + 0xB0, self.unknown_0b0);
        let raw = with_float(raw, c, offset + 0xB4, self.unknown_0b4);
        let raw = with_float(raw, c, offset + 0xB8, self.unknown_0b8);
        let raw = with_float(raw, c, offset + 0xBC, self.unknown_0bc);
        let raw = with_float(raw, c, offset + 0xC0, self.unknown_0c0_shielded_opponent_horizontal_vector);
        let raw = with_float(raw, c, offset + 0xC4, self.unknown_0c4);
        let raw = with_float(raw, c, offset + 0xD8, self.unknown_0d8);
        let raw = with_float(raw, c, offset + 0xDC, self.unknown_0dc);
        let raw = with_float(raw, c, offset + 0xE0, self.unknown_0e0);
        let raw = with_float(raw, c, offset + 0xE4, self.unknown_0e4);
        let raw = with_float(raw, c, offset + 0xE8, self.unknown_0e8);
        let raw = with_float(raw, c, offset + 0xEC, self.unknown_0ec);
        let raw = with_float(raw, c, offset + 0x120, self.unknown_120);
        let raw = with_float(raw, c, offset + 0x124, self.unknown_124);
        let raw = with_float(raw, c, offset + 0x128, self.unknown_128);
        let raw = with_float(raw, c, offset + 0x12C, self.unknown_12c);
        let raw = with_float(raw, c, offset + 0x130, self.unknown_130);
        let raw = with_float(raw, c, offset + 0x134, self.unknown_134);
        let raw = with_float(raw, c, offset + 0x138, self.unknown_138);
        let raw = with_float(raw, c, offset + 0x13C, self.unknown_13c);
        let raw = with_byte(raw, offset + 0x45, self.unknown_045_max_255);
        let raw = with_byte(raw, offset + 0x46, unsigned_of(self.unknown_046_max_128));
        let raw = with_byte(raw, offset + 0x49, self.unknown_049_does_something_if_5_max_value_255);
        raw
    }

    /// `raw` with the flags of this attack at +02C to +034 written.
    #[verifier::opaque]
    pub open spec fn flags_written_1(&self, raw: Seq<u8>, offset: int) -> Seq<u8> {
        let raw = with_byte(raw, offset + 0x2C, flag_byte(self.is_slam));
        let raw = with_byte(raw, offset + 0x2D, flag_byte(self.unknown_02d));
        let raw = with_byte(raw, offset + 0x2E, flag_byte(self.shield_breaks));
        let raw = with_byte(raw, offset + 0x2F, flag_byte(self.unknown_02f));
        let raw = with_byte(raw, offset + 0x30, flag_byte(self.unknown_030));
        let raw = with_byte(raw, offset + 0x31, flag_byte(self.lock_position));
        let raw = with_byte(raw, offset + 0x32, flag_byte(self.no_opponent_contact));
        let raw = with_byte(raw, offset + 0x33, flag_byte(self.hits_otg));
        let raw = with_byte(raw, offset + 0x34, flag_byte(self.knocks_down));
        raw
    }

    /// `raw` with the flags of this attack at +035 to +042 written.
    #[verifier::opaque]
    pub open spec fn flags_written_2(&self, raw: Seq<u8>, offset: int) -> Seq<u8> {
        let raw = with_byte(raw, offset + 0x35, flag_byte(self.disabled));
        let raw = with_byte(raw, offset + 0x36, flag_byte(self.unknown_036));
        let raw = with_byte(raw, offset + 0x37, flag_byte(self.unknown_037));
        let raw = with_byte(raw, offset + 0x38, flag_byte(self.unknown_038));
        let raw = with_byte(raw, offset + 0x39, flag_byte(self.unknown_039));
        let raw = with_byte(raw, offset + 0x3A, flag_byte(self.intangible));
        let raw = with_byte(raw, offset + 0x40, flag_byte(self.unknown_040));
        let raw = with_byte(raw, offset + 0x41, flag_byte(self.unknown_041));
        let raw = with_byte(raw, offset + 0x42, flag_byte(self.unknown_042));
        raw
    }

    /// `raw` with the flags of this attack at +043 to +04B written.
    #[verifier::opaque]
    pub open spec fn flags_written_3(&self, raw: Seq<u8>, offset: int) -> Seq<u8> {
        let raw = with_byte(raw, offset + 0x43, flag_byte(self.unknown_043));
        let raw = with_byte(raw, offset + 0x44, flag_byte(self.unknown_044));
        let raw = with_byte(raw, offset + 0x47, flag_byte(self.unknown_047));
        let raw = with_byte(raw, offset + 0x4A, flag_byte(self.unknown_04a));
        let raw = with_byte(raw, offset + 0x4B, flag_byte(self.unknown_04b));
        raw
    }

    /// `raw` with the numbers and flags of this attack written from `offset`
    /// on.
    pub open spec fn fields_written(&self, raw: Seq<u8>, c: Console, offset: int) -> Seq<u8> {
        let raw = self.numbers_written(raw, c, offset);
        let raw = self.flags_written_1(raw, offset);
        let raw = self.flags_written_2(raw, offset);
        self.flags_written_3(raw, offset)
    }

    /// Whether every flag of the attack at `offset` is stored as zero or one.
    pub open spec fn flags_canonical(raw: Seq<u8>, offset: int) -> bool {
        &&& raw[offset + 0x2C] <= 1
        &&& raw[offset + 0x2E] <= 1
        &&& raw[offset + 0x31] <= 1
        &&& raw[offset + 0x32] <= 1
        &&& raw[offset + 0x33] <= 1
        &&& raw[offset + 0x34] <= 1
        &&& raw[offset + 0x35] <= 1
        &&& raw[offset + 0x3A] <= 1
        &&& raw[offset + 0x2D] <= 1
        &&& raw[offset + 0x2F] <= 1
        &&& raw[offset + 0x30] <= 1
        &&& raw[offset + 0x36] <= 1
        &&& raw[offset + 0x37] <= 1
        &&& raw[offset + 0x38] <= 1
        &&& raw[offset + 0x39] <= 1
        &&& raw[offset + 0x40] <= 1
        &&& raw[offset + 0x41] <= 1
        &&& raw[offset + 0x42] <= 1
        &&& raw[offset + 0x43] <= 1
        &&& raw[offset + 0x44] <= 1
        &&& raw[offset + 0x47] <= 1
        &&& raw[offset + 0x4A] <= 1
        &&& raw[offset + 0x4B] <= 1
    }

    /// The offsets that the hitboxes of this attack are written at, for the
    /// attack stored at `offset`: those that it was read with, where they are
    /// as many as the stored attack has hitboxes, else those of the stored
    /// attack.
    pub open spec fn write_offsets(&self, raw: Seq<u8>, c: Console, offset: int) -> Seq<u32> {
        if word_at(raw, c, offset + 0x24) == self.hitbox_offsets@.len() {
            self.hitbox_offsets@
        } else {
            offsets_of(raw, c, word_at(raw, c, offset + 0x20), word_at(raw, c, offset + 0x24))
        }
    }

    /// Writes the numbers of this attack from `offset` on.
    fn write_numbers(&self, raw: &mut Vec<u8>, c: Console, offset: usize)
        requires
            offset + 0x260 <= old(raw)@.len(),
        ensures
            final(raw)@ == self.numbers_written(old(raw)@, c, offset as int),
            final(raw)@.len() == old(raw)@.len(),
    {
        assert(raw.len() == raw@.len());
        put_float(raw, c, offset + 0x04, self.endlag);
        put_float(raw, c, offset + 0x0C, self.invincibility);
        put_float(raw, c, offset + 0x14, self.fall_speed);
        put_float(raw, c, offset + 0x74, self.aim_range);
        put_float(raw, c, offset + 0x84, self.damage1);
        put_float(raw, c, offset + 0x88, self.damage2);
        put_float(raw, c, offset + 0x8C, self.damage3);
        put_float(raw, c, offset + 0x94, self.charge_effect);
        put_float(raw, c, offset + 0x98, self.charge);
        put_float(raw, c, offset + 0xA0, self.multi_hit_speed);
        put_float(raw, c, offset + 0xA4, self.stun);
        put_float(raw, c, offset + 0xAC, self.knockback);
        put_float(raw, c, offset + 0x08, self.unknown_008);
        put_float(raw, c, offset + 0x10, self.unknown_010);
        put_float(raw, c, offset + 0x18, self.unknown_018);
        put_word(raw, c, offset + 0x3C, self.unknown_03c);
        put_float(raw, c, offset + 0x70, self.unknown_070);
        put_float(raw, c, offset + 0x78, self.unknown_078);
        put_float(raw, c, offset + 0x7C, self.unknown_07c);
        put_float(raw, c, offset + 0x90, self.unknown_090);
        put_float(raw, c, offset + 0xA8, self.unknown_0a8);
        put_float(raw, c, offset + 0xB0, self.unknown_0b0);
        put_float(raw, c, offset + 0xB4, self.unknown_0b4);
        put_float(raw, c, offset + 0xB8, self.unknown_0b8);
        put_float(raw, c, offset + 0xBC, self.unknown_0bc);
        put_float(raw, c, offset + 0xC0, self.unknown_0c0_shielded_opponent_horizontal_vector);
        put_float(raw, c, offset + 0xC4, self.unknown_0c4);
        put_float(raw, c, offset + 0xD8, self.unknown_0d8);
        put_float(raw, c, offset + 0xDC, self.unknown_0dc);
        put_float(raw, c, offset + 0xE0, self.unknown_0e0);
        put_float(raw, c, offset + 0xE4, self.unknown_0e4);
        put_float(raw, c, offset + 0xE8, self.unknown_0e8);
        put_float(raw, c, offset + 0xEC, self.unknown_0ec);
        put_float(raw, c, offset + 0x120, self.unknown_120);
        put_float(raw, c, offset + 0x124, self.unknown_124);
        put_float(raw, c, offset + 0x128, self.unknown_128);
        put_float(raw, c, offset + 0x12C, self.unknown_12c);
        put_float(raw, c, offset + 0x130, self.unknown_130);
        put_float(raw, c, offset + 0x134, self.unknown_134);
        put_float(raw, c, offset + 0x138, self.unknown_138);
        put_float(raw, c, offset + 0x13C, self.unknown_13c);
        put_byte(raw, offset + 0x45, self.unknown_045_max_255);
        put_signed(raw, offset + 0x46, self.unknown_046_max_128);
        put_byte(raw, offset + 0x49, self.unknown_049_does_something_if_5_max_value_255);
    }

    /// Writes the flags of this attack at +02C to +034.
    fn write_flags_1(&self, raw: &mut Vec<u8>, offset: usize)
        requires
            offset + 0x260 <= old(raw)@.len(),
        ensures
            final(raw)@ == self.flags_written_1(old(raw)@, offset as int),
            final(raw)@.len() == old(raw)@.len(),
    {
        proof {
            reveal(AttackMoveType::flags_written_1);
        }
        assert(raw.len() == raw@.len());
        put_byte(raw, offset + 0x2C, byte_of_flag(self.is_slam));
        put_byte(raw, offset + 0x2D, byte_of_flag(self.unknown_02d));
        put_byte(raw, offset + 0x2E, byte_of_flag(self.shield_breaks));
        put_byte(raw, offset + 0x2F, byte_of_flag(self.unknown_02f));
        put_byte(raw, offset + 0x30, byte_of_flag(self.unknown_030));
        put_byte(raw, offset + 0x31, byte_of_flag(self.lock_position));
        put_byte(raw, offset + 0x32, byte_of_flag(self.no_opponent_contact));
        put_byte(raw, offset + 0x33, byte_of_flag(self.hits_otg));
        put_byte(raw, offset + 0x34, byte_of_flag(self.knocks_down));
    }

    /// Writes the flags of this attack at +035 to +042.
    fn write_flags_2(&self, raw: &mut Vec<u8>, offset: usize)
        requires
            offset + 0x260 <= old(raw)@.len(),
        ensures
            final(raw)@ == self.flags_written_2(old(raw)@, offset as int),
            final(raw)@.len() == old(raw)@.len(),
    {
        proof {
            reveal(AttackMoveType::flags_written_2);
        }
        assert(raw.len() == raw@.len());
        put_byte(raw, offset + 0x35, byte_of_flag(self.disabled));
        put_byte(raw, offset + 0x36, byte_of_flag(self.unknown_036));
        put_byte(raw, offset + 0x37, byte_of_flag(self.unknown_037));
        put_byte(raw, offset + 0x38, byte_of_flag(self.unknown_038));
        put_byte(raw, offset + 0x39, byte_of_flag(self.unknown_039));
        put_byte(raw, offset + 0x3A, byte_of_flag(self.intangible));
        put_byte(raw, offset + 0x40, byte_of_flag(self.unknown_040));
        put_byte(raw, offset + 0x41, byte_of_flag(self.unknown_041));
        put_byte(raw, offset + 0x42, byte_of_flag(self.unknown_042));
    }

    /// Writes the flags of this attack at +043 to +04B.
    fn write_flags_3(&self, raw: &mut Vec<u8>, offset: usize)
        requires
            offset + 0x260 <= old(raw)@.len(),
        ensures
            final(raw)@ == self.flags_written_3(old(raw)@, offset as int),
            final(raw)@.len() == old(raw)@.len(),
    {
        proof {
            reveal(AttackMoveType::flags_written_3);
        }
        assert(raw.len() == raw@.len());
        put_byte(raw, offset + 0x43, byte_of_flag(self.unknown_043));
        put_byte(raw, offset + 0x44, byte_of_flag(self.unknown_044));
        put_byte(raw, offset + 0x47, byte_of_flag(self.unknown_047));
        put_byte(raw, offset + 0x4A, byte_of_flag(self.unknown_04a));
        put_byte(raw, offset + 0x4B, byte_of_flag(self.unknown_04b));
    }

    /// Writing back the numbers and flags that were read changes nothing.
    proof fn lemma_fields_same(&self, raw: Seq<u8>, c: Console, offset: int)
        requires
            0 <= offset,
            offset + 0x260 <= raw.len(),
            self.fields_read(raw, c, offset),
            Self::flags_canonical(raw, offset),
        ensures
            self.fields_written(raw, c, offset) == raw,
    {
        assert(self.numbers_written(raw, c, offset) == raw) by {
            lemma_with_word_same(raw, c, offset + 0x04);
            lemma_with_word_same(raw, c, offset + 0x0C);
            lemma_with_word_same(raw, c, offset + 0x14);
            lemma_with_word_same(raw, c, offset + 0x74);
            lemma_with_word_same(raw, c, offset + 0x84);
            lemma_with_word_same(raw, c, offset + 0x88);
            lemma_with_word_same(raw, c, offset + 0x8C);
            lemma_with_word_same(raw, c, offset + 0x94);
            lemma_with_word_same(raw, c, offset + 0x98);
            lemma_with_word_same(raw, c, offset + 0xA0);
            lemma_with_word_same(raw, c, offset + 0xA4);
            lemma_with_word_same(raw, c, offset + 0xAC);
            lemma_with_word_same(raw, c, offset + 0x08);
            lemma_with_word_same(raw, c, offset + 0x10);
            lemma_with_word_same(raw, c, offset + 0x18);
            lemma_with_word_same(raw, c, offset + 0x3C);
            lemma_with_word_same(raw, c, offset + 0x70);
            lemma_with_word_same(raw, c, offset + 0x78);
            lemma_with_word_same(raw, c, offset + 0x7C);
            lemma_with_word_same(raw, c, offset + 0x90);
            lemma_with_word_same(raw, c, offset + 0xA8);
            lemma_with_word_same(raw, c, offset + 0xB0);
            lemma_with_word_same(raw, c, offset + 0xB4);
            lemma_with_word_same(raw, c, offset + 0xB8);
            lemma_with_word_same(raw, c, offset + 0xBC);
            lemma_with_word_same(raw, c, offset + 0xC0);
            lemma_with_word_same(raw, c, offset + 0xC4);
            lemma_with_word_same(raw, c, offset + 0xD8);
            lemma_with_word_same(raw, c, offset + 0xDC);
            lemma_with_word_same(raw, c, offset + 0xE0);
            lemma_with_word_same(raw, c, offset + 0xE4);
            lemma_with_word_same(raw, c, offset + 0xE8);
            lemma_with_word_same(raw, c, offset + 0xEC);
            lemma_with_word_same(raw, c, offset + 0x120);
            lemma_with_word_same(raw, c, offset + 0x124);
            lemma_with_word_same(raw, c, offset + 0x128);
            lemma_with_word_same(raw, c, offset + 0x12C);
            lemma_with_word_same(raw, c, offset + 0x130);
            lemma_with_word_same(raw, c, offset + 0x134);
            lemma_with_word_same(raw, c, offset + 0x138);
            lemma_with_word_same(raw, c, offset + 0x13C);
            lemma_with_byte_same(raw, offset + 0x45);
            lemma_signed_unsigned(raw[offset + 0x46]);
            lemma_with_byte_same(raw, offset + 0x46);
            lemma_with_byte_same(raw, offset + 0x49);
        }
        assert(self.flags_written_1(raw, offset) == raw) by {
            reveal(AttackMoveType::flags_written_1);
            lemma_with_flag_same(raw, offset + 0x2C);
            lemma_with_flag_same(raw, offset + 0x2D);
            lemma_with_flag_same(raw, offset + 0x2E);
            lemma_with_flag_same(raw, offset + 0x2F);
            lemma_with_flag_same(raw, offset + 0x30);
            lemma_with_flag_same(raw, offset + 0x31);
            lemma_with_flag_same(raw, offset + 0x32);
            lemma_with_flag_same(raw, offset + 0x33);
            lemma_with_flag_same(raw, offset + 0x34);
        }
        assert(self.flags_written_2(raw, offset) == raw) by {
            reveal(AttackMoveType::flags_written_2);
            lemma_with_flag_same(raw, offset + 0x35);
            lemma_with_flag_same(raw, offset + 0x36);
            lemma_with_flag_same(raw, offset + 0x37);
            lemma_with_flag_same(raw, offset + 0x38);
            lemma_with_flag_same(raw, offset + 0x39);
            lemma_with_flag_same(raw, offset + 0x3A);
            lemma_with_flag_same(raw, offset + 0x40);
            lemma_with_flag_same(raw, offset + 0x41);
            lemma_with_flag_same(raw, offset + 0x42);
        }
        assert(self.flags_written_3(raw, offset) == raw) by {
            reveal(AttackMoveType::flags_written_3);
            lemma_with_flag_same(raw, offset + 0x43);
            lemma_with_flag_same(raw, offset + 0x44);
            lemma_with_flag_same(raw, offset + 0x47);
            lemma_with_flag_same(raw, offset + 0x4A);
            lemma_with_flag_same(raw, offset + 0x4B);
        }
    }

    /// Retrieve a list of offsets for an attack's hitboxes within the file,
    /// for the attack that starts at `offset`. Empty if the attack has no
    /// hitboxes.
    fn hitbox_offsets(raw: &[u8], offset: usize, console: Console) -> (r: Result<Vec<u32>, Error>)
        requires
            offset + 0x260 <= raw@.len(),
        ensures
            ({
                let table = word_at(raw@, console, offset + 0x20);
                let count = word_at(raw@, console, offset + 0x24);
                match r {
                    Ok(v) => offsets_error(raw@, table, count) is None && v@ == offsets_of(
                        raw@,
                        console,
                        table,
                        count,
                    ),
                    Err(e) => offsets_error(raw@, table, count) == Some(e),
                }
            }),
    {
        // Offset 0x20 of the attack contains an offset within the file to a
        // list of further offsets, each of which points to a hitbox. The
        // number of items in the list is located at offset 0x24.
        assert(raw.len() == raw@.len());
        let num_hitboxes = AttackMoveType::number_of_hitboxes(raw, offset, console);
        let regions_offset = get_word(raw, console, offset + 0x20);
        read_offsets(raw, console, regions_offset, num_hitboxes)
    }

    /// Retrieve the number of hitboxes of the attack that starts at `offset`.
    fn number_of_hitboxes(raw: &[u8], offset: usize, console: Console) -> (n: u32)
        requires
            offset + 0x260 <= raw@.len(),
        ensures
            n == word_at(raw@, console, offset + 0x24),
    {
        assert(raw.len() == raw@.len());
        get_word(raw, console, offset + 0x24)
    }
}

impl SerialisedShrekSuperSlamGameObject for AttackMoveType {
    open spec fn class_hash() -> u32 {
        0xEBF07BB5
    }

    open spec fn class_name() -> Seq<char> {
        "Game::AttackMoveType"@
    }

    open spec fn class_size() -> nat {
        0x260
    }

    open spec fn read_error(raw: Seq<u8>, c: Console, offset: int) -> Option<Error> {
        if offset + 0x260 > raw.len() {
            Some(not_enough(0x260, raw.len() as int, offset))
        } else {
            match optional_error::<ProjectileType>(raw, c, word_at(raw, c, offset + 0x9C)) {
                Some(e) => Some(e),
                None => match array_error::<AttackMoveRegion>(
                    raw,
                    c,
                    word_at(raw, c, offset + 0x20),
                    word_at(raw, c, offset + 0x24),
                ) {
                    Some(e) => Some(e),
                    None => string_error(raw, word_at(raw, c, offset + 0x28)),
                },
            }
        }
    }

    open spec fn is_read_of(&self, raw: Seq<u8>, c: Console, offset: int) -> bool {
        &&& self.fields_read(raw, c, offset)
        &&& self.name@ == string_at(raw, word_at(raw, c, offset + 0x28))
        &&& self.projectile_offset == if word_at(raw, c, offset + 0x9C) == 0 {
            None
        } else {
            Some(word_at(raw, c, offset + 0x9C))
        }
        &&& is_optional_at(self.projectile, raw, c, word_at(raw, c, offset + 0x9C))
        &&& self.hitbox_offsets@ == offsets_of(
            raw,
            c,
            word_at(raw, c, offset + 0x20),
            word_at(raw, c, offset + 0x24),
        )
        &&& are_objects_at(self.hitboxes@, raw, c, self.hitbox_offsets@)
    }

    /// Returns the hashcode for the `Game::AttackMoveType` in-game object.
    fn hash() -> (h: u32) {
        0xEBF07BB5
    }

    /// Returns the name of the in-game class.
    fn name() -> (n: &'static str) {
        "Game::AttackMoveType"
    }

    /// Returns the size of a serialised `Game::AttackMoveType` object.
    fn size() -> (s: usize) {
        0x260
    }

    /// Return a new `AttackMoveType` using data located at the given
    /// `offset` in the given `bin` file structure.
    ///
    /// Prefer calling [`Bin::get_object_from_offset`] rather than calling
    /// this method.
    fn new(bin: &Bin, offset: usize) -> (r: Result<AttackMoveType, Error>) {
        let len: usize = bin.raw.len();
        if len < 0x260 || offset > len - 0x260 {
            return Err(too_few_bytes(0x260, len as u64, offset as u64));
        }
        let raw = bin.raw.as_slice();
        let c = bin.console;

        // Read the numbers and flags
        let endlag = get_float(raw, c, offset + 0x04);
        let invincibility = get_float(raw, c, offset + 0x0C);
        let fall_speed = get_float(raw, c, offset + 0x14);
        let aim_range = get_float(raw, c, offset + 0x74);
        let damage1 = get_float(raw, c, offset + 0x84);
        let damage2 = get_float(raw, c, offset + 0x88);
        let damage3 = get_float(raw, c, offset + 0x8C);
        let charge_effect = get_float(raw, c, offset + 0x94);
        let charge = get_float(raw, c, offset + 0x98);
        let multi_hit_speed = get_float(raw, c, offset + 0xA0);
        let stun = get_float(raw, c, offset + 0xA4);
        let knockback = get_float(raw, c, offset + 0xAC);
        let unknown_008 = get_float(raw, c, offset + 0x08);
        let unknown_010 = get_float(raw, c, offset + 0x10);
        let unknown_018 = get_float(raw, c, offset + 0x18);
        let unknown_03c = get_word(raw, c, offset + 0x3C);
        let unknown_070 = get_float(raw, c, offset + 0x70);
        let unknown_078 = get_float(raw, c, offset + 0x78);
        let unknown_07c = get_float(raw, c, offset + 0x7C);
        let unknown_090 = get_float(raw, c, offset + 0x90);
        let unknown_0a8 = get_float(raw, c, offset + 0xA8);
        let unknown_0b0 = get_float(raw, c, offset + 0xB0);
        let unknown_0b4 = get_float(raw, c, offset + 0xB4);
        let unknown_0b8 = get_float(raw, c, offset + 0xB8);
        let unknown_0bc = get_float(raw, c, offset + 0xBC);
        let unknown_0c0_shielded_opponent_horizontal_vector = get_float(raw, c, offset + 0xC0);
        let unknown_0c4 = get_float(raw, c, offset + 0xC4);
        let unknown_0d8 = get_float(raw, c, offset + 0xD8);
        let unknown_0dc = get_float(raw, c, offset + 0xDC);
        let unknown_0e0 = get_float(raw, c, offset + 0xE0);
        let unknown_0e4 = get_float(raw, c, offset + 0xE4);
        let unknown_0e8 = get_float(raw, c, offset + 0xE8);
        let unknown_0ec = get_float(raw, c, offset + 0xEC);
        let unknown_120 = get_float(raw, c, offset + 0x120);
        let unknown_124 = get_float(raw, c, offset + 0x124);
        let unknown_128 = get_float(raw, c, offset + 0x128);
        let unknown_12c = get_float(raw, c, offset + 0x12C);
        let unknown_130 = get_float(raw, c, offset + 0x130);
        let unknown_134 = get_float(raw, c, offset + 0x134);
        let unknown_138 = get_float(raw, c, offset + 0x138);
        let unknown_13c = get_float(raw, c, offset + 0x13C);
        let is_slam = raw[offset + 0x2C] != 0;
        let shield_breaks = raw[offset + 0x2E] != 0;
        let lock_position = raw[offset + 0x31] != 0;
        let no_opponent_contact = raw[offset + 0x32] != 0;
        let hits_otg = raw[offset + 0x33] != 0;
        let knocks_down = raw[offset + 0x34] != 0;
        let disabled = raw[offset + 0x35] != 0;
        let intangible = raw[offset + 0x3A] != 0;
        let unknown_02d = raw[offset + 0x2D] != 0;
        let unknown_02f = raw[offset + 0x2F] != 0;
        let unknown_030 = raw[offset + 0x30] != 0;
        let unknown_036 = raw[offset + 0x36] != 0;
        let unknown_037 = raw[offset + 0x37] != 0;
        let unknown_038 = raw[offset + 0x38] != 0;
        let unknown_039 = raw[offset + 0x39] != 0;
        let unknown_040 = raw[offset + 0x40] != 0;
        let unknown_041 = raw[offset + 0x41] != 0;
        let unknown_042 = raw[offset + 0x42] != 0;
        let unknown_043 = raw[offset + 0x43] != 0;
        let unknown_044 = raw[offset + 0x44] != 0;
        let unknown_045_max_255 = raw[offset + 0x45];
        let unknown_046_max_128 = get_signed(raw, offset + 0x46);
        let unknown_047 = raw[offset + 0x47] != 0;
        let unknown_049_does_something_if_5_max_value_255 = raw[offset + 0x49];
        let unknown_04a = raw[offset + 0x4A] != 0;
        let unknown_04b = raw[offset + 0x4B] != 0;
        let name_offset = get_word(raw, c, offset + 0x28);

        // Read the projectile type the attack spawns, if any
        let projectile_offset_num = get_word(raw, c, offset + 0x9C);
        let projectile_offset = if projectile_offset_num == 0 {
            None
        } else {
            Some(projectile_offset_num)
        };
        let projectile = construct_optional_type::<ProjectileType>(bin, offset, c, 0x9C)?;

        // Read the list of hitbox offsets, and use those to read each hitbox
        let hitbox_offsets = AttackMoveType::hitbox_offsets(raw, offset, c)?;
        let hitboxes = read_objects::<AttackMoveRegion>(bin, &hitbox_offsets)?;
        let name = bin.get_str_from_offset(name_offset)?;

        Ok(
            AttackMoveType {
                aim_range,
                charge,
                charge_effect,
                damage1,
                damage2,
                damage3,
                disabled,
                endlag,
                fall_speed,
                hitboxes,
                hits_otg,
                intangible,
                invincibility,
                is_slam,
                knockback,
                knocks_down,
                lock_position,
                multi_hit_speed,
                name,
                no_opponent_contact,
                projectile,
                shield_breaks,
                stun,
                unknown_008,
                unknown_010,
                unknown_018,
                unknown_02d,
                unknown_02f,
                unknown_030,
                unknown_036,
                unknown_037,
                unknown_038,
                unknown_039,
                unknown_03c,
                unknown_040,
                unknown_041,
                unknown_042,
                unknown_043,
                unknown_044,
                unknown_045_max_255,
                unknown_046_max_128,
                unknown_047,
                unknown_049_does_something_if_5_max_value_255,
                unknown_04a,
                unknown_04b,
                unknown_070,
                unknown_078,
                unknown_07c,
                unknown_090,
                unknown_0a8,
                unknown_0b0,
                unknown_0b4,
                unknown_0b8,
                unknown_0bc,
                unknown_0c0_shielded_opponent_horizontal_vector,
                unknown_0c4,
                unknown_0d8,
                unknown_0dc,
                unknown_0e0,
                unknown_0e4,
                unknown_0e8,
                unknown_0ec,
                unknown_120,
                unknown_124,
                unknown_128,
                unknown_12c,
                unknown_130,
                unknown_134,
                unknown_138,
                unknown_13c,
                hitbox_offsets,
                projectile_offset,
            },
        )
    }

    proof fn lemma_registered() {
    }
}

impl WriteableShrekSuperSlamGameObject for AttackMoveType {
    open spec fn written(&self, raw: Seq<u8>, c: Console, offset: int) -> (Seq<u8>, Option<Error>) {
        if offset + 0x260 > raw.len() {
            (raw, Some(not_enough(0x260, raw.len() as int, offset)))
        } else {
            let patched = self.fields_written(raw, c, offset);
            let table = word_at(patched, c, offset + 0x20);
            let count = word_at(patched, c, offset + 0x24);
            if count != self.hitbox_offsets@.len() && offsets_error(patched, table, count) is Some {
                (patched, offsets_error(patched, table, count))
            } else {
                let offsets = self.write_offsets(patched, c, offset);
                let after = elements_written(
                    self.hitboxes@,
                    offsets,
                    patched,
                    c,
                    smaller(self.hitboxes@.len(), offsets.len()),
                );
                if after.1 is Some {
                    after
                } else {
                    optional_written(self.projectile, self.projectile_offset, after.0, c)
                }
            }
        }
    }

    open spec fn canonical(raw: Seq<u8>, c: Console, offset: int) -> bool {
        Self::flags_canonical(raw, offset)
    }

    /// Writes the object back to its `bin` file at the given `offset`.
    ///
    /// Only the numbers and flags of the attack are written, and those of
    /// its hitboxes and its projectile: anything else would change the size
    /// of the file and invalidate all offsets.
    ///
    /// The hitboxes are written where this attack remembers to have read
    /// them. If it remembers another number of places than the attack in the
    /// file has hitboxes (it remembers none if it was not read from a file),
    /// the places are those of the hitboxes of the attack in the file. The
    /// hitboxes are then matched to the places by position; what is left over
    /// of either is ignored.
    fn write(&self, bin: &mut Bin, offset: usize) -> (r: Result<(), Error>) {
        let len: usize = bin.raw.len();
        if len < 0x260 || offset > len - 0x260 {
            return Err(too_few_bytes(0x260, len as u64, offset as u64));
        }
        let c = bin.console;
        self.write_numbers(&mut bin.raw, c, offset);
        self.write_flags_1(&mut bin.raw, offset);
        self.write_flags_2(&mut bin.raw, offset);
        self.write_flags_3(&mut bin.raw, offset);

        // Write the attack's hitboxes back to the file too
        let count = AttackMoveType::number_of_hitboxes(bin.raw.as_slice(), offset, c);
        if count as usize != self.hitbox_offsets.len() {
            let hitbox_offsets = AttackMoveType::hitbox_offsets(bin.raw.as_slice(), offset, c)?;
            write_elements(bin, &self.hitboxes, &hitbox_offsets)?;
        } else {
            write_elements(bin, &self.hitboxes, &self.hitbox_offsets)?;
        }

        // Write the attack's projectile, if any, back to the file too
        match (&self.projectile, self.projectile_offset) {
            (Some(projectile), Some(projectile_offset)) => write_element(
                bin,
                projectile,
                projectile_offset,
            ),
            _ => Ok(()),
        }
    }

    proof fn lemma_write_read(&self, raw: Seq<u8>, c: Console, offset: int) {
        self.lemma_fields_same(raw, c, offset);
        let offsets = self.hitbox_offsets@;
        let n = self.hitboxes@.len();
        assert forall|i: int| 0 <= i < n implies AttackMoveRegion::canonical(
            raw,
            c,
            #[trigger] offsets[i] + 0x40,
        ) by {}
        lemma_elements_written_same(self.hitboxes@, offsets, raw, c, n);
        match (self.projectile, self.projectile_offset) {
            (Some(projectile), Some(projectile_offset)) => {
                lemma_element_written_same(projectile, raw, c, projectile_offset);
            },
            _ => {},
        }
    }
}

/// Structure representing the in-game `Game::ProjectileType` object type.
///
/// This type represents a projectile generated by an attack.
#[derive(Clone, Copy, PartialEq, Eq, Structural, Debug)]
pub struct ProjectileType {
    /// Speed the projectile moves in the X-axis.
    pub x_vector: FloatBits,
    /// Some kind of angle the projectile is fired at.
    pub angle: FloatBits,
    /// The arc of the projectile, some other kind of angle.
    pub arc: FloatBits,
    /// Related to homing in on an opponent.
    pub homing1: FloatBits,
    /// Related to homing in on an opponent.
    pub homing2: FloatBits,
    /// Related to homing in on an opponent.
    pub homing3: FloatBits,
}

impl ProjectileType {
    /// `raw` with the fields of this object written from `offset` on.
    pub open spec fn fields_written(&self, raw: Seq<u8>, c: Console, offset: int) -> Seq<u8> {
        let raw = with_float(raw, c, offset + 0x08, self.x_vector);
        let raw = with_float(raw, c, offset + 0x14, self.angle);
        let raw = with_float(raw, c, offset + 0x18, self.arc);
        let raw = with_float(raw, c, offset + 0x44, self.homing1);
        let raw = with_float(raw, c, offset + 0x48, self.homing2);
        let raw = with_float(raw, c, offset + 0x4C, self.homing3);
        raw
    }

    /// Writes the fields of this object from `offset` on.
    fn write_fields(&self, raw: &mut Vec<u8>, c: Console, offset: usize)
        requires
            offset + 0x74 <= old(raw)@.len(),
        ensures
            final(raw)@ == self.fields_written(old(raw)@, c, offset as int),
            final(raw)@.len() == old(raw)@.len(),
    {
        assert(raw.len() == raw@.len());
        put_float(raw, c, offset + 0x08, self.x_vector);
        put_float(raw, c, offset + 0x14, self.angle);
        put_float(raw, c, offset + 0x18, self.arc);
        put_float(raw, c, offset + 0x44, self.homing1);
        put_float(raw, c, offset + 0x48, self.homing2);
        put_float(raw, c, offset + 0x4C, self.homing3);
    }
}

impl SerialisedShrekSuperSlamGameObject for ProjectileType {
    open spec fn class_hash() -> u32 {
        0x8811292E
    }

    open spec fn class_name() -> Seq<char> {
        "Game::ProjectileType"@
    }

    open spec fn class_size() -> nat {
        0x74
    }

    open spec fn read_error(raw: Seq<u8>, c: Console, offset: int) -> Option<Error> {
        if offset + 0x74 > raw.len() {
            Some(not_enough(0x74, raw.len() as int, offset))
        } else {
            None
        }
    }

    open spec fn is_read_of(&self, raw: Seq<u8>, c: Console, offset: int) -> bool {
        &&& self.x_vector == float_at(raw, c, offset + 0x08)
        &&& self.angle == float_at(raw, c, offset + 0x14)
        &&& self.arc == float_at(raw, c, offset + 0x18)
        &&& self.homing1 == float_at(raw, c, offset + 0x44)
        &&& self.homing2 == float_at(raw, c, offset + 0x48)
        &&& self.homing3 == float_at(raw, c, offset + 0x4C)
    }

    /// Returns the hashcode for the `Game::ProjectileType` in-game object.
    fn hash() -> (h: u32) {
        0x8811292E
    }

    /// Returns the name of the in-game class.
    fn name() -> (n: &'static str) {
        "Game::ProjectileType"
    }

    /// Returns the size of a serialised `Game::ProjectileType` object.
    fn size() -> (s: usize) {
        0x74
    }

    /// Return a new `ProjectileType` using data located at the given `offset` in
    /// the given `bin` file structure.
    ///
    /// Prefer calling [`Bin::get_object_from_offset`] rather than calling
    /// this method.
    fn new(bin: &Bin, offset: usize) -> (r: Result<ProjectileType, Error>) {
        let len: usize = bin.raw.len();
        if len < 0x74 || offset > len - 0x74 {
            return Err(too_few_bytes(0x74, len as u64, offset as u64));
        }
        let raw = bin.raw.as_slice();
        let c = bin.console;
        let x_vector = get_float(raw, c, offset + 0x08);
        let angle = get_float(raw, c, offset + 0x14);
        let arc = get_float(raw, c, offset + 0x18);
        let homing1 = get_float(raw, c, offset + 0x44);
        let homing2 = get_float(raw, c, offset + 0x48);
        let homing3 = get_float(raw, c, offset + 0x4C);
        Ok(
            ProjectileType {
                x_vector,
                angle,
                arc,
                homing1,
                homing2,
                homing3,
            },
        )
    }

    proof fn lemma_registered() {
    }
}

impl WriteableShrekSuperSlamGameObject for ProjectileType {
    open spec fn written(&self, raw: Seq<u8>, c: Console, offset: int) -> (Seq<u8>, Option<Error>) {
        if offset + 0x74 > raw.len() {
            (raw, Some(not_enough(0x74, raw.len() as int, offset)))
        } else {
            (self.fields_written(raw, c, offset), None)
        }
    }

    open spec fn canonical(raw: Seq<u8>, c: Console, offset: int) -> bool {
        true
    }

    /// Writes the object back to its `bin` file at the given `offset`.
    ///
    /// Only the numbers of the object are written: anything else would
    /// change the size of the file and invalidate all offsets.
    fn write(&self, bin: &mut Bin, offset: usize) -> (r: Result<(), Error>) {
        let len: usize = bin.raw.len();
        if len < 0x74 || offset > len - 0x74 {
            return Err(too_few_bytes(0x74, len as u64, offset as u64));
        }
        self.write_fields(&mut bin.raw, bin.console, offset);
        Ok(())
    }

    proof fn lemma_write_read(&self, raw: Seq<u8>, c: Console, offset: int) {
        lemma_with_word_same(raw, c, offset + 0x08);
        lemma_with_word_same(raw, c, offset + 0x14);
        lemma_with_word_same(raw, c, offset + 0x18);
        lemma_with_word_same(raw, c, offset + 0x44);
        lemma_with_word_same(raw, c, offset + 0x48);
        lemma_with_word_same(raw, c, offset + 0x4C);
    }
}

/// Structure representing the in-game `Game::AttackMoveRegion` object type.
///
/// This type represents a single hitbox generated by an attack or projectile.
#[derive(Clone, Copy, PartialEq, Eq, Structural, Debug)]
pub struct AttackMoveRegion {
    /// The delay (in seconds?) from the attack starting to the hitbox coming
    /// out.
    pub delay: FloatBits,
    /// The angle of the hitbox - smaller wraps more around the character.
    pub width: FloatBits,
    /// The height of the hitbox - larger extends out wider.
    pub radius: FloatBits,
    /// Unknown property at offset +10.
    pub unknown_010: FloatBits,
    /// Unknown property at offset +24.
    pub unknown_024: FloatBits,
}

impl AttackMoveRegion {
    /// `raw` with the fields of this object written from `offset` on.
    pub open spec fn fields_written(&self, raw: Seq<u8>, c: Console, offset: int) -> Seq<u8> {
        let raw = with_float(raw, c, offset + 0x04, self.delay);
        let raw = with_float(raw, c, offset + 0x30, self.width);
        let raw = with_float(raw, c, offset + 0x38, self.radius);
        let raw = with_float(raw, c, offset + 0x10, self.unknown_010);
        let raw = with_float(raw, c, offset + 0x24, self.unknown_024);
        raw
    }

    /// Writes the fields of this object from `offset` on.
    fn write_fields(&self, raw: &mut Vec<u8>, c: Console, offset: usize)
        requires
            offset + 0x40 <= old(raw)@.len(),
        ensures
            final(raw)@ == self.fields_written(old(raw)@, c, offset as int),
            final(raw)@.len() == old(raw)@.len(),
    {
        assert(raw.len() == raw@.len());
        put_float(raw, c, offset + 0x04, self.delay);
        put_float(raw, c, offset + 0x30, self.width);
        put_float(raw, c, offset + 0x38, self.radius);
        put_float(raw, c, offset + 0x10, self.unknown_010);
        put_float(raw, c, offset + 0x24, self.unknown_024);
    }
}

impl SerialisedShrekSuperSlamGameObject for AttackMoveRegion {
    open spec fn class_hash() -> u32 {
        0xF2CFE08D
    }

    open spec fn class_name() -> Seq<char> {
        "Game::AttackMoveRegion"@
    }

    open spec fn class_size() -> nat {
        0x40
    }

    open spec fn read_error(raw: Seq<u8>, c: Console, offset: int) -> Option<Error> {
        if offset + 0x40 > raw.len() {
            Some(not_enough(0x40, raw.len() as int, offset))
        } else {
            None
        }
    }

    open spec fn is_read_of(&self, raw: Seq<u8>, c: Console, offset: int) -> bool {
        &&& self.delay == float_at(raw, c, offset + 0x04)
        &&& self.width == float_at(raw, c, offset + 0x30)
        &&& self.radius == float_at(raw, c, offset + 0x38)
        &&& self.unknown_010 == float_at(raw, c, offset + 0x10)
        &&& self.unknown_024 == float_at(raw, c, offset + 0x24)
    }

    /// Returns the hashcode for the `Game::AttackMoveRegion` in-game object.
    fn hash() -> (h: u32) {
        0xF2CFE08D
    }

    /// Returns the name of the in-game class.
    fn name() -> (n: &'static str) {
        "Game::AttackMoveRegion"
    }

    /// Returns the size of a serialised `Game::AttackMoveRegion` object.
    fn size() -> (s: usize) {
        0x40
    }

    /// Return a new `AttackMoveRegion` using data located at the given `offset` in
    /// the given `bin` file structure.
    ///
    /// Prefer calling [`Bin::get_object_from_offset`] rather than calling
    /// this method.
    fn new(bin: &Bin, offset: usize) -> (r: Result<AttackMoveRegion, Error>) {
        let len: usize = bin.raw.len();
        if len < 0x40 || offset > len - 0x40 {
            return Err(too_few_bytes(0x40, len as u64, offset as u64));
        }
        let raw = bin.raw.as_slice();
        let c = bin.console;
        let delay = get_float(raw, c, offset + 0x04);
        let width = get_float(raw, c, offset + 0x30);
        let radius = get_float(raw, c, offset + 0x38);
        let unknown_010 = get_float(raw, c, offset + 0x10);
        let unknown_024 = get_float(raw, c, offset + 0x24);
        Ok(
            AttackMoveRegion {
                delay,
                width,
                radius,
                unknown_010,
                unknown_024,
            },
        )
    }

    proof fn lemma_registered() {
    }
}

impl WriteableShrekSuperSlamGameObject for AttackMoveRegion {
    open spec fn written(&self, raw: Seq<u8>, c: Console, offset: int) -> (Seq<u8>, Option<Error>) {
        if offset + 0x40 > raw.len() {
            (raw, Some(not_enough(0x40, raw.len() as int, offset)))
        } else {
            (self.fields_written(raw, c, offset), None)
        }
    }

    open spec fn canonical(raw: Seq<u8>, c: Console, offset: int) -> bool {
        true
    }

    /// Writes the object back to its `bin` file at the given `offset`.
    ///
    /// Only the numbers of the object are written: anything else would
    /// change the size of the file and invalidate all offsets.
    fn write(&self, bin: &mut Bin, offset: usize) -> (r: Result<(), Error>) {
        let len: usize = bin.raw.len();
        if len < 0x40 || offset > len - 0x40 {
            return Err(too_few_bytes(0x40, len as u64, offset as u64));
        }
        self.write_fields(&mut bin.raw, bin.console, offset);
        Ok(())
    }

    proof fn lemma_write_read(&self, raw: Seq<u8>, c: Console, offset: int) {
        lemma_with_word_same(raw, c, offset + 0x04);
        lemma_with_word_same(raw, c, offset + 0x30);
        lemma_with_word_same(raw, c, offset + 0x38);
        lemma_with_word_same(raw, c, offset + 0x10);
        lemma_with_word_same(raw, c, offset + 0x24);
    }
}

} // verus!
