//! The physics of a fighting character.
use vstd::prelude::*;
use crate::classes::{SerialisedShrekSuperSlamGameObject, WriteableShrekSuperSlamGameObject};
use crate::console::{Console, FloatBits};
use crate::errors::{not_enough, too_few_bytes, Error};
use crate::files::bin::bin::Bin;
use crate::util::{
    float_at, get_float, lemma_with_word_same, put_float, with_float,
};

verus! {

/// Structure representing the in-game `Game::PhysicsFighting` object type.
///
/// Each field is a number of the game's physics, named as the game names it.
#[derive(Clone, Copy, PartialEq, Eq, Structural, Debug)]
pub struct PhysicsFighting {
    /// The game's `m_airborn_land_dist` setting.
    pub m_airborn_land_dist: FloatBits,
    /// The game's `m_airborn_no_catch_bias` setting.
    pub m_airborn_no_catch_bias: FloatBits,
    /// The game's `ground_leave_dist_walk` setting.
    pub ground_leave_dist_walk: FloatBits,
    /// The game's `ground_leave_dist_stairs` setting.
    pub ground_leave_dist_stairs: FloatBits,
    /// The game's `m_jump_up_vel_influence` setting.
    pub m_jump_up_vel_influence: FloatBits,
    /// The game's `jump_takeoff_max_time` setting.
    pub jump_takeoff_max_time: FloatBits,
    /// The game's `jump_delay` setting.
    pub jump_delay: FloatBits,
    /// The game's `off_ledge_vel_stop` setting.
    pub off_ledge_vel_stop: FloatBits,
    /// The game's `off_ledge_vel_drop` setting.
    pub off_ledge_vel_drop: FloatBits,
    /// The game's `off_ledge_vel_roll` setting.
    pub off_ledge_vel_roll: FloatBits,
    /// The game's `block_time_max` setting.
    pub block_time_max: FloatBits,
    /// The game's `block_time_recharge` setting.
    pub block_time_recharge: FloatBits,
    /// The game's `block_power_max` setting.
    pub block_power_max: FloatBits,
    /// The game's `block_power_recharge` setting.
    pub block_power_recharge: FloatBits,
    /// The game's `jump_peak_vel` setting.
    pub jump_peak_vel: FloatBits,
    /// The game's `jump_takeoff_region_time` setting.
    pub jump_takeoff_region_time: FloatBits,
    /// The game's `jump_power_normal` setting.
    pub jump_power_normal: FloatBits,
    /// The game's `jump_power_double` setting.
    pub jump_power_double: FloatBits,
    /// The game's `jump_teleport_up_dist` setting.
    pub jump_teleport_up_dist: FloatBits,
    /// The game's `jump_teleport_flat_dist` setting.
    pub jump_teleport_flat_dist: FloatBits,
    /// The game's `jump_teleport_flat_up_dist` setting.
    pub jump_teleport_flat_up_dist: FloatBits,
    /// The game's `jump_power_ledge` setting.
    pub jump_power_ledge: FloatBits,
    /// The game's `jump_power_wall` setting.
    pub jump_power_wall: FloatBits,
    /// The game's `jump_power_wall_outward` setting.
    pub jump_power_wall_outward: FloatBits,
    /// The game's `jump_power_grapple` setting.
    pub jump_power_grapple: FloatBits,
    /// The game's `dump_up_vel` setting.
    pub dump_up_vel: FloatBits,
    /// The game's `dump_flat_vel` setting.
    pub dump_flat_vel: FloatBits,
    /// The game's `accumulated_vel_air_fric` setting.
    pub accumulated_vel_air_fric: FloatBits,
    /// The game's `accumulated_vel_ground_fric` setting.
    pub accumulated_vel_ground_fric: FloatBits,
    /// The game's `wall_bounce_low` setting.
    pub wall_bounce_low: FloatBits,
    /// The game's `wall_bounce_medium` setting.
    pub wall_bounce_medium: FloatBits,
    /// The game's `wall_bounce_high` setting.
    pub wall_bounce_high: FloatBits,
    /// The game's `hit_pause_delay` setting.
    pub hit_pause_delay: FloatBits,
    /// The game's `hit_pause_light` setting.
    pub hit_pause_light: FloatBits,
    /// The game's `hit_pause_medium` setting.
    pub hit_pause_medium: FloatBits,
    /// The game's `hit_pause_strong` setting.
    pub hit_pause_strong: FloatBits,
    /// The game's `attack_speed_filter` setting.
    pub attack_speed_filter: FloatBits,
    /// The game's `move_speed_filter` setting.
    pub move_speed_filter: FloatBits,
    /// The game's `min_loose_camera_radius` setting.
    pub min_loose_camera_radius: FloatBits,
    /// The game's `max_loose_camera_radius` setting.
    pub max_loose_camera_radius: FloatBits,
    /// The game's `tight_camera_radius` setting.
    pub tight_camera_radius: FloatBits,
    /// The game's `camera_actual_vel_influence` setting.
    pub camera_actual_vel_influence: FloatBits,
    /// The game's `camera_actual_vel_max` setting.
    pub camera_actual_vel_max: FloatBits,
    /// The game's `camera_vel_influence` setting.
    pub camera_vel_influence: FloatBits,
    /// The game's `camera_vel_max` setting.
    pub camera_vel_max: FloatBits,
    /// The game's `deflect_time_max` setting.
    pub deflect_time_max: FloatBits,
    /// The game's `deflection_delay` setting.
    pub deflection_delay: FloatBits,
    /// The game's `deflect_reset_time` setting.
    pub deflect_reset_time: FloatBits,
    /// The game's `jump_teleport_time` setting.
    pub jump_teleport_time: FloatBits,
    /// The game's `juggle_gravity` setting.
    pub juggle_gravity: FloatBits,
    /// The game's `knockback_fric_ground` setting.
    pub knockback_fric_ground: FloatBits,
    /// The game's `knockback_fric_air` setting.
    pub knockback_fric_air: FloatBits,
    /// The game's `knockdown_fric` setting.
    pub knockdown_fric: FloatBits,
    /// The game's `m_airborn_land_dist_stairs` setting.
    pub m_airborn_land_dist_stairs: FloatBits,
    /// The game's `wall_trap_hit_timer` setting.
    pub wall_trap_hit_timer: FloatBits,
    /// The game's `wall_trap_up_vector` setting.
    pub wall_trap_up_vector: FloatBits,
    /// The game's `wall_trap_vel_multiplier` setting.
    pub wall_trap_vel_multiplier: FloatBits,
    /// The game's `wall_trap_pvp_disable_timer` setting.
    pub wall_trap_pvp_disable_timer: FloatBits,
    /// The game's `block_gravity` setting.
    pub block_gravity: FloatBits,
    /// The game's `dronkey_jump_foward` setting.
    pub dronkey_jump_foward: FloatBits,
    /// The game's `dronkey_jump_up` setting.
    pub dronkey_jump_up: FloatBits,
    /// The game's `dronkey_jump_time` setting.
    pub dronkey_jump_time: FloatBits,
    /// The game's `move_speed_up` setting.
    pub move_speed_up: FloatBits,
    /// The game's `move_speed_up_max` setting.
    pub move_speed_up_max: FloatBits,
    /// The game's `move_speed_down` setting.
    pub move_speed_down: FloatBits,
    /// The game's `move_speed_down_max` setting.
    pub move_speed_down_max: FloatBits,
    /// The game's `def_stun_1` setting.
    pub def_stun_1: FloatBits,
    /// The game's `def_kb_mult_1` setting.
    pub def_kb_mult_1: FloatBits,
    /// The game's `def_speed_mult_1` setting.
    pub def_speed_mult_1: FloatBits,
    /// The game's `def_speed_mult_2` setting.
    pub def_speed_mult_2: FloatBits,
    /// The game's `def_speed_mult_3` setting.
    pub def_speed_mult_3: FloatBits,
    /// The game's `def_speed_mult_4` setting.
    pub def_speed_mult_4: FloatBits,
    /// The game's `def_speed_mult_5` setting.
    pub def_speed_mult_5: FloatBits,
    /// The game's `def_speed_mult_6` setting.
    pub def_speed_mult_6: FloatBits,
    /// The game's `def_pow_mult_1` setting.
    pub def_pow_mult_1: FloatBits,
    /// The game's `def_pow_mult_2` setting.
    pub def_pow_mult_2: FloatBits,
    /// The game's `def_pow_mult_3` setting.
    pub def_pow_mult_3: FloatBits,
    /// The game's `item_drop_knockup` setting.
    pub item_drop_knockup: FloatBits,
    /// The game's `item_drop_knockback` setting.
    pub item_drop_knockback: FloatBits,
    /// The game's `throwable_drop_knockup` setting.
    pub throwable_drop_knockup: FloatBits,
    /// The game's `throwable_drop_knockback` setting.
    pub throwable_drop_knockback: FloatBits,
    /// The game's `walkup_angle_tolerance` setting.
    pub walkup_angle_tolerance: FloatBits,
}

impl PhysicsFighting {
    /// `raw` with the fields of this object written from `offset` on.
    pub open spec fn fields_written(&self, raw: Seq<u8>, c: Console, offset: int) -> Seq<u8> {
        let raw = with_float(raw, c, offset + 0x838, self.m_airborn_land_dist);
        let raw = with_float(raw, c, offset + 0x83C, self.m_airborn_no_catch_bias);
        let raw = with_float(raw, c, offset + 0x840, self.ground_leave_dist_walk);
        let raw = with_float(raw, c, offset + 0x844, self.ground_leave_dist_stairs);
        let raw = with_float(raw, c, offset + 0x84C, self.m_jump_up_vel_influence);
        let raw = with_float(raw, c, offset + 0x850, self.jump_takeoff_max_time);
        let raw = with_float(raw, c, offset + 0x854, self.jump_delay);
        let raw = with_float(raw, c, offset + 0x858, self.off_ledge_vel_stop);
        let raw = with_float(raw, c, offset + 0x85C, self.off_ledge_vel_drop);
        let raw = with_float(raw, c, offset + 0x860, self.off_ledge_vel_roll);
        let raw = with_float(raw, c, offset + 0x894, self.block_time_max);
        let raw = with_float(raw, c, offset + 0x898, self.block_time_recharge);
        let raw = with_float(raw, c, offset + 0x8A0, self.block_power_max);
        let raw = with_float(raw, c, offset + 0x8A4, self.block_power_recharge);
        let raw = with_float(raw, c, offset + 0x8AC, self.jump_peak_vel);
        let raw = with_float(raw, c, offset + 0x8C4, self.jump_takeoff_region_time);
        let raw = with_float(raw, c, offset + 0x8C8, self.jump_power_normal);
        let raw = with_float(raw, c, offset + 0x8CC, self.jump_power_double);
        let raw = with_float(raw, c, offset + 0x8D0, self.jump_teleport_up_dist);
        let raw = with_float(raw, c, offset + 0x8D4, self.jump_teleport_flat_dist);
        let raw = with_float(raw, c, offset + 0x8D8, self.jump_teleport_flat_up_dist);
        let raw = with_float(raw, c, offset + 0x8DC, self.jump_power_ledge);
        let raw = with_float(raw, c, offset + 0x8E0, self.jump_power_wall);
        let raw = with_float(raw, c, offset + 0x8E4, self.jump_power_wall_outward);
        let raw = with_float(raw, c, offset + 0x8E8, self.jump_power_grapple);
        let raw = with_float(raw, c, offset + 0x8EC, self.dump_up_vel);
        let raw = with_float(raw, c, offset + 0x8F0, self.dump_flat_vel);
        let raw = with_float(raw, c, offset + 0x9F4, self.accumulated_vel_air_fric);
        let raw = with_float(raw, c, offset + 0x9F8, self.accumulated_vel_ground_fric);
        let raw = with_float(raw, c, offset + 0x9FC, self.wall_bounce_low);
        let raw = with_float(raw, c, offset + 0xA00, self.wall_bounce_medium);
        let raw = with_float(raw, c, offset + 0xA04, self.wall_bounce_high);
        let raw = with_float(raw, c, offset + 0xA08, self.hit_pause_delay);
        let raw = with_float(raw, c, offset + 0xA0C, self.hit_pause_light);
        let raw = with_float(raw, c, offset + 0xA10, self.hit_pause_medium);
        let raw = with_float(raw, c, offset + 0xA14, self.hit_pause_strong);
        let raw = with_float(raw, c, offset + 0xA2C, self.attack_speed_filter);
        let raw = with_float(raw, c, offset + 0xA38, self.move_speed_filter);
        let raw = with_float(raw, c, offset + 0xA60, self.min_loose_camera_radius);
        let raw = with_float(raw, c, offset + 0xA64, self.max_loose_camera_radius);
        let raw = with_float(raw, c, offset + 0xA6C, self.tight_camera_radius);
        let raw = with_float(raw, c, offset + 0xA70, self.camera_actual_vel_influence);
        let raw = with_float(raw, c, offset + 0xA74, self.camera_actual_vel_max);
        let raw = with_float(raw, c, offset + 0xA78, self.camera_vel_influence);
        let raw = with_float(raw, c, offset + 0xA7C, self.camera_vel_max);
        let raw = with_float(raw, c, offset + 0xA84, self.deflect_time_max);
        let raw = with_float(raw, c, offset + 0xA9C, self.deflection_delay);
        let raw = with_float(raw, c, offset + 0xAC8, self.deflect_reset_time);
        let raw = with_float(raw, c, offset + 0xAE4, self.jump_teleport_time);
        let raw = with_float(raw, c, offset + 0xAE8, self.juggle_gravity);
        let raw = with_float(raw, c, offset + 0xB2C, self.knockback_fric_ground);
        let raw = with_float(raw, c, offset + 0xB34, self.knockback_fric_air);
        let raw = with_float(raw, c, offset + 0xB38, self.knockdown_fric);
        let raw = with_float(raw, c, offset + 0xB3C, self.m_airborn_land_dist_stairs);
        let raw = with_float(raw, c, offset + 0xB4C, self.wall_trap_hit_timer);
        let raw = with_float(raw, c, offset + 0xB50, self.wall_trap_up_vector);
        let raw = with_float(raw, c, offset + 0xB54, self.wall_trap_vel_multiplier);
        let raw = with_float(raw, c, offset + 0xB58, self.wall_trap_pvp_disable_timer);
        let raw = with_float(raw, c, offset + 0xC48, self.block_gravity);
        let raw = with_float(raw, c, offset + 0xC58, self.dronkey_jump_foward);
        let raw = with_float(raw, c, offset + 0xC5C, self.dronkey_jump_up);
        let raw = with_float(raw, c, offset + 0xC60, self.dronkey_jump_time);
        let raw = with_float(raw, c, offset + 0xC80, self.move_speed_up);
        let raw = with_float(raw, c, offset + 0xC84, self.move_speed_up_max);
        let raw = with_float(raw, c, offset + 0xC88, self.move_speed_down);
        let raw = with_float(raw, c, offset + 0xC8C, self.move_speed_down_max);
        let raw = with_float(raw, c, offset + 0xCDC, self.def_stun_1);
        let raw = with_float(raw, c, offset + 0xCE0, self.def_kb_mult_1);
        let raw = with_float(raw, c, offset + 0xCE4, self.def_speed_mult_1);
        let raw = with_float(raw, c, offset + 0xCE8, self.def_speed_mult_2);
        let raw = with_float(raw, c, offset + 0xCEC, self.def_speed_mult_3);
        let raw = with_float(raw, c, offset + 0xCF0, self.def_speed_mult_4);
        let raw = with_float(raw, c, offset + 0xCF4, self.def_speed_mult_5);
        let raw = with_float(raw, c, offset + 0xCF8, self.def_speed_mult_6);
        let raw = with_float(raw, c, offset + 0xCFC, self.def_pow_mult_1);
        let raw = with_float(raw, c, offset + 0xD00, self.def_pow_mult_2);
        let raw = with_float(raw, c, offset + 0xD04, self.def_pow_mult_3);
        let raw = with_float(raw, c, offset + 0xD08, self.item_drop_knockup);
        let raw = with_float(raw, c, offset + 0xD0C, self.item_drop_knockback);
        let raw = with_float(raw, c, offset + 0xD14, self.throwable_drop_knockup);
        let raw = with_float(raw, c, offset + 0xD18, self.throwable_drop_knockback);
        let raw = with_float(raw, c, offset + 0xD1C, self.walkup_angle_tolerance);
        raw
    }

    /// Writes the fields of this object from `offset` on.
    fn write_fields(&self, raw: &mut Vec<u8>, c: Console, offset: usize)
        requires
            offset + 0xD50 <= old(raw)@.len(),
        ensures
            final(raw)@ == self.fields_written(old(raw)@, c, offset as int),
            final(raw)@.len() == old(raw)@.len(),
    {
        assert(raw.len() == raw@.len());
        put_float(raw, c, offset + 0x838, self.m_airborn_land_dist);
        put_float(raw, c, offset + 0x83C, self.m_airborn_no_catch_bias);
        put_float(raw, c, offset + 0x840, self.ground_leave_dist_walk);
        put_float(raw, c, offset + 0x844, self.ground_leave_dist_stairs);
        put_float(raw, c, offset + 0x84C, self.m_jump_up_vel_influence);
        put_float(raw, c, offset + 0x850, self.jump_takeoff_max_time);
        put_float(raw, c, offset + 0x854, self.jump_delay);
        put_float(raw, c, offset + 0x858, self.off_ledge_vel_stop);
        put_float(raw, c, offset + 0x85C, self.off_ledge_vel_drop);
        put_float(raw, c, offset + 0x860, self.off_ledge_vel_roll);
        put_float(raw, c, offset + 0x894, self.block_time_max);
        put_float(raw, c, offset + 0x898, self.block_time_recharge);
        put_float(raw, c, offset + 0x8A0, self.block_power_max);
        put_float(raw, c, offset + 0x8A4, self.block_power_recharge);
        put_float(raw, c, offset + 0x8AC, self.jump_peak_vel);
        put_float(raw, c, offset + 0x8C4, self.jump_takeoff_region_time);
        put_float(raw, c, offset + 0x8C8, self.jump_power_normal);
        put_float(raw, c, offset + 0x8CC, self.jump_power_double);
        put_float(raw, c, offset + 0x8D0, self.jump_teleport_up_dist);
        put_float(raw, c, offset + 0x8D4, self.jump_teleport_flat_dist);
        put_float(raw, c, offset + 0x8D8, self.jump_teleport_flat_up_dist);
        put_float(raw, c, offset + 0x8DC, self.jump_power_ledge);
        put_float(raw, c, offset + 0x8E0, self.jump_power_wall);
        put_float(raw, c, offset + 0x8E4, self.jump_power_wall_outward);
        put_float(raw, c, offset + 0x8E8, self.jump_power_grapple);
        put_float(raw, c, offset + 0x8EC, self.dump_up_vel);
        put_float(raw, c, offset + 0x8F0, self.dump_flat_vel);
        put_float(raw, c, offset + 0x9F4, self.accumulated_vel_air_fric);
        put_float(raw, c, offset + 0x9F8, self.accumulated_vel_ground_fric);
        put_float(raw, c, offset + 0x9FC, self.wall_bounce_low);
        put_float(raw, c, offset + 0xA00, self.wall_bounce_medium);
        put_float(raw, c, offset + 0xA04, self.wall_bounce_high);
        put_float(raw, c, offset + 0xA08, self.hit_pause_delay);
        put_float(raw, c, offset + 0xA0C, self.hit_pause_light);
        put_float(raw, c, offset + 0xA10, self.hit_pause_medium);
        put_float(raw, c, offset + 0xA14, self.hit_pause_strong);
        put_float(raw, c, offset + 0xA2C, self.attack_speed_filter);
        put_float(raw, c, offset + 0xA38, self.move_speed_filter);
        put_float(raw, c, offset + 0xA60, self.min_loose_camera_radius);
        put_float(raw, c, offset + 0xA64, self.max_loose_camera_radius);
        put_float(raw, c, offset + 0xA6C, self.tight_camera_radius);
        put_float(raw, c, offset + 0xA70, self.camera_actual_vel_influence);
        put_float(raw, c, offset + 0xA74, self.camera_actual_vel_max);
        put_float(raw, c, offset + 0xA78, self.camera_vel_influence);
        put_float(raw, c, offset + 0xA7C, self.camera_vel_max);
        put_float(raw, c, offset + 0xA84, self.deflect_time_max);
        put_float(raw, c, offset + 0xA9C, self.deflection_delay);
        put_float(raw, c, offset + 0xAC8, self.deflect_reset_time);
        put_float(raw, c, offset + 0xAE4, self.jump_teleport_time);
        put_float(raw, c, offset + 0xAE8, self.juggle_gravity);
        put_float(raw, c, offset + 0xB2C, self.knockback_fric_ground);
        put_float(raw, c, offset + 0xB34, self.knockback_fric_air);
        put_float(raw, c, offset + 0xB38, self.knockdown_fric);
        put_float(raw, c, offset + 0xB3C, self.m_airborn_land_dist_stairs);
        put_float(raw, c, offset + 0xB4C, self.wall_trap_hit_timer);
        put_float(raw, c, offset + 0xB50, self.wall_trap_up_vector);
        put_float(raw, c, offset + 0xB54, self.wall_trap_vel_multiplier);
        put_float(raw, c, offset + 0xB58, self.wall_trap_pvp_disable_timer);
        put_float(raw, c, offset + 0xC48, self.block_gravity);
        put_float(raw, c, offset + 0xC58, self.dronkey_jump_foward);
        put_float(raw, c, offset + 0xC5C, self.dronkey_jump_up);
        put_float(raw, c, offset + 0xC60, self.dronkey_jump_time);
        put_float(raw, c, offset + 0xC80, self.move_speed_up);
        put_float(raw, c, offset + 0xC84, self.move_speed_up_max);
        put_float(raw, c, offset + 0xC88, self.move_speed_down);
        put_float(raw, c, offset + 0xC8C, self.move_speed_down_max);
        put_float(raw, c, offset + 0xCDC, self.def_stun_1);
        put_float(raw, c, offset + 0xCE0, self.def_kb_mult_1);
        put_float(raw, c, offset + 0xCE4, self.def_speed_mult_1);
        put_float(raw, c, offset + 0xCE8, self.def_speed_mult_2);
        put_float(raw, c, offset + 0xCEC, self.def_speed_mult_3);
        put_float(raw, c, offset + 0xCF0, self.def_speed_mult_4);
        put_float(raw, c, offset + 0xCF4, self.def_speed_mult_5);
        put_float(raw, c, offset + 0xCF8, self.def_speed_mult_6);
        put_float(raw, c, offset + 0xCFC, self.def_pow_mult_1);
        put_float(raw, c, offset + 0xD00, self.def_pow_mult_2);
        put_float(raw, c, offset + 0xD04, self.def_pow_mult_3);
        put_float(raw, c, offset + 0xD08, self.item_drop_knockup);
        put_float(raw, c, offset + 0xD0C, self.item_drop_knockback);
        put_float(raw, c, offset + 0xD14, self.throwable_drop_knockup);
        put_float(raw, c, offset + 0xD18, self.throwable_drop_knockback);
        put_float(raw, c, offset + 0xD1C, self.walkup_angle_tolerance);
    }
}

impl SerialisedShrekSuperSlamGameObject for PhysicsFighting {
    open spec fn class_hash() -> u32 {
        0xADDDF1EC
    }

    open spec fn class_name() -> Seq<char> {
        "Game::PhysicsFighting"@
    }

    open spec fn class_size() -> nat {
        0xD50
    }

    open spec fn read_error(raw: Seq<u8>, c: Console, offset: int) -> Option<Error> {
        if offset + 0xD50 > raw.len() {
            Some(not_enough(0xD50, raw.len() as int, offset))
        } else {
            None
        }
    }

    open spec fn is_read_of(&self, raw: Seq<u8>, c: Console, offset: int) -> bool {
        &&& self.m_airborn_land_dist == float_at(raw, c, offset + 0x838)
        &&& self.m_airborn_no_catch_bias == float_at(raw, c, offset + 0x83C)
        &&& self.ground_leave_dist_walk == float_at(raw, c, offset + 0x840)
        &&& self.ground_leave_dist_stairs == float_at(raw, c, offset + 0x844)
        &&& self.m_jump_up_vel_influence == float_at(raw, c, offset + 0x84C)
        &&& self.jump_takeoff_max_time == float_at(raw, c, offset + 0x850)
        &&& self.jump_delay == float_at(raw, c, offset + 0x854)
        &&& self.off_ledge_vel_stop == float_at(raw, c, offset + 0x858)
        &&& self.off_ledge_vel_drop == float_at(raw, c, offset + 0x85C)
        &&& self.off_ledge_vel_roll == float_at(raw, c, offset + 0x860)
        &&& self.block_time_max == float_at(raw, c, offset + 0x894)
        &&& self.block_time_recharge == float_at(raw, c, offset + 0x898)
        &&& self.block_power_max == float_at(raw, c, offset + 0x8A0)
        &&& self.block_power_recharge == float_at(raw, c, offset + 0x8A4)
        &&& self.jump_peak_vel == float_at(raw, c, offset + 0x8AC)
        &&& self.jump_takeoff_region_time == float_at(raw, c, offset + 0x8C4)
        &&& self.jump_power_normal == float_at(raw, c, offset + 0x8C8)
        &&& self.jump_power_double == float_at(raw, c, offset + 0x8CC)
        &&& self.jump_teleport_up_dist == float_at(raw, c, offset + 0x8D0)
        &&& self.jump_teleport_flat_dist == float_at(raw, c, offset + 0x8D4)
        &&& self.jump_teleport_flat_up_dist == float_at(raw, c, offset + 0x8D8)
        &&& self.jump_power_ledge == float_at(raw, c, offset + 0x8DC)
        &&& self.jump_power_wall == float_at(raw, c, offset + 0x8E0)
        &&& self.jump_power_wall_outward == float_at(raw, c, offset + 0x8E4)
        &&& self.jump_power_grapple == float_at(raw, c, offset + 0x8E8)
        &&& self.dump_up_vel == float_at(raw, c, offset + 0x8EC)
        &&& self.dump_flat_vel == float_at(raw, c, offset + 0x8F0)
        &&& self.accumulated_vel_air_fric == float_at(raw, c, offset + 0x9F4)
        &&& self.accumulated_vel_ground_fric == float_at(raw, c, offset + 0x9F8)
        &&& self.wall_bounce_low == float_at(raw, c, offset + 0x9FC)
        &&& self.wall_bounce_medium == float_at(raw, c, offset + 0xA00)
        &&& self.wall_bounce_high == float_at(raw, c, offset + 0xA04)
        &&& self.hit_pause_delay == float_at(raw, c, offset + 0xA08)
        &&& self.hit_pause_light == float_at(raw, c, offset + 0xA0C)
        &&& self.hit_pause_medium == float_at(raw, c, offset + 0xA10)
        &&& self.hit_pause_strong == float_at(raw, c, offset + 0xA14)
        &&& self.attack_speed_filter == float_at(raw, c, offset + 0xA2C)
        &&& self.move_speed_filter == float_at(raw, c, offset + 0xA38)
        &&& self.min_loose_camera_radius == float_at(raw, c, offset + 0xA60)
        &&& self.max_loose_camera_radius == float_at(raw, c, offset + 0xA64)
        &&& self.tight_camera_radius == float_at(raw, c, offset + 0xA6C)
        &&& self.camera_actual_vel_influence == float_at(raw, c, offset + 0xA70)
        &&& self.camera_actual_vel_max == float_at(raw, c, offset + 0xA74)
        &&& self.camera_vel_influence == float_at(raw, c, offset + 0xA78)
        &&& self.camera_vel_max == float_at(raw, c, offset + 0xA7C)
        &&& self.deflect_time_max == float_at(raw, c, offset + 0xA84)
        &&& self.deflection_delay == float_at(raw, c, offset + 0xA9C)
        &&& self.deflect_reset_time == float_at(raw, c, offset + 0xAC8)
        &&& self.jump_teleport_time == float_at(raw, c, offset + 0xAE4)
        &&& self.juggle_gravity == float_at(raw, c, offset + 0xAE8)
        &&& self.knockback_fric_ground == float_at(raw, c, offset + 0xB2C)
        &&& self.knockback_fric_air == float_at(raw, c, offset + 0xB34)
        &&& self.knockdown_fric == float_at(raw, c, offset + 0xB38)
        &&& self.m_airborn_land_dist_stairs == float_at(raw, c, offset + 0xB3C)
        &&& self.wall_trap_hit_timer == float_at(raw, c, offset + 0xB4C)
        &&& self.wall_trap_up_vector == float_at(raw, c, offset + 0xB50)
        &&& self.wall_trap_vel_multiplier == float_at(raw, c, offset + 0xB54)
        &&& self.wall_trap_pvp_disable_timer == float_at(raw, c, offset + 0xB58)
        &&& self.block_gravity == float_at(raw, c, offset + 0xC48)
        &&& self.dronkey_jump_foward == float_at(raw, c, offset + 0xC58)
        &&& self.dronkey_jump_up == float_at(raw, c, offset + 0xC5C)
        &&& self.dronkey_jump_time == float_at(raw, c, offset + 0xC60)
        &&& self.move_speed_up == float_at(raw, c, offset + 0xC80)
        &&& self.move_speed_up_max == float_at(raw, c, offset + 0xC84)
        &&& self.move_speed_down == float_at(raw, c, offset + 0xC88)
        &&& self.move_speed_down_max == float_at(raw, c, offset + 0xC8C)
        &&& self.def_stun_1 == float_at(raw, c, offset + 0xCDC)
        &&& self.def_kb_mult_1 == float_at(raw, c, offset + 0xCE0)
        &&& self.def_speed_mult_1 == float_at(raw, c, offset + 0xCE4)
        &&& self.def_speed_mult_2 == float_at(raw, c, offset + 0xCE8)
        &&& self.def_speed_mult_3 == float_at(raw, c, offset + 0xCEC)
        &&& self.def_speed_mult_4 == float_at(raw, c, offset + 0xCF0)
        &&& self.def_speed_mult_5 == float_at(raw, c, offset + 0xCF4)
        &&& self.def_speed_mult_6 == float_at(raw, c, offset + 0xCF8)
        &&& self.def_pow_mult_1 == float_at(raw, c, offset + 0xCFC)
        &&& self.def_pow_mult_2 == float_at(raw, c, offset + 0xD00)
        &&& self.def_pow_mult_3 == float_at(raw, c, offset + 0xD04)
        &&& self.item_drop_knockup == float_at(raw, c, offset + 0xD08)
        &&& self.item_drop_knockback == float_at(raw, c, offset + 0xD0C)
        &&& self.throwable_drop_knockup == float_at(raw, c, offset + 0xD14)
        &&& self.throwable_drop_knockback == float_at(raw, c, offset + 0xD18)
        &&& self.walkup_angle_tolerance == float_at(raw, c, offset + 0xD1C)
    }

    /// Returns the hashcode for the `Game::PhysicsFighting` in-game object.
    fn hash() -> (h: u32) {
        0xADDDF1EC
    }

    /// Returns the name of the in-game class.
    fn name() -> (n: &'static str) {
        "Game::PhysicsFighting"
    }

    /// Returns the size of a serialised `Game::PhysicsFighting` object.
    fn size() -> (s: usize) {
        0xD50
    }

    /// Return a new `PhysicsFighting` using data located at the given `offset` in
    /// the given `bin` file structure.
    ///
    /// Prefer calling [`Bin::get_object_from_offset`] rather than calling
    /// this method.
    fn new(bin: &Bin, offset: usize) -> (r: Result<PhysicsFighting, Error>) {
        let len: usize = bin.raw.len();
        if len < 0xD50 || offset > len - 0xD50 {
            return Err(too_few_bytes(0xD50, len as u64, offset as u64));
        }
        let raw = bin.raw.as_slice();
        let c = bin.console;
        let m_airborn_land_dist = get_float(raw, c, offset + 0x838);
        let m_airborn_no_catch_bias = get_float(raw, c, offset + 0x83C);
        let ground_leave_dist_walk = get_float(raw, c, offset + 0x840);
        let ground_leave_dist_stairs = get_float(raw, c, offset + 0x844);
        let m_jump_up_vel_influence = get_float(raw, c, offset + 0x84C);
        let jump_takeoff_max_time = get_float(raw, c, offset + 0x850);
        let jump_delay = get_float(raw, c, offset + 0x854);
        let off_ledge_vel_stop = get_float(raw, c, offset + 0x858);
        let off_ledge_vel_drop = get_float(raw, c, offset + 0x85C);
        let off_ledge_vel_roll = get_float(raw, c, offset + 0x860);
        let block_time_max = get_float(raw, c, offset + 0x894);
        let block_time_recharge = get_float(raw, c, offset + 0x898);
        let block_power_max = get_float(raw, c, offset + 0x8A0);
        let block_power_recharge = get_float(raw, c, offset + 0x8A4);
        let jump_peak_vel = get_float(raw, c, offset + 0x8AC);
        let jump_takeoff_region_time = get_float(raw, c, offset + 0x8C4);
        let jump_power_normal = get_float(raw, c, offset + 0x8C8);
        let jump_power_double = get_float(raw, c, offset + 0x8CC);
        let jump_teleport_up_dist = get_float(raw, c, offset + 0x8D0);
        let jump_teleport_flat_dist = get_float(raw, c, offset + 0x8D4);
        let jump_teleport_flat_up_dist = get_float(raw, c, offset + 0x8D8);
        let jump_power_ledge = get_float(raw, c, offset + 0x8DC);
        let jump_power_wall = get_float(raw, c, offset + 0x8E0);
        let jump_power_wall_outward = get_float(raw, c, offset + 0x8E4);
        let jump_power_grapple = get_float(raw, c, offset + 0x8E8);
        let dump_up_vel = get_float(raw, c, offset + 0x8EC);
        let dump_flat_vel = get_float(raw, c, offset + 0x8F0);
        let accumulated_vel_air_fric = get_float(raw, c, offset + 0x9F4);
        let accumulated_vel_ground_fric = get_float(raw, c, offset + 0x9F8);
        let wall_bounce_low = get_float(raw, c, offset + 0x9FC);
        let wall_bounce_medium = get_float(raw, c, offset + 0xA00);
        let wall_bounce_high = get_float(raw, c, offset + 0xA04);
        let hit_pause_delay = get_float(raw, c, offset + 0xA08);
        let hit_pause_light = get_float(raw, c, offset + 0xA0C);
        let hit_pause_medium = get_float(raw, c, offset + 0xA10);
        let hit_pause_strong = get_float(raw, c, offset + 0xA14);
        let attack_speed_filter = get_float(raw, c, offset + 0xA2C);
        let move_speed_filter = get_float(raw, c, offset + 0xA38);
        let min_loose_camera_radius = get_float(raw, c, offset + 0xA60);
        let max_loose_camera_radius = get_float(raw, c, offset + 0xA64);
        let tight_camera_radius = get_float(raw, c, offset + 0xA6C);
        let camera_actual_vel_influence = get_float(raw, c, offset + 0xA70);
        let camera_actual_vel_max = get_float(raw, c, offset + 0xA74);
        let camera_vel_influence = get_float(raw, c, offset + 0xA78);
        let camera_vel_max = get_float(raw, c, offset + 0xA7C);
        let deflect_time_max = get_float(raw, c, offset + 0xA84);
        let deflection_delay = get_float(raw, c, offset + 0xA9C);
        let deflect_reset_time = get_float(raw, c, offset + 0xAC8);
        let jump_teleport_time = get_float(raw, c, offset + 0xAE4);
        let juggle_gravity = get_float(raw, c, offset + 0xAE8);
        let knockback_fric_ground = get_float(raw, c, offset + 0xB2C);
        let knockback_fric_air = get_float(raw, c, offset + 0xB34);
        let knockdown_fric = get_float(raw, c, offset + 0xB38);
        let m_airborn_land_dist_stairs = get_float(raw, c, offset + 0xB3C);
        let wall_trap_hit_timer = get_float(raw, c, offset + 0xB4C);
        let wall_trap_up_vector = get_float(raw, c, offset + 0xB50);
        let wall_trap_vel_multiplier = get_float(raw, c, offset + 0xB54);
        let wall_trap_pvp_disable_timer = get_float(raw, c, offset + 0xB58);
        let block_gravity = get_float(raw, c, offset + 0xC48);
        let dronkey_jump_foward = get_float(raw, c, offset + 0xC58);
        let dronkey_jump_up = get_float(raw, c, offset + 0xC5C);
        let dronkey_jump_time = get_float(raw, c, offset + 0xC60);
        let move_speed_up = get_float(raw, c, offset + 0xC80);
        let move_speed_up_max = get_float(raw, c, offset + 0xC84);
        let move_speed_down = get_float(raw, c, offset + 0xC88);
        let move_speed_down_max = get_float(raw, c, offset + 0xC8C);
        let def_stun_1 = get_float(raw, c, offset + 0xCDC);
        let def_kb_mult_1 = get_float(raw, c, offset + 0xCE0);
        let def_speed_mult_1 = get_float(raw, c, offset + 0xCE4);
        let def_speed_mult_2 = get_float(raw, c, offset + 0xCE8);
        let def_speed_mult_3 = get_float(raw, c, offset + 0xCEC);
        let def_speed_mult_4 = get_float(raw, c, offset + 0xCF0);
        let def_speed_mult_5 = get_float(raw, c, offset + 0xCF4);
        let def_speed_mult_6 = get_float(raw, c, offset + 0xCF8);
        let def_pow_mult_1 = get_float(raw, c, offset + 0xCFC);
        let def_pow_mult_2 = get_float(raw, c, offset + 0xD00);
        let def_pow_mult_3 = get_float(raw, c, offset + 0xD04);
        let item_drop_knockup = get_float(raw, c, offset + 0xD08);
        let item_drop_knockback = get_float(raw, c, offset + 0xD0C);
        let throwable_drop_knockup = get_float(raw, c, offset + 0xD14);
        let throwable_drop_knockback = get_float(raw, c, offset + 0xD18);
        let walkup_angle_tolerance = get_float(raw, c, offset + 0xD1C);
        Ok(
            PhysicsFighting {
                m_airborn_land_dist,
                m_airborn_no_catch_bias,
                ground_leave_dist_walk,
                ground_leave_dist_stairs,
                m_jump_up_vel_influence,
                jump_takeoff_max_time,
                jump_delay,
                off_ledge_vel_stop,
                off_ledge_vel_drop,
                off_ledge_vel_roll,
                block_time_max,
                block_time_recharge,
                block_power_max,
                block_power_recharge,
                jump_peak_vel,
                jump_takeoff_region_time,
                jump_power_normal,
                jump_power_double,
                jump_teleport_up_dist,
                jump_teleport_flat_dist,
                jump_teleport_flat_up_dist,
                jump_power_ledge,
                jump_power_wall,
                jump_power_wall_outward,
                jump_power_grapple,
                dump_up_vel,
                dump_flat_vel,
                accumulated_vel_air_fric,
                accumulated_vel_ground_fric,
                wall_bounce_low,
                wall_bounce_medium,
                wall_bounce_high,
                hit_pause_delay,
                hit_pause_light,
                hit_pause_medium,
                hit_pause_strong,
                attack_speed_filter,
                move_speed_filter,
                min_loose_camera_radius,
                max_loose_camera_radius,
                tight_camera_radius,
                camera_actual_vel_influence,
                camera_actual_vel_max,
                camera_vel_influence,
                camera_vel_max,
                deflect_time_max,
                deflection_delay,
                deflect_reset_time,
                jump_teleport_time,
                juggle_gravity,
                knockback_fric_ground,
                knockback_fric_air,
                knockdown_fric,
                m_airborn_land_dist_stairs,
                wall_trap_hit_timer,
                wall_trap_up_vector,
                wall_trap_vel_multiplier,
                wall_trap_pvp_disable_timer,
                block_gravity,
                dronkey_jump_foward,
                dronkey_jump_up,
                dronkey_jump_time,
                move_speed_up,
                move_speed_up_max,
                move_speed_down,
                move_speed_down_max,
                def_stun_1,
                def_kb_mult_1,
                def_speed_mult_1,
                def_speed_mult_2,
                def_speed_mult_3,
                def_speed_mult_4,
                def_speed_mult_5,
                def_speed_mult_6,
                def_pow_mult_1,
                def_pow_mult_2,
                def_pow_mult_3,
                item_drop_knockup,
                item_drop_knockback,
                throwable_drop_knockup,
                throwable_drop_knockback,
                walkup_angle_tolerance,
            },
        )
    }

    proof fn lemma_registered() {
    }
}

impl WriteableShrekSuperSlamGameObject for PhysicsFighting {
    open spec fn written(&self, raw: Seq<u8>, c: Console, offset: int) -> (Seq<u8>, Option<Error>) {
        if offset + 0xD50 > raw.len() {
            (raw, Some(not_enough(0xD50, raw.len() as int, offset)))
        } else {
            (self.fields_written(raw, c, offset), None)
        }
    }

    open spec fn canonical(raw: Seq<u8>, c: Console, offset: int) -> bool {
        true
    }

    /// Writes the object back to its `bin` file at the given `offset`.
    ///
    /// Only the numbers of the object are written: anything else would
    /// change the size of the file and invalidate all offsets.
    fn write(&self, bin: &mut Bin, offset: usize) -> (r: Result<(), Error>) {
        let len: usize = bin.raw.len();
        if len < 0xD50 || offset > len - 0xD50 {
            return Err(too_few_bytes(0xD50, len as u64, offset as u64));
        }
        self.write_fields(&mut bin.raw, bin.console, offset);
        Ok(())
    }

    proof fn lemma_write_read(&self, raw: Seq<u8>, c: Console, offset: int) {
        lemma_with_word_same(raw, c, offset + 0x838);
        lemma_with_word_same(raw, c, offset + 0x83C);
        lemma_with_word_same(raw, c, offset + 0x840);
        lemma_with_word_same(raw, c, offset + 0x844);
        lemma_with_word_same(raw, c, offset + 0x84C);
        lemma_with_word_same(raw, c, offset + 0x850);
        lemma_with_word_same(raw, c, offset + 0x854);
        lemma_with_word_same(raw, c, offset + 0x858);
        lemma_with_word_same(raw, c, offset + 0x85C);
        lemma_with_word_same(raw, c, offset + 0x860);
        lemma_with_word_same(raw, c, offset + 0x894);
        lemma_with_word_same(raw, c, offset + 0x898);
        lemma_with_word_same(raw, c, offset + 0x8A0);
        lemma_with_word_same(raw, c, offset + 0x8A4);
        lemma_with_word_same(raw, c, offset + 0x8AC);
        lemma_with_word_same(raw, c, offset + 0x8C4);
        lemma_with_word_same(raw, c, offset + 0x8C8);
        lemma_with_word_same(raw, c, offset + 0x8CC);
        lemma_with_word_same(raw, c, offset + 0x8D0);
        lemma_with_word_same(raw, c, offset + 0x8D4);
        lemma_with_word_same(raw, c, offset + 0x8D8);
        lemma_with_word_same(raw, c, offset + 0x8DC);
        lemma_with_word_same(raw, c, offset + 0x8E0);
        lemma_with_word_same(raw, c, offset + 0x8E4);
        lemma_with_word_same(raw, c, offset + 0x8E8);
        lemma_with_word_same(raw, c, offset + 0x8EC);
        lemma_with_word_same(raw, c, offset + 0x8F0);
        lemma_with_word_same(raw, c, offset + 0x9F4);
        lemma_with_word_same(raw, c, offset + 0x9F8);
        lemma_with_word_same(raw, c, offset + 0x9FC);
        lemma_with_word_same(raw, c, offset + 0xA00);
        lemma_with_word_same(raw, c, offset + 0xA04);
        lemma_with_word_same(raw, c, offset + 0xA08);
        lemma_with_word_same(raw, c, offset + 0xA0C);
        lemma_with_word_same(raw, c, offset + 0xA10);
        lemma_with_word_same(raw, c, offset + 0xA14);
        lemma_with_word_same(raw, c, offset + 0xA2C);
        lemma_with_word_same(raw, c, offset + 0xA38);
        lemma_with_word_same(raw, c, offset + 0xA60);
        lemma_with_word_same(raw, c, offset + 0xA64);
        lemma_with_word_same(raw, c, offset + 0xA6C);
        lemma_with_word_same(raw, c, offset + 0xA70);
        lemma_with_word_same(raw, c, offset + 0xA74);
        lemma_with_word_same(raw, c, offset + 0xA78);
        lemma_with_word_same(raw, c, offset + 0xA7C);
        lemma_with_word_same(raw, c, offset + 0xA84);
        lemma_with_word_same(raw, c, offset + 0xA9C);
        lemma_with_word_same(raw, c, offset + 0xAC8);
        lemma_with_word_same(raw, c, offset + 0xAE4);
        lemma_with_word_same(raw, c, offset + 0xAE8);
        lemma_with_word_same(raw, c, offset + 0xB2C);
        lemma_with_word_same(raw, c, offset + 0xB34);
        lemma_with_word_same(raw, c, offset + 0xB38);
        lemma_with_word_same(raw, c, offset + 0xB3C);
        lemma_with_word_same(raw, c, offset + 0xB4C);
        lemma_with_word_same(raw, c, offset + 0xB50);
        lemma_with_word_same(raw, c, offset + 0xB54);
        lemma_with_word_same(raw, c, offset + 0xB58);
        lemma_with_word_same(raw, c, offset + 0xC48);
        lemma_with_word_same(raw, c, offset + 0xC58);
        lemma_with_word_same(raw, c, offset + 0xC5C);
        lemma_with_word_same(raw, c, offset + 0xC60);
        lemma_with_word_same(raw, c, offset + 0xC80);
        lemma_with_word_same(raw, c, offset + 0xC84);
        lemma_with_word_same(raw, c, offset + 0xC88);
        lemma_with_word_same(raw, c, offset + 0xC8C);
        lemma_with_word_same(raw, c, offset + 0xCDC);
        lemma_with_word_same(raw, c, offset + 0xCE0);
        lemma_with_word_same(raw, c, offset + 0xCE4);
        lemma_with_word_same(raw, c, offset + 0xCE8);
        lemma_with_word_same(raw, c, offset + 0xCEC);
        lemma_with_word_same(raw, c, offset + 0xCF0);
        lemma_with_word_same(raw, c, offset + 0xCF4);
        lemma_with_word_same(raw, c, offset + 0xCF8);
        lemma_with_word_same(raw, c, offset + 0xCFC);
        lemma_with_word_same(raw, c, offset + 0xD00);
        lemma_with_word_same(raw, c, offset + 0xD04);
        lemma_with_word_same(raw, c, offset + 0xD08);
        lemma_with_word_same(raw, c, offset + 0xD0C);
        lemma_with_word_same(raw, c, offset + 0xD14);
        lemma_with_word_same(raw, c, offset + 0xD18);
        lemma_with_word_same(raw, c, offset + 0xD1C);
    }
}

} // verus!
