//! The immutable per-character tunables.

use vstd::prelude::*;
use crate::math::{CFG_LIMIT, FP};

verus! {

/// The box probed with the hands while grabbing a ledge (half extents).
#[derive(Clone, Copy, PartialEq, Eq, Structural, Debug)]
pub struct LedgeSpace {
    pub half_x: i64,
    pub half_y: i64,
    pub half_z: i64,
}

impl LedgeSpace {
    pub open spec fn wf(self) -> bool {
        &&& 0 <= self.half_x <= CFG_LIMIT
        &&& 0 <= self.half_y <= CFG_LIMIT
        &&& 0 <= self.half_z <= CFG_LIMIT
    }

    /// The full vertical extent of the box.
    pub open spec fn size_y(self) -> int {
        2 * self.half_y
    }
}

/// Immutable movement tunables, owned by the character. Lengths and speeds
/// are in thousandths of a unit, cosines are scaled by 1000, buffers and
/// grace windows are in milliseconds.
#[derive(Clone, Copy, PartialEq, Eq, Structural, Debug)]
pub struct CharacterController {
    pub crouch_height: i64,
    pub standing_view_height: i64,
    pub crouch_view_height: i64,
    pub ground_distance: i64,
    pub step_down_detection_distance: i64,
    pub min_walk_cos: i64,
    pub stop_speed: i64,
    pub friction_hz: i64,
    pub acceleration_hz: i64,
    pub air_acceleration_hz: i64,
    pub water_acceleration_hz: i64,
    pub water_slowdown: i64,
    pub gravity: i64,
    pub water_gravity: i64,
    pub step_size: i64,
    pub crane_height: i64,
    pub crouch_speed_scale: i64,
    pub speed: i64,
    pub air_speed: i64,
    pub skin_width: i64,
    pub max_speed: i64,
    pub jump_height: i64,
    pub tac_power: i64,
    pub tac_jump_factor: i64,
    pub tac_input_buffer: i64,
    pub max_tac_cos: i64,
    pub max_air_wish_speed: i64,
    pub tac_cooldown: i64,
    pub unground_speed: i64,
    pub coyote_time: i64,
    pub jump_input_buffer: i64,
    pub jump_crane_chain_time: i64,
    pub crane_input_buffer: i64,
    pub mantle_input_buffer: i64,
    pub min_step_ledge_space: i64,
    pub min_crane_ledge_space: i64,
    pub min_mantle_ledge_space: i64,
    pub mantle_height: i64,
    pub min_crane_cos: i64,
    pub min_mantle_cos: i64,
    pub crane_speed: i64,
    pub mantle_speed: i64,
    pub min_ledge_grab_space: LedgeSpace,
    pub climb_pull_up_height: i64,
    pub max_ledge_grab_distance: i64,
}

impl CharacterController {
    pub open spec fn wf(self) -> bool {
        &&& 0 <= self.crouch_height <= CFG_LIMIT
        &&& 0 <= self.standing_view_height <= CFG_LIMIT
        &&& 0 <= self.crouch_view_height <= CFG_LIMIT
        &&& 0 <= self.ground_distance <= CFG_LIMIT
        &&& 0 <= self.step_down_detection_distance <= CFG_LIMIT
        &&& 0 <= self.min_walk_cos <= FP
        &&& 0 <= self.stop_speed <= CFG_LIMIT
        &&& 0 <= self.friction_hz <= CFG_LIMIT
        &&& 0 <= self.acceleration_hz <= CFG_LIMIT
        &&& 0 <= self.air_acceleration_hz <= CFG_LIMIT
        &&& 0 <= self.water_acceleration_hz <= CFG_LIMIT
        &&& 0 <= self.water_slowdown <= FP
        &&& 0 <= self.gravity <= CFG_LIMIT
        &&& 0 <= self.water_gravity <= CFG_LIMIT
        &&& 0 <= self.step_size <= CFG_LIMIT
        &&& 0 <= self.crane_height <= CFG_LIMIT
        &&& 0 <= self.crouch_speed_scale <= FP
        &&& 0 <= self.speed <= self.max_speed
        &&& 0 <= self.air_speed <= CFG_LIMIT
        &&& 0 <= self.skin_width <= CFG_LIMIT
        &&& 1 <= self.max_speed <= CFG_LIMIT
        &&& 0 <= self.jump_height <= CFG_LIMIT
        &&& 2 * self.jump_height * self.gravity <= 4_000_000_000
        &&& 0 <= self.tac_power <= CFG_LIMIT
        &&& 0 <= self.tac_jump_factor <= CFG_LIMIT
        &&& 0 <= self.tac_input_buffer <= CFG_LIMIT
        &&& 0 <= self.max_tac_cos <= FP
        &&& 0 <= self.max_air_wish_speed <= CFG_LIMIT
        &&& 0 <= self.tac_cooldown <= CFG_LIMIT
        &&& 0 <= self.unground_speed <= CFG_LIMIT
        &&& 0 <= self.coyote_time <= CFG_LIMIT
        &&& 0 <= self.jump_input_buffer <= CFG_LIMIT
        &&& 0 <= self.jump_crane_chain_time <= CFG_LIMIT
        &&& 0 <= self.crane_input_buffer <= CFG_LIMIT
        &&& 0 <= self.mantle_input_buffer <= CFG_LIMIT
        &&& 0 <= self.min_step_ledge_space <= CFG_LIMIT
        &&& 0 <= self.min_crane_ledge_space <= CFG_LIMIT
        &&& 0 <= self.min_mantle_ledge_space <= CFG_LIMIT
        &&& 0 <= self.mantle_height <= CFG_LIMIT
        &&& 0 <= self.min_crane_cos <= FP
        &&& 0 <= self.min_mantle_cos <= FP
        &&& 0 <= self.crane_speed <= CFG_LIMIT
        &&& 0 <= self.mantle_speed <= CFG_LIMIT
        &&& self.min_ledge_grab_space.wf()
        &&& 0 <= self.climb_pull_up_height <= CFG_LIMIT
        &&& 0 <= self.max_ledge_grab_distance <= CFG_LIMIT
    }
}

impl Default for CharacterController {
    /// The stock tunables: a 40-degree walkable slope, a 50-degree ledge
    /// cone, quake-like acceleration and friction rates.
    fn default() -> (r: Self)
        ensures
            r.wf(),
            r.speed == 12_000,
            r.max_speed == 100_000,
            r.gravity == 29_000,
            r.jump_height == 1_800,
            r.step_size == 700,
            r.coyote_time == 100,
            r.jump_input_buffer == 150,
            r.min_walk_cos == 766,
            r.min_crane_cos == 643,
            r.min_mantle_cos == 643,
            r.friction_hz == 6_000,
            r.acceleration_hz == 8_000,
            r.air_acceleration_hz == 12_000,
            r.stop_speed == 2_540,
            r.crane_height == 1_500,
            r.mantle_height == 1_000,
            r.crane_speed == 11_000,
            r.mantle_speed == 5_000,
            r.tac_input_buffer == 150,
            r.tac_cooldown == 300,
            r.crane_input_buffer == 200,
            r.mantle_input_buffer == 50,
            r.unground_speed == 10_000,
            r.ground_distance == 50,
            r.crouch_height == 1_300,
            r.climb_pull_up_height == 300,
    {
        CharacterController {
            crouch_height: 1_300,
            standing_view_height: 1_700,
            crouch_view_height: 1_200,
            ground_distance: 50,
            step_down_detection_distance: 200,
            min_walk_cos: 766,
            stop_speed: 2_540,
            friction_hz: 6_000,
            acceleration_hz: 8_000,
            air_acceleration_hz: 12_000,
            water_acceleration_hz: 12_000,
            water_slowdown: 600,
            gravity: 29_000,
            water_gravity: 2_400,
            step_size: 700,
            crane_height: 1_500,
            crouch_speed_scale: 333,
            speed: 12_000,
            air_speed: 1_500,
            skin_width: 15,
            max_speed: 100_000,
            jump_height: 1_800,
            tac_power: 755,
            tac_jump_factor: 1_000,
            tac_input_buffer: 150,
            max_tac_cos: 766,
            max_air_wish_speed: 760,
            tac_cooldown: 300,
            unground_speed: 10_000,
            coyote_time: 100,
            jump_input_buffer: 150,
            jump_crane_chain_time: 140,
            crane_input_buffer: 200,
            mantle_input_buffer: 50,
            min_step_ledge_space: 200,
            min_crane_ledge_space: 350,
            min_mantle_ledge_space: 500,
            mantle_height: 1_000,
            min_crane_cos: 643,
            min_mantle_cos: 643,
            crane_speed: 11_000,
            mantle_speed: 5_000,
            min_ledge_grab_space: LedgeSpace { half_x: 100, half_y: 50, half_z: 100 },
            climb_pull_up_height: 300,
            max_ledge_grab_distance: 500,
        }
    }
}

} // verus!
