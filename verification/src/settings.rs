//! Configuration values, fully resolved before any character is built.
//!
//! Rather than a process-wide lazily loaded singleton, the configuration
//! is a plain immutable value handed to each constructor, so construction
//! order is explicit and testable. Scalars are fixed-point
//! thousandths; the loader that parses configuration files lives outside the
//! crate and converts into these types.

use vstd::prelude::*;

use crate::keyboard_input::KeyMap;
use crate::math::Vec3;

verus! {

/// Largest magnitude a configured speed may have, in thousandths of a unit
/// per second; keeps velocity arithmetic within machine range.
pub const SPEED_LIMIT: i64 = 1000000;

/// Capsule size of a character: radius and height, in thousandths.
pub type CharacterSize = (i64, i64);

/// Where a character's skinned model comes from and how it is mounted.
#[derive(Debug)]
pub struct CharacterModel {
    pub model: String,
    pub spine: String,
    pub scale: i64,
    pub size: CharacterSize,
}

/// Where a weapon's model comes from.
#[derive(Debug)]
pub struct WeaponModel {
    pub model: String,
    pub scale: i64,
}

#[derive(Debug)]
pub struct Models {
    pub player: CharacterModel,
    pub bot: CharacterModel,
    pub weapon: WeaponModel,
}

/// One loadable scene.
#[derive(Debug)]
pub struct Scene {
    pub model: String,
}

#[derive(Debug)]
pub struct Scenes {
    pub main: Scene,
}

/// Camera mounting offsets, in fixed-point thousandths.
#[derive(Clone, Copy, Debug)]
pub struct CameraSettings {
    pub offset: (i64, i64, i64),
    pub hinge_offset: (i64, i64, i64),
}

/// Run speed and jump impulse scale of one character type, in thousandths
/// of a unit per second.
#[derive(Clone, Copy, Debug, PartialEq, Eq, Structural)]
pub struct CharacterSpeedSettings {
    pub run: i64,
    pub jump: i64,
}

impl CharacterSpeedSettings {
    /// Speeds are within machine range.
    pub open spec fn wf(self) -> bool {
        &&& -SPEED_LIMIT <= self.run <= SPEED_LIMIT
        &&& -SPEED_LIMIT <= self.jump <= SPEED_LIMIT
    }
}

/// The clip asset names of one character type.
#[derive(Debug)]
pub struct AnimationSettings {
    pub idle: String,
    pub run: String,
    pub jump: String,
    pub attack: String,
}

#[derive(Debug)]
pub struct Animations {
    pub player: AnimationSettings,
    pub bot: AnimationSettings,
}

#[derive(Debug)]
pub struct PlayerSettings {
    pub camera: CameraSettings,
    pub speed: CharacterSpeedSettings,
    pub hand_node: String,
}

#[derive(Debug)]
pub struct BotSettings {
    pub speed: CharacterSpeedSettings,
}

/// The whole configuration snapshot.
#[derive(Debug)]
pub struct Settings {
    pub data_dir: String,
    pub models: Models,
    pub scenes: Scenes,
    pub animations: Animations,
    pub keymap: KeyMap,
    pub player: PlayerSettings,
    pub bot: BotSettings,
}

impl CameraSettings {
    /// The camera offset as a vector.
    pub fn get_offset(&self) -> (r: Vec3)
        ensures
            r.x == self.offset.0 && r.y == self.offset.1 && r.z == self.offset.2,
    {
        CameraSettings::tuple_to_vector(&self.offset)
    }

    /// The hinge offset as a vector.
    pub fn get_hinge_offset(&self) -> (r: Vec3)
        ensures
            r.x == self.hinge_offset.0 && r.y == self.hinge_offset.1 && r.z == self.hinge_offset.2,
    {
        CameraSettings::tuple_to_vector(&self.hinge_offset)
    }

    fn tuple_to_vector(t: &(i64, i64, i64)) -> (r: Vec3)
        ensures
            r.x == t.0 && r.y == t.1 && r.z == t.2,
    {
        Vec3 { x: t.0, y: t.1, z: t.2 }
    }
}

} // verus!
