//! The physical anchor of a character and the ground-contact rule.
//!
//! A body anchor pairs the engine-side handles of exactly one rigid body and
//! one capsule collider (with the model and spine nodes) under stable
//! numeric identifiers. Ground detection is contact-frame based: the engine
//! layer collects the contact-manifold normals touching the character's
//! collider for the current physics step and the rule here decides whether
//! any of them points up steeply enough to count as ground.

use vstd::prelude::*;

use crate::math::Vec3;
use crate::settings::CharacterSize;

verus! {

/// A contact counts as ground when its normal's vertical component exceeds
/// 0.7 (in thousandths), about 45 degrees from vertical.
pub const GROUND_NORMAL_MIN_Y: i64 = 700;

/// Whether any contact normal of this physics step points up steeply enough.
pub open spec fn spec_has_ground_contact(normals: Seq<Vec3>) -> bool {
    exists|i: int| 0 <= i < normals.len() && normals[i].y > GROUND_NORMAL_MIN_Y
}

/// The physical representation of one character: engine handles for its
/// rigid body, capsule collider, model root and spine node, plus the capsule
/// size. Exactly one body and one collider per anchor, fixed for the
/// anchor's whole life.
#[derive(Clone, Copy, Debug)]
pub struct CharacterBody {
    pub body: u64,
    pub model: u64,
    pub spine: u64,
    pub collider: u64,
    pub size: CharacterSize,
}

impl CharacterBody {
    /// Record the handles the engine created for this character.
    pub fn new(body: u64, model: u64, spine: u64, collider: u64, size: CharacterSize) -> (r:
        CharacterBody)
        ensures
            r == (CharacterBody { body, model, spine, collider, size }),
    {
        CharacterBody { body, model, spine, collider, size }
    }

    /// The sole ground-detection mechanism: true exactly when some manifold
    /// normal of the current step has a vertical component above the
    /// threshold.
    pub fn has_ground_contact(&self, contact_normals: &Vec<Vec3>) -> (r: bool)
        ensures
            r == spec_has_ground_contact(contact_normals@),
    {
        let mut i: usize = 0;
        while i < contact_normals.len()
            invariant
                i <= contact_normals@.len(),
                forall|j: int|
                    0 <= j < i ==> !((#[trigger] contact_normals@[j]).y > GROUND_NORMAL_MIN_Y),
            decreases contact_normals@.len() - i,
        {
            if contact_normals[i].y > GROUND_NORMAL_MIN_Y {
                return true;
            }
            i = i + 1;
        }
        false
    }
}

} // verus!
