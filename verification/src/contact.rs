//! Contact classifier: inspects the frame's collision contacts and decides
//! the player's surface relation — standing on walkable ground, pressed
//! against a climbable wall, or touching nothing that matters.

use vstd::prelude::*;
use crate::math::{SCALE, MAG_MAX};
use crate::vec3::Vec3;

verus! {

/// Smallest vertical normal component a contact may have and still count as
/// walkable ground: the cosine of the 45-degree slope limit, scaled.
pub const GROUND_NORMAL_MIN: i64 = 707;

/// Largest vertical normal component a near-vertical wall contact may have.
pub const WALL_NORMAL_MAX: i64 = 200;

/// The tag static geometry carries: an ordinary solid, or a wall the player
/// may run along and climb.
#[derive(Clone, Copy, PartialEq, Eq, Structural, Debug)]
pub enum SurfaceTag {
    Plain,
    Climbable,
}

/// One collision contact reported by the physics engine for this frame: the
/// touched entity, its tag, and the surface normal pointing from the surface
/// toward the player, as a unit vector scaled by `SCALE`.
#[derive(Clone, Copy, PartialEq, Eq, Structural, Debug)]
pub struct Contact {
    pub entity: u64,
    pub tag: SurfaceTag,
    pub normal: Vec3,
}

impl Contact {
    /// The normal is componentwise within one unit.
    pub open spec fn wf(self) -> bool {
        self.normal.bounded(SCALE as int)
    }
}

/// The surface relation the classifier reports, strongest first: ground
/// beats wall beats nothing.
#[derive(Clone, Copy, PartialEq, Eq, Structural, Debug)]
pub enum SurfaceRelation {
    Ground,
    Wall { normal: Vec3 },
    Free,
}

/// A contact whose normal points steeply enough upward to stand on.
pub open spec fn is_ground_contact(c: Contact) -> bool {
    c.normal.y > GROUND_NORMAL_MIN
}

/// How strongly the horizontal velocity runs against a contact's normal:
/// the more negative, the harder the player presses into the surface.
pub open spec fn opposition(c: Contact, vel: Vec3) -> int {
    vel.horizontal_spec().dot_spec(c.normal)
}

/// A near-vertical climbable contact the player is pressing into, either
/// with horizontal velocity or with horizontal intent.
pub open spec fn is_wall_contact(c: Contact, vel: Vec3, intent: Vec3) -> bool {
    &&& c.tag == SurfaceTag::Climbable
    &&& -WALL_NORMAL_MAX <= c.normal.y <= WALL_NORMAL_MAX
    &&& {
        ||| opposition(c, vel) < 0
        ||| intent.horizontal_spec().dot_spec(c.normal) < 0
    }
}

/// Some contact of the frame is walkable ground.
pub open spec fn has_ground(s: Seq<Contact>) -> bool {
    exists|i: int| 0 <= i < s.len() && is_ground_contact(#[trigger] s[i])
}

/// The index of the wall contact whose normal most opposes the current
/// horizontal velocity, the earliest such on a tie; `-1` when no contact
/// qualifies.
pub open spec fn best_wall_idx(s: Seq<Contact>, vel: Vec3, intent: Vec3) -> int
    decreases s.len(),
{
    if s.len() == 0 {
        -1
    } else {
        let prev = best_wall_idx(s.drop_last(), vel, intent);
        let last = s.len() - 1;
        if !is_wall_contact(s[last], vel, intent) {
            prev
        } else if prev == -1 {
            last
        } else if opposition(s[last], vel) < opposition(s[prev], vel) {
            last
        } else {
            prev
        }
    }
}

/// The chosen index is `-1` or a qualifying wall contact within range.
pub proof fn lemma_best_wall_valid(s: Seq<Contact>, vel: Vec3, intent: Vec3)
    ensures
        best_wall_idx(s, vel, intent) == -1 || (0 <= best_wall_idx(s, vel, intent) < s.len()
            && is_wall_contact(s[best_wall_idx(s, vel, intent)], vel, intent)),
    decreases s.len(),
{
    if s.len() > 0 {
        lemma_best_wall_valid(s.drop_last(), vel, intent);
    }
}

/// What the classifier reports for a frame's contacts: ground wins over
/// walls, walls win over nothing, and among walls the one most opposed to
/// the current horizontal velocity is chosen.
pub open spec fn classify_spec(s: Seq<Contact>, vel: Vec3, intent: Vec3) -> SurfaceRelation {
    if has_ground(s) {
        SurfaceRelation::Ground
    } else if best_wall_idx(s, vel, intent) >= 0 {
        SurfaceRelation::Wall { normal: s[best_wall_idx(s, vel, intent)].normal }
    } else {
        SurfaceRelation::Free
    }
}

/// Classifies the frame's contacts against the current velocity and intent.
/// Tolerates an empty contact set; reports ground over wall over nothing.
pub fn classify(contacts: &Vec<Contact>, vel: &Vec3, intent_dir: &Vec3)
    -> (r: SurfaceRelation)
    requires
        forall|i: int| 0 <= i < contacts@.len() ==> (#[trigger] contacts@[i]).wf(),
        vel.bounded(MAG_MAX as int),
        intent_dir.bounded(SCALE as int),
    ensures
        r == classify_spec(contacts@, *vel, *intent_dir),
        r is Ground <==> has_ground(contacts@),
        r matches SurfaceRelation::Wall { normal } ==> normal.bounded(SCALE as int)
            && exists|i: int| 0 <= i < contacts@.len()
                && is_wall_contact(#[trigger] contacts@[i], *vel, *intent_dir)
                && contacts@[i].normal == normal,
{
    let vel_h = vel.horizontal();
    let intent_h = intent_dir.horizontal();
    let mut grounded = false;
    let mut best: usize = 0;
    let mut found_wall = false;
    let mut best_dot: i64 = 0;
    let n = contacts.len();
    let mut i: usize = 0;
    while i < n
        invariant
            n == contacts@.len(),
            0 <= i <= n,
            forall|k: int| 0 <= k < contacts@.len() ==> (#[trigger] contacts@[k]).wf(),
            vel.bounded(MAG_MAX as int),
            intent_dir.bounded(SCALE as int),
            vel_h == vel.horizontal_spec(),
            intent_h == intent_dir.horizontal_spec(),
            grounded == has_ground(contacts@.take(i as int)),
            !found_wall ==> best_wall_idx(contacts@.take(i as int), *vel, *intent_dir) == -1,
            found_wall ==> best_wall_idx(contacts@.take(i as int), *vel, *intent_dir) == best,
            found_wall ==> best < i && best_dot == opposition(contacts@[best as int], *vel),
        decreases n - i,
    {
        let c = contacts[i];
        proof {
            assert(contacts@.take(i + 1).drop_last() =~= contacts@.take(i as int));
            assert(contacts@.take(i + 1).last() == contacts@[i as int]);
        }
        if c.normal.y > GROUND_NORMAL_MIN {
            grounded = true;
        }
        let vh_dot = vel_h.dot(&c.normal);
        let wall_tag = match c.tag {
            SurfaceTag::Climbable => true,
            SurfaceTag::Plain => false,
        };
        let near_vertical = -WALL_NORMAL_MAX <= c.normal.y && c.normal.y <= WALL_NORMAL_MAX;
        let pressing = vh_dot < 0 || intent_h.dot(&c.normal) < 0;
        if wall_tag && near_vertical && pressing {
            if !found_wall || vh_dot < best_dot {
                found_wall = true;
                best = i;
                best_dot = vh_dot;
            }
        }
        proof {
            if grounded {
                assert(has_ground(contacts@.take(i + 1)));
            }
        }
        i = i + 1;
    }
    proof {
        assert(contacts@.take(n as int) =~= contacts@);
        lemma_best_wall_valid(contacts@, *vel, *intent_dir);
    }
    if grounded {
        SurfaceRelation::Ground
    } else if found_wall {
        SurfaceRelation::Wall { normal: contacts[best].normal }
    } else {
        SurfaceRelation::Free
    }
}

} // verus!
