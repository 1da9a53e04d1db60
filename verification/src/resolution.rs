//! Action resolution: a rolled total compared against a target number gives
//! a tiered outcome, and capability-conditioned actions (dig, read) pair the
//! outcome with the state delta the caller should apply.

use vstd::prelude::*;
use crate::dice::{spec_modified, RandomSource, RollSource, SkillLevel};
use crate::items::Item;
use crate::terrain::{Terrain, TerrainInteract};

verus! {

/// The margin increment that awards one extra tier: every full multiple of
/// this amount over the target, beyond the first success, is one raise.
pub const RAISE_STEP: u8 = 4;

/// The tier of a resolution outcome. A success by a full raise increment or
/// more is critical (at least one raise); symmetrically, a failure short of
/// the target by a full increment or more is reported as critical.
#[derive(Clone, Copy, Debug, PartialEq, Eq, Structural)]
pub enum OutcomeKind {
    CriticalFailure,
    Failure,
    Success,
    CriticalSuccess,
}

/// The result of one resolution attempt: the raw rolled total and the target
/// difficulty it was held against. Margin, tier and raises derive from them.
#[derive(Clone, Copy, Debug, PartialEq, Eq, Structural)]
pub struct Outcome {
    pub roll: u8,
    pub target: u8,
}

impl Outcome {
    /// How far the roll lies above (or, negative, below) the target.
    pub open spec fn spec_margin(self) -> int {
        self.roll - self.target
    }

    pub fn margin(&self) -> (m: i16)
        ensures
            m as int == self.spec_margin(),
    {
        self.roll as i16 - self.target as i16
    }

    pub open spec fn spec_is_success(self) -> bool {
        self.roll >= self.target
    }

    /// A roll at or above the target succeeds.
    pub fn is_success(&self) -> (r: bool)
        ensures
            r == self.spec_is_success(),
    {
        self.roll >= self.target
    }

    /// One raise for every full raise increment of margin beyond the first
    /// success; zero on failure. Capped only by the roll's own ceiling.
    pub open spec fn spec_raises(self) -> int {
        if self.spec_is_success() {
            self.spec_margin() / (RAISE_STEP as int)
        } else {
            0
        }
    }

    pub fn raises(&self) -> (r: u8)
        ensures
            r as int == self.spec_raises(),
    {
        if self.roll >= self.target {
            (self.roll - self.target) / RAISE_STEP
        } else {
            0
        }
    }

    pub open spec fn spec_kind(self) -> OutcomeKind {
        if self.spec_is_success() {
            if self.spec_raises() >= 1 {
                OutcomeKind::CriticalSuccess
            } else {
                OutcomeKind::Success
            }
        } else {
            if self.spec_margin() <= -(RAISE_STEP as int) {
                OutcomeKind::CriticalFailure
            } else {
                OutcomeKind::Failure
            }
        }
    }

    /// The outcome's tier, derived from the margin alone.
    pub fn kind(&self) -> (k: OutcomeKind)
        ensures
            k == self.spec_kind(),
    {
        if self.roll >= self.target {
            if (self.roll - self.target) / RAISE_STEP >= 1 {
                OutcomeKind::CriticalSuccess
            } else {
                OutcomeKind::Success
            }
        } else {
            if self.target - self.roll >= RAISE_STEP {
                OutcomeKind::CriticalFailure
            } else {
                OutcomeKind::Failure
            }
        }
    }
}

/// Rolls the actor's skill against a target number and reports the outcome.
/// A protagonist-tier actor rolls wild (exploding); any other actor rolls
/// plain — a deliberate rules asymmetry.
pub fn resolve_check<S: RollSource>(skill: SkillLevel, target: u8, wild: bool, src: &mut S) -> (o:
    Outcome)
    ensures
        o.target == target,
        o.roll >= 1,
        !wild ==> o.roll as int <= spec_modified(
            skill.spec_dice().0.spec_value() as int,
            skill.spec_dice().1 as int,
        ),
{
    let roll = if wild {
        skill.roll_wild_with(src)
    } else {
        skill.roll_with(src)
    };
    Outcome { roll, target }
}

/// As `resolve_check`, drawing from the process-wide random source.
pub fn resolve_check_random(skill: SkillLevel, target: u8, wild: bool) -> (o: Outcome)
    ensures
        o.target == target,
        o.roll >= 1,
        !wild ==> o.roll as int <= spec_modified(
            skill.spec_dice().0.spec_value() as int,
            skill.spec_dice().1 as int,
        ),
{
    let mut src = RandomSource {};
    resolve_check(skill, target, wild, &mut src)
}

/// The outcome of a dig attempt together with the delta to apply: on success
/// the tile's documented replacement terrain and produced items, on failure
/// no change at all (an action either fully applies or changes nothing).
pub struct DigResolution {
    pub outcome: Outcome,
    pub replacement: Option<Terrain>,
    pub items: Vec<Item>,
}

/// Resolves a dig action. The caller must have checked the tile's
/// capability: digging an undiggable tile is a contract violation, and no
/// die is rolled speculatively.
pub fn resolve_dig<S: RollSource>(
    tile: &Terrain,
    skill: SkillLevel,
    target: u8,
    wild: bool,
    src: &mut S,
) -> (r: DigResolution)
    requires
        tile.spec_is_diggable(),
    ensures
        r.outcome.target == target,
        r.outcome.roll >= 1,
        r.outcome.spec_is_success() ==> r.replacement == Some(tile.spec_dig_terrain()) && r.items@
            == tile.spec_dig_items(),
        !r.outcome.spec_is_success() ==> r.replacement is None && r.items@ == Seq::<Item>::empty(),
{
    let outcome = resolve_check(skill, target, wild, src);
    if outcome.is_success() {
        let (replacement, items) = tile.dig_result();
        DigResolution { outcome, replacement: Some(replacement), items }
    } else {
        DigResolution { outcome, replacement: None, items: Vec::new() }
    }
}

/// The outcome of a read attempt: on success the text to surface to the log,
/// on failure nothing.
pub struct ReadResolution {
    pub outcome: Outcome,
    pub text: Option<String>,
}

/// Resolves a read action on a tile. The caller must have checked the
/// tile's capability: reading an unreadable tile is a contract violation,
/// and no die is rolled speculatively.
pub fn resolve_read<S: RollSource>(
    tile: &Terrain,
    skill: SkillLevel,
    target: u8,
    wild: bool,
    src: &mut S,
) -> (r: ReadResolution)
    requires
        tile.spec_is_readable(),
    ensures
        r.outcome.target == target,
        r.outcome.roll >= 1,
        r.outcome.spec_is_success() ==> (r.text matches Some(t) && t@ == tile.spec_read()),
        !r.outcome.spec_is_success() ==> r.text is None,
{
    let outcome = resolve_check(skill, target, wild, src);
    if outcome.is_success() {
        let text = tile.read();
        ReadResolution { outcome, text: Some(text) }
    } else {
        ReadResolution { outcome, text: None }
    }
}

/// An outcome at exactly the target is a plain success: no raise, and the
/// tier is `Success`.
pub proof fn lemma_exact_roll_is_plain_success(o: Outcome)
    requires
        o.roll == o.target,
    ensures
        o.spec_is_success(),
        o.spec_raises() == 0,
        o.spec_kind() == OutcomeKind::Success,
{
}

/// Tiers partition the margin line: failure exactly below the target,
/// success at or above it, and the critical tiers exactly one full raise
/// increment away in either direction.
pub proof fn lemma_kind_matches_margin(o: Outcome)
    ensures
        (o.spec_kind() == OutcomeKind::CriticalFailure) <==> o.spec_margin() <= -(RAISE_STEP
            as int),
        (o.spec_kind() == OutcomeKind::Failure) <==> (-(RAISE_STEP as int) < o.spec_margin() < 0),
        (o.spec_kind() == OutcomeKind::Success) <==> (0 <= o.spec_margin() < RAISE_STEP as int),
        (o.spec_kind() == OutcomeKind::CriticalSuccess) <==> o.spec_margin() >= RAISE_STEP as int,
{
}

} // verus!
