use savage_core::dice::{ScriptedSource, SkillLevel};
use savage_core::resolution::{
    resolve_check, resolve_dig, Outcome, OutcomeKind, RAISE_STEP,
};
use savage_core::terrain::{Dirt, DirtVariant, Pit, Terrain, TerrainInteract};

#[test]
fn outcome_tiers_partition_the_margin() {
    assert_eq!(Outcome { roll: 4, target: 4 }.kind(), OutcomeKind::Success);
    assert_eq!(Outcome { roll: 7, target: 4 }.kind(), OutcomeKind::Success);
    assert_eq!(Outcome { roll: 8, target: 4 }.kind(), OutcomeKind::CriticalSuccess);
    assert_eq!(Outcome { roll: 3, target: 4 }.kind(), OutcomeKind::Failure);
    assert_eq!(Outcome { roll: 1, target: 4 }.kind(), OutcomeKind::Failure);
    assert_eq!(Outcome { roll: 1, target: 5 }.kind(), OutcomeKind::CriticalFailure);
    assert_eq!(Outcome { roll: 1, target: 200 }.kind(), OutcomeKind::CriticalFailure);
}

#[test]
fn raises_count_full_increments_over_the_target() {
    assert_eq!(Outcome { roll: 4, target: 4 }.raises(), 0);
    assert_eq!(Outcome { roll: 7, target: 4 }.raises(), 0);
    assert_eq!(Outcome { roll: 8, target: 4 }.raises(), 1);
    assert_eq!(Outcome { roll: 12, target: 4 }.raises(), 2);
    assert_eq!(Outcome { roll: 255, target: 4 }.raises(), (255 - 4) / RAISE_STEP);
    assert_eq!(Outcome { roll: 3, target: 4 }.raises(), 0);
    assert_eq!(Outcome { roll: 7, target: 4 }.margin(), 3);
    assert_eq!(Outcome { roll: 1, target: 200 }.margin(), -199);
}

#[test]
fn check_carries_roll_and_target() {
    // SkillLevel::D6 rolls a plain d6: a scripted raw 3 lands on 4.
    let mut src = ScriptedSource::new(vec![3]);
    let o = resolve_check(SkillLevel::D6, 4, false, &mut src);
    assert_eq!(o.roll, 4);
    assert_eq!(o.target, 4);
    // A wild check explodes: 6, 6, then 2 gives 14.
    let mut src = ScriptedSource::new(vec![5, 5, 1]);
    let o = resolve_check(SkillLevel::D6, 4, true, &mut src);
    assert_eq!(o.roll, 14);
    assert_eq!(o.kind(), OutcomeKind::CriticalSuccess);
    assert_eq!(o.raises(), 2);
}

#[test]
fn dig_at_exactly_the_target_is_a_plain_success() {
    let tile: Terrain = Dirt::new(DirtVariant::Flat).into();
    assert!(tile.is_diggable());
    // The scripted d6 lands exactly on the target number 4.
    let mut src = ScriptedSource::new(vec![3]);
    let r = resolve_dig(&tile, SkillLevel::D6, 4, false, &mut src);
    assert_eq!(r.outcome.kind(), OutcomeKind::Success);
    assert_eq!(r.outcome.raises(), 0);
    assert_eq!(r.replacement, Some(Terrain::Pit(Pit {})));
    assert!(r.items.len() == 0);
}

#[test]
fn failed_dig_changes_nothing() {
    let tile: Terrain = Dirt::new(DirtVariant::Flat).into();
    // The scripted d6 lands on 3, below the target 4.
    let mut src = ScriptedSource::new(vec![2]);
    let r = resolve_dig(&tile, SkillLevel::D6, 4, false, &mut src);
    assert_eq!(r.outcome.kind(), OutcomeKind::Failure);
    assert_eq!(r.replacement, None);
    assert!(r.items.is_empty());
}
