use savage_core::dice::{Dice, DiceWithModifier, ScriptedSource, SkillLevel};

#[test]
fn test_steps_above() {
    assert_eq!(SkillLevel::D4_2.steps_above(SkillLevel::D4_2), 0);
    assert_eq!(SkillLevel::D4.steps_above(SkillLevel::D4_2), 1);
    assert_eq!(SkillLevel::D6.steps_above(SkillLevel::D4_2), 2);
    assert_eq!(SkillLevel::D8.steps_above(SkillLevel::D4_2), 3);
    assert_eq!(SkillLevel::D10.steps_above(SkillLevel::D4_2), 4);
    assert_eq!(SkillLevel::D12.steps_above(SkillLevel::D4_2), 5);
    assert_eq!(SkillLevel::D4_2.steps_above(SkillLevel::D4), -1);
    assert_eq!(SkillLevel::D4.steps_above(SkillLevel::D4), 0);
    assert_eq!(SkillLevel::D6.steps_above(SkillLevel::D4), 1);
    assert_eq!(SkillLevel::D8.steps_above(SkillLevel::D4), 2);
    assert_eq!(SkillLevel::D10.steps_above(SkillLevel::D4), 3);
    assert_eq!(SkillLevel::D12.steps_above(SkillLevel::D4), 4);
    assert_eq!(SkillLevel::D4_2.steps_above(SkillLevel::D6), -2);
    assert_eq!(SkillLevel::D4.steps_above(SkillLevel::D6), -1);
    assert_eq!(SkillLevel::D6.steps_above(SkillLevel::D6), 0);
    assert_eq!(SkillLevel::D8.steps_above(SkillLevel::D6), 1);
    assert_eq!(SkillLevel::D10.steps_above(SkillLevel::D6), 2);
    assert_eq!(SkillLevel::D12.steps_above(SkillLevel::D6), 3);
    assert_eq!(SkillLevel::D4_2.steps_above(SkillLevel::D8), -3);
    assert_eq!(SkillLevel::D4.steps_above(SkillLevel::D8), -2);
    assert_eq!(SkillLevel::D6.steps_above(SkillLevel::D8), -1);
    assert_eq!(SkillLevel::D8.steps_above(SkillLevel::D8), 0);
    assert_eq!(SkillLevel::D10.steps_above(SkillLevel::D8), 1);
    assert_eq!(SkillLevel::D12.steps_above(SkillLevel::D8), 2);
    assert_eq!(SkillLevel::D4_2.steps_above(SkillLevel::D10), -4);
    assert_eq!(SkillLevel::D4.steps_above(SkillLevel::D10), -3);
    assert_eq!(SkillLevel::D6.steps_above(SkillLevel::D10), -2);
    assert_eq!(SkillLevel::D8.steps_above(SkillLevel::D10), -1);
    assert_eq!(SkillLevel::D10.steps_above(SkillLevel::D10), 0);
    assert_eq!(SkillLevel::D12.steps_above(SkillLevel::D10), 1);
    assert_eq!(SkillLevel::D4_2.steps_above(SkillLevel::D12), -5);
    assert_eq!(SkillLevel::D4.steps_above(SkillLevel::D12), -4);
    assert_eq!(SkillLevel::D6.steps_above(SkillLevel::D12), -3);
    assert_eq!(SkillLevel::D8.steps_above(SkillLevel::D12), -2);
    assert_eq!(SkillLevel::D10.steps_above(SkillLevel::D12), -1);
    assert_eq!(SkillLevel::D12.steps_above(SkillLevel::D12), 0);
}

#[test]
fn test_steps_above_attr() {
    assert_eq!(SkillLevel::D4_2.steps_above_attr(Dice::D4), -1);
    assert_eq!(SkillLevel::D4.steps_above_attr(Dice::D4), 0);
    assert_eq!(SkillLevel::D6.steps_above_attr(Dice::D4), 1);
    assert_eq!(SkillLevel::D8.steps_above_attr(Dice::D4), 2);
    assert_eq!(SkillLevel::D10.steps_above_attr(Dice::D4), 3);
    assert_eq!(SkillLevel::D12.steps_above_attr(Dice::D4), 4);
    assert_eq!(SkillLevel::D4_2.steps_above_attr(Dice::D6), -2);
    assert_eq!(SkillLevel::D4.steps_above_attr(Dice::D6), -1);
    assert_eq!(SkillLevel::D6.steps_above_attr(Dice::D6), 0);
    assert_eq!(SkillLevel::D8.steps_above_attr(Dice::D6), 1);
    assert_eq!(SkillLevel::D10.steps_above_attr(Dice::D6), 2);
    assert_eq!(SkillLevel::D12.steps_above_attr(Dice::D6), 3);
    assert_eq!(SkillLevel::D4_2.steps_above_attr(Dice::D8), -3);
    assert_eq!(SkillLevel::D4.steps_above_attr(Dice::D8), -2);
    assert_eq!(SkillLevel::D6.steps_above_attr(Dice::D8), -1);
    assert_eq!(SkillLevel::D8.steps_above_attr(Dice::D8), 0);
    assert_eq!(SkillLevel::D10.steps_above_attr(Dice::D8), 1);
    assert_eq!(SkillLevel::D12.steps_above_attr(Dice::D8), 2);
    assert_eq!(SkillLevel::D4_2.steps_above_attr(Dice::D10), -4);
    assert_eq!(SkillLevel::D4.steps_above_attr(Dice::D10), -3);
    assert_eq!(SkillLevel::D6.steps_above_attr(Dice::D10), -2);
    assert_eq!(SkillLevel::D8.steps_above_attr(Dice::D10), -1);
    assert_eq!(SkillLevel::D10.steps_above_attr(Dice::D10), 0);
    assert_eq!(SkillLevel::D12.steps_above_attr(Dice::D10), 1);
    assert_eq!(SkillLevel::D4_2.steps_above_attr(Dice::D12), -5);
    assert_eq!(SkillLevel::D4.steps_above_attr(Dice::D12), -4);
    assert_eq!(SkillLevel::D6.steps_above_attr(Dice::D12), -3);
    assert_eq!(SkillLevel::D8.steps_above_attr(Dice::D12), -2);
    assert_eq!(SkillLevel::D10.steps_above_attr(Dice::D12), -1);
    assert_eq!(SkillLevel::D12.steps_above_attr(Dice::D12), 0);
}

#[test]
fn roll_stays_within_faces() {
    let all = [
        Dice::D4,
        Dice::D6,
        Dice::D8,
        Dice::D10,
        Dice::D12,
        Dice::D20,
        Dice::D100,
    ];
    for die in all {
        for _ in 0..200 {
            let r = die.roll();
            assert!(1 <= r && r <= die.value());
        }
    }
}

#[test]
fn wild_roll_never_below_one_and_can_exceed_faces() {
    let all = [
        Dice::D4,
        Dice::D6,
        Dice::D8,
        Dice::D10,
        Dice::D12,
        Dice::D20,
        Dice::D100,
    ];
    for die in all {
        for _ in 0..200 {
            assert!(die.roll_wild() >= 1);
        }
    }
    // A scripted maximum face explodes: a d4 rolling its 4 and then a 1
    // accumulates to 5, which no single roll of the die can reach.
    let mut src = ScriptedSource::new(vec![3, 0]);
    assert_eq!(Dice::D4.roll_wild_with(&mut src), 5);
}

#[test]
fn wild_roll_saturates_instead_of_wrapping() {
    // A d100 that keeps landing on its maximum face saturates the
    // accumulator at 255 and stays there.
    let mut src = ScriptedSource::new(vec![99; 70]);
    assert_eq!(Dice::D100.roll_wild_with(&mut src), 255);
}

#[test]
fn ladder_ends_saturate() {
    assert_eq!(SkillLevel::D4_2.prev(), None);
    assert_eq!(SkillLevel::D12.next(), None);
    assert_eq!(Dice::D4.prev(), None);
    assert_eq!(Dice::D100.next(), None);
    assert_eq!(SkillLevel::D4_2 - 1, SkillLevel::D4_2);
    assert_eq!(SkillLevel::D12 + 1, SkillLevel::D12);
    assert_eq!(Dice::D4 - 1, Dice::D4);
    assert_eq!(Dice::D100 + 1, Dice::D100);
    assert_eq!(SkillLevel::D4_2 + (-3), SkillLevel::D4_2);
    assert_eq!(Dice::D100 - 10, Dice::D4);
}

#[test]
fn ladder_addition_steps() {
    assert_eq!(Dice::D4 + 0, Dice::D4);
    assert_eq!(Dice::D4 + 1, Dice::D6);
    assert_eq!(Dice::D4 + 3, Dice::D10);
    assert_eq!(Dice::D12 - 2, Dice::D8);
    assert_eq!(SkillLevel::D4_2 + 2, SkillLevel::D6);
    assert_eq!(SkillLevel::D10 - 1, SkillLevel::D8);
    assert_eq!(SkillLevel::default(), SkillLevel::D4_2);
    let mut d = Dice::D6;
    d += 2;
    assert_eq!(d, Dice::D10);
    d -= 1;
    assert_eq!(d, Dice::D8);
    let mut s = SkillLevel::D4;
    s += 1;
    assert_eq!(s, SkillLevel::D6);
    s -= 2;
    assert_eq!(s, SkillLevel::D4_2);
}

#[test]
fn modifier_floors_at_one() {
    let d = DiceWithModifier::new(Dice::D4, -10);
    for _ in 0..200 {
        assert_eq!(d.roll(), 1);
        assert_eq!(d.roll_wild() >= 1, true);
    }
    let mut src = ScriptedSource::new(vec![3]);
    assert_eq!(d.roll_with(&mut src), 1);
}

#[test]
fn modifier_applies_after_the_roll() {
    let d = DiceWithModifier::new(Dice::D6, 2);
    assert_eq!(d.apply(4), 6);
    assert_eq!(d.apply(1), 3);
    let low = DiceWithModifier::new(Dice::D6, -4);
    assert_eq!(low.apply(1), 1);
    assert_eq!(low.apply(6), 2);
    let high = DiceWithModifier::new(Dice::D6, 100);
    assert_eq!(high.apply(200), 255);
    // The modifier lands once, after the exploding accumulation: 6, 6 and a
    // final 2 give 14, and the -1 makes 13.
    let wild = DiceWithModifier::new(Dice::D6, -1);
    let mut src = ScriptedSource::new(vec![5, 5, 1]);
    assert_eq!(wild.roll_wild_with(&mut src), 13);
}

#[test]
fn skill_level_rolls_its_mapped_die() {
    // D4-2 rolls a d4 at -2: a scripted 4 becomes 2, a scripted 1 floors at 1.
    let mut src = ScriptedSource::new(vec![3]);
    assert_eq!(SkillLevel::D4_2.roll_with(&mut src), 2);
    let mut src = ScriptedSource::new(vec![0]);
    assert_eq!(SkillLevel::D4_2.roll_with(&mut src), 1);
    // D6 rolls a plain d6.
    let mut src = ScriptedSource::new(vec![5]);
    assert_eq!(SkillLevel::D6.roll_with(&mut src), 6);
    for _ in 0..100 {
        assert!(SkillLevel::D12.roll() >= 1);
        assert!(SkillLevel::D4_2.roll_wild() >= 1);
    }
}

#[test]
fn dice_names() {
    assert_eq!(Dice::D4.name(), "d4");
    assert_eq!(Dice::D100.name(), "d100");
    assert_eq!(SkillLevel::D4_2.name(), "d4-2");
    assert_eq!(SkillLevel::D12.name(), "d12");
    assert_eq!(Dice::D4.value(), 4);
    assert_eq!(Dice::D100.value(), 100);
}

#[test]
fn modifier_labels() {
    assert_eq!(DiceWithModifier::new(Dice::D4, -2).label(), "d4-2");
    assert_eq!(DiceWithModifier::no_modifier(Dice::D6).label(), "d6");
    assert_eq!(DiceWithModifier::new(Dice::D8, 1).label(), "d8+1");
    assert_eq!(DiceWithModifier::new(Dice::D100, -120).label(), "d100-120");
    assert_eq!(DiceWithModifier::new(Dice::D20, 15).label(), "d20+15");
    assert_eq!(DiceWithModifier::new(Dice::D4, -128).label(), "d4-128");
}

#[test]
fn skill_level_conversions() {
    assert_eq!(DiceWithModifier::from(SkillLevel::D4_2), DiceWithModifier::new(Dice::D4, -2));
    assert_eq!(DiceWithModifier::from(SkillLevel::D8), DiceWithModifier::no_modifier(Dice::D8));
    assert_eq!(Dice::from(SkillLevel::D4_2), Dice::D4);
    assert_eq!(Dice::from(SkillLevel::D12), Dice::D12);
    // Dice to skill level is lossy only above the ladder's top.
    assert_eq!(SkillLevel::from(Dice::D4), SkillLevel::D4);
    assert_eq!(SkillLevel::from(Dice::D10), SkillLevel::D10);
    assert_eq!(SkillLevel::from(Dice::D20), SkillLevel::D12);
    assert_eq!(SkillLevel::from(Dice::D100), SkillLevel::D12);
}
