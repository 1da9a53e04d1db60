use savage_core::dice::SkillLevel;
use savage_core::races::{Gender, PlayableRace, Race};
use savage_core::sex::Sex;
use savage_core::skills::Skill;

#[test]
fn fur_grows_on_gazans_and_lagnams() {
    assert!(Race::Gazan.has_fur());
    assert!(Race::Lagnam.has_fur());
    assert!(!Race::Nyarnik.has_fur());
    assert!(!Race::Totik.has_fur());
    assert!(!Race::Bug.has_fur());
}

#[test]
fn free_skills_follow_the_race() {
    let gazan = Race::Gazan.free_skills();
    assert_eq!(gazan.get(Skill::Climbing), SkillLevel::D6);
    assert_eq!(gazan.get(Skill::Swimming), SkillLevel::D4_2);
    assert_eq!(gazan.len(), 1);

    let totik = Race::Totik.free_skills();
    assert_eq!(totik.get(Skill::Swimming), SkillLevel::D6);
    assert_eq!(totik.get(Skill::Climbing), SkillLevel::D4_2);

    let bug = Race::Bug.free_skills();
    assert_eq!(bug.get(Skill::Climbing), SkillLevel::D4_2);
    assert_eq!(bug.len(), 0);
}

#[test]
fn skills_store_each_key_once() {
    let mut skills = Race::Gazan.free_skills();
    skills.insert(Skill::Climbing, SkillLevel::D8);
    assert_eq!(skills.get(Skill::Climbing), SkillLevel::D8);
    assert_eq!(skills.len(), 1);
    skills.insert(Skill::Notice, SkillLevel::D4);
    assert_eq!(skills.get(Skill::Notice), SkillLevel::D4);
    assert_eq!(skills.get(Skill::Climbing), SkillLevel::D8);
    assert_eq!(skills.len(), 2);
}

#[test]
fn race_iteration_order() {
    let all = Race::iterator();
    assert_eq!(
        all,
        vec![Race::Gazan, Race::Lagnam, Race::Nyarnik, Race::Totik, Race::Bug]
    );
}

#[test]
fn race_names() {
    assert_eq!(Race::Gazan.name(), "gazan");
    assert_eq!(Race::Bug.name(), "Bug");
    assert_eq!(PlayableRace::Lagnam.name(), "Lagnam");
}

#[test]
fn playable_races_cycle() {
    assert_eq!(PlayableRace::Gazan.next(), PlayableRace::Nyarnik);
    assert_eq!(PlayableRace::Lagnam.next(), PlayableRace::Gazan);
    assert_eq!(PlayableRace::Gazan.prev(), PlayableRace::Lagnam);
    assert_eq!(PlayableRace::Totik.prev(), PlayableRace::Nyarnik);
    // A full cycle comes back around.
    let mut r = PlayableRace::Gazan;
    for _ in 0..4 {
        r = r.next();
    }
    assert_eq!(r, PlayableRace::Gazan);
}

#[test]
fn playable_and_full_races_convert() {
    assert_eq!(Race::from(PlayableRace::Totik), Race::Totik);
    assert_eq!(PlayableRace::from_race(Race::Nyarnik), PlayableRace::Nyarnik);
}

#[test]
fn random_draws_stay_in_their_sets() {
    for _ in 0..50 {
        let r = Race::random();
        assert!(Race::iterator().contains(&r));
        let p = PlayableRace::random();
        assert!(Race::from(p) != Race::Bug);
        assert!(Sex::random() != Sex::Undefined);
    }
}

#[test]
fn sex_defaults_and_converts() {
    assert_eq!(Sex::default(), Sex::Female);
    assert_eq!(Sex::from(Gender::Male), Sex::Male);
    assert_eq!(Sex::from(Gender::Female), Sex::Female);
    assert_eq!(Sex::from(Gender::Custom("x".to_string())), Sex::Undefined);
    assert_eq!(Gender::from(Sex::Male), Gender::Male);
    assert_eq!(Gender::from(Sex::Female), Gender::Female);
    assert_eq!(Gender::from(Sex::Undefined), Gender::Custom("None".to_string()));
}
