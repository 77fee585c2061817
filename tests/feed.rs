use backend::error::CoreError;
use backend::feed::{get_candidates, get_feed, SuggestionProfile};
use backend::ledger::Ledger;
use backend::preferences::{age, parse_birthdate, AgeRange, Date, Preferences};

const VIEWER: u128 = 1;
const ANA: u128 = 2;
const BEN: u128 = 3;
const CAM: u128 = 4;

fn profile(id: u128, gender: &str) -> SuggestionProfile {
    SuggestionProfile {
        user_id: id,
        name: Some(format!("user{}", id)),
        bio: None,
        birthdate: Some("1995-03-15".to_string()),
        pronouns: None,
        gender: Some(gender.to_string()),
        sexuality: None,
        height: Some(170),
        location: Some("34.0522,-118.2437".to_string()),
        job: None,
        company: None,
        school: None,
        ethnicity: Some("White".to_string()),
        politics: None,
        religion: Some("Agnostic".to_string()),
        relationship_type: None,
        dating_intention: None,
        drinks: None,
        smokes: None,
        images: None,
        distance_km: Some(10),
    }
}

fn open_prefs() -> Preferences {
    Preferences {
        age_range: None,
        distance_max: None,
        gender_preference: vec![],
        ethnicity_preference: vec![],
        religion_preference: vec![],
    }
}

fn today() -> Date {
    Date { year: 2025, month: 6, day: 1 }
}

fn ledger() -> Ledger {
    let mut l = Ledger::new();
    for id in [VIEWER, ANA, BEN, CAM] {
        l.add_user(id);
    }
    l
}

fn ids(ps: &[SuggestionProfile]) -> Vec<u128> {
    ps.iter().map(|p| p.user_id).collect()
}

#[test]
fn feed_excludes_viewer_and_keeps_order() {
    let l = ledger();
    let ps = vec![profile(ANA, "Woman"), profile(VIEWER, "Man"), profile(BEN, "Man"), profile(CAM, "Woman")];
    let r = get_candidates(VIEWER, &open_prefs(), today(), ps, &l);
    assert_eq!(ids(&r), vec![ANA, BEN, CAM]);
}

#[test]
fn liked_user_leaves_the_feed_under_any_preferences() {
    let mut l = ledger();
    l.record_interaction(VIEWER, BEN, "like".to_string(), None, None, 1).unwrap();
    for prefs in [
        open_prefs(),
        Preferences { gender_preference: vec!["Man".to_string()], ..open_prefs() },
        Preferences { age_range: Some(AgeRange { min: 18, max: 99 }), distance_max: Some(500), ..open_prefs() },
    ] {
        let ps = vec![profile(ANA, "Man"), profile(BEN, "Man"), profile(CAM, "Man")];
        let r = get_candidates(VIEWER, &prefs, today(), ps, &l);
        assert_eq!(ids(&r), vec![ANA, CAM]);
    }
}

#[test]
fn passed_user_leaves_the_feed_too() {
    let mut l = ledger();
    l.record_interaction(VIEWER, ANA, "pass".to_string(), None, None, 1).unwrap();
    let ps = vec![profile(ANA, "Woman"), profile(BEN, "Man")];
    assert_eq!(ids(&get_candidates(VIEWER, &open_prefs(), today(), ps, &l)), vec![BEN]);
}

#[test]
fn others_likes_do_not_hide_a_profile() {
    let mut l = ledger();
    l.record_interaction(ANA, BEN, "like".to_string(), None, None, 1).unwrap();
    l.record_interaction(BEN, VIEWER, "like".to_string(), None, None, 2).unwrap();
    let ps = vec![profile(BEN, "Man")];
    assert_eq!(ids(&get_candidates(VIEWER, &open_prefs(), today(), ps, &l)), vec![BEN]);
}

#[test]
fn gender_list_keeps_out_other_genders() {
    let l = ledger();
    let prefs = Preferences { gender_preference: vec!["Woman".to_string()], ..open_prefs() };
    let ps = vec![profile(ANA, "Woman"), profile(BEN, "Man"), profile(CAM, "Non-binary")];
    assert_eq!(ids(&get_candidates(VIEWER, &prefs, today(), ps, &l)), vec![ANA]);
}

#[test]
fn empty_gender_list_does_not_filter() {
    let l = ledger();
    let ps = vec![profile(ANA, "Woman"), profile(BEN, "Man"), profile(CAM, "Non-binary")];
    assert_eq!(ids(&get_candidates(VIEWER, &open_prefs(), today(), ps, &l)), vec![ANA, BEN, CAM]);
}

#[test]
fn missing_gender_is_excluded_only_when_filtering() {
    let l = ledger();
    let mut p = profile(ANA, "Woman");
    p.gender = None;
    let prefs = Preferences { gender_preference: vec!["Woman".to_string()], ..open_prefs() };
    assert!(get_candidates(VIEWER, &prefs, today(), vec![p], &l).is_empty());
    let mut q = profile(ANA, "Woman");
    q.gender = None;
    assert_eq!(get_candidates(VIEWER, &open_prefs(), today(), vec![q], &l).len(), 1);
}

#[test]
fn ethnicity_and_religion_lists_filter() {
    let l = ledger();
    let prefs = Preferences {
        ethnicity_preference: vec!["Latina".to_string(), "White".to_string()],
        religion_preference: vec!["Catholic".to_string()],
        ..open_prefs()
    };
    let mut catholic = profile(ANA, "Woman");
    catholic.religion = Some("Catholic".to_string());
    let agnostic = profile(BEN, "Man");
    let mut asian = profile(CAM, "Woman");
    asian.religion = Some("Catholic".to_string());
    asian.ethnicity = Some("Asian".to_string());
    let r = get_candidates(VIEWER, &prefs, today(), vec![catholic, agnostic, asian], &l);
    assert_eq!(ids(&r), vec![ANA]);
}

#[test]
fn age_range_is_inclusive_and_needs_a_birthdate() {
    let l = ledger();
    let prefs = Preferences { age_range: Some(AgeRange { min: 30, max: 30 }), ..open_prefs() };
    // Born 1995-03-15: 30 on 2025-06-01.
    let thirty = profile(ANA, "Woman");
    let mut young = profile(BEN, "Man");
    young.birthdate = Some("1995-06-02".to_string());
    let mut unknown = profile(CAM, "Woman");
    unknown.birthdate = None;
    let r = get_candidates(VIEWER, &prefs, today(), vec![thirty, young, unknown], &l);
    assert_eq!(ids(&r), vec![ANA]);
}

#[test]
fn malformed_birthdate_is_excluded_by_age_filter() {
    let l = ledger();
    let prefs = Preferences { age_range: Some(AgeRange { min: 0, max: 200 }), ..open_prefs() };
    let mut p = profile(ANA, "Woman");
    p.birthdate = Some("15/03/1995".to_string());
    assert!(get_candidates(VIEWER, &prefs, today(), vec![p], &l).is_empty());
}

#[test]
fn distance_filter_needs_a_known_distance() {
    let l = ledger();
    let prefs = Preferences { distance_max: Some(10), ..open_prefs() };
    let near = profile(ANA, "Woman");
    let mut far = profile(BEN, "Man");
    far.distance_km = Some(11);
    let mut unknown = profile(CAM, "Woman");
    unknown.distance_km = None;
    assert_eq!(ids(&get_candidates(VIEWER, &prefs, today(), vec![near, far, unknown], &l)), vec![ANA]);
}

#[test]
fn feed_without_preferences_is_an_error() {
    let l = ledger();
    let r = get_feed(VIEWER, None, today(), vec![profile(ANA, "Woman")], &l);
    assert_eq!(r.unwrap_err(), CoreError::PreferencesNotSet);
}

#[test]
fn feed_for_unknown_viewer_is_not_found() {
    let l = ledger();
    let r = get_feed(99, Some(open_prefs()), today(), vec![], &l);
    assert_eq!(r.unwrap_err(), CoreError::NotFound);
}

#[test]
fn feed_shows_profiles_with_uuid_ids_and_details() {
    let l = ledger();
    let r = get_feed(VIEWER, Some(open_prefs()), today(), vec![profile(ANA, "Woman"), profile(BEN, "Man")], &l).unwrap();
    assert_eq!(r.profiles.len(), 2);
    assert_eq!(r.profiles[0].id, "00000000-0000-0000-0000-000000000002");
    assert_eq!(r.profiles[1].id, "00000000-0000-0000-0000-000000000003");
    let d = r.profiles[0].details.as_ref().unwrap();
    assert_eq!(d.gender.as_deref(), Some("Woman"));
    assert_eq!(d.name.as_deref(), Some("user2"));
    assert!(r.profiles[0].prompts.is_none());
}

#[test]
fn birthdates_parse_and_ages_count_full_years() {
    assert_eq!(parse_birthdate("1995-03-15"), Some(Date { year: 1995, month: 3, day: 15 }));
    assert_eq!(parse_birthdate("1995-13-15"), None);
    assert_eq!(parse_birthdate("1995-00-15"), None);
    assert_eq!(parse_birthdate("1995-03-32"), None);
    assert_eq!(parse_birthdate("1995-3-15"), None);
    assert_eq!(parse_birthdate("19a5-03-15"), None);
    assert_eq!(parse_birthdate(""), None);
    let b = Date { year: 1995, month: 3, day: 15 };
    assert_eq!(age(b, Date { year: 2025, month: 3, day: 14 }), 29);
    assert_eq!(age(b, Date { year: 2025, month: 3, day: 15 }), 30);
    assert_eq!(age(b, Date { year: 2025, month: 1, day: 1 }), 29);
    assert_eq!(age(b, Date { year: 2025, month: 12, day: 31 }), 30);
}
