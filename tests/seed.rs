use backend::preferences::parse_birthdate;
use backend::preferences::AgeRange;
use backend::seed::{get_seed_profiles, to_profile_request};

#[test]
fn thirty_sample_users_with_full_data() {
    let all = get_seed_profiles();
    assert_eq!(all.len(), 30);
    assert_eq!(all.iter().filter(|p| p.gender == "Woman").count(), 15);
    assert_eq!(all.iter().filter(|p| p.gender == "Man").count(), 15);
    for p in &all {
        assert_eq!(p.images.len(), 6);
        assert_eq!(p.prompts.len(), 3);
    }
    assert_eq!(all[0].name, "Ana");
    assert_eq!(all[0].phone, "+1111111111");
}

#[test]
fn sample_profile_becomes_a_full_update() {
    let all = get_seed_profiles();
    let r = to_profile_request(&all[0]);
    assert_eq!(r.name.as_deref(), Some("Ana"));
    assert_eq!(r.gender.as_deref(), Some("Woman"));
    assert_eq!(r.height, Some(168));
    assert_eq!(r.birthdate.as_deref(), Some("1997-04-30"));
    assert_eq!(r.school.as_deref(), Some("School of Dramatic Arts"));
}

#[test]
fn sample_preferences_set_every_dimension() {
    let all = get_seed_profiles();
    let p = all[0].preferences.to_preferences();
    assert_eq!(p.age_range, Some(AgeRange { min: 25, max: 40 }));
    assert_eq!(p.distance_max, Some(50));
    assert_eq!(p.gender_preference, vec!["Man".to_string()]);
    assert!(p.ethnicity_preference.is_empty());
    assert!(p.religion_preference.is_empty());
}

#[test]
fn sample_users_have_distinct_contacts_and_sane_data() {
    let all = get_seed_profiles();
    for (i, a) in all.iter().enumerate() {
        assert!(!a.name.is_empty() && !a.phone.is_empty() && !a.email.is_empty());
        assert!(parse_birthdate(&a.birthdate).is_some(), "{}", a.birthdate);
        let (lat, lon) = a.location.split_once(',').unwrap();
        let (lat, lon): (f64, f64) = (lat.parse().unwrap(), lon.parse().unwrap());
        assert!((-90.0..=90.0).contains(&lat) && (-180.0..=180.0).contains(&lon));
        assert!(a.height > 0);
        assert!(a.preferences.age_min <= a.preferences.age_max);
        for b in &all[i + 1..] {
            assert_ne!(a.phone, b.phone);
            assert_ne!(a.email, b.email);
        }
        let woman = i < 5 || (10..20).contains(&i);
        assert_eq!(a.gender, if woman { "Woman" } else { "Man" });
    }
    assert_eq!(all[0].email, "ana@example.com");
    assert_eq!(all[0].location, "34.0522,-118.2437");
}
