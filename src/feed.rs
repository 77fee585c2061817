use vstd::prelude::*;

use crate::error::CoreError;
use crate::ids::{UserId, user_id_text, uuid_text};
use crate::ledger::{Interaction, Ledger, has_row};
use crate::preferences::{AgeRange, Date, Preferences, age, age_on, parse_birthdate, parse_date};
use crate::profile::{ProfileDetails, UserImage, UserProfile};

verus! {

/// A profile of the population offered to the candidate selector.
#[derive(Debug)]
pub struct SuggestionProfile {
    pub user_id: UserId,
    pub name: Option<String>,
    pub bio: Option<String>,
    pub birthdate: Option<String>,
    pub pronouns: Option<String>,
    pub gender: Option<String>,
    pub sexuality: Option<String>,
    pub height: Option<i32>,
    pub location: Option<String>,
    pub job: Option<String>,
    pub company: Option<String>,
    pub school: Option<String>,
    pub ethnicity: Option<String>,
    pub politics: Option<String>,
    pub religion: Option<String>,
    pub relationship_type: Option<String>,
    pub dating_intention: Option<String>,
    pub drinks: Option<String>,
    pub smokes: Option<String>,
    pub images: Option<Vec<UserImage>>,
    /// Distance from the viewer in kilometres, where both locations are known.
    pub distance_km: Option<u32>,
}

/// The profiles of a feed, in the order they are offered.
#[derive(Debug)]
pub struct FeedResponse {
    pub profiles: Vec<UserProfile>,
}

/// A list filter admits `value`: the list is empty, or holds the value.
pub open spec fn admits(list: Seq<String>, value: Option<String>) -> bool {
    list.len() == 0 || (value is Some && exists|i: int|
        0 <= i < list.len() && (#[trigger] list[i])@ == value->0@)
}

/// The age filter admits a birthdate: no range is set, or the birthdate reads
/// as a date and the age on `today` lies in the range.
pub open spec fn age_admits(range: Option<AgeRange>, birthdate: Option<String>, today: Date) -> bool {
    match range {
        None => true,
        Some(r) => match birthdate {
            Some(b) => match parse_date(b@) {
                Some(d) => r.min <= age_on(d, today) <= r.max,
                None => false,
            },
            None => false,
        },
    }
}

/// The distance filter admits a distance: no maximum is set, or the distance
/// is known and at most the maximum.
pub open spec fn distance_admits(max: Option<i32>, distance: Option<u32>) -> bool {
    match max {
        None => true,
        Some(m) => distance is Some && distance->0 <= m,
    }
}

/// `p` may be shown to `viewer`: it is someone else, whom the viewer has not
/// acted on yet, and every filter of `prefs` admits it.
pub open spec fn eligible(
    viewer: UserId,
    prefs: Preferences,
    today: Date,
    p: SuggestionProfile,
    rows: Seq<Interaction>,
) -> bool {
    &&& p.user_id != viewer
    &&& !has_row(rows, viewer, p.user_id)
    &&& admits(prefs.gender_preference@, p.gender)
    &&& admits(prefs.ethnicity_preference@, p.ethnicity)
    &&& admits(prefs.religion_preference@, p.religion)
    &&& age_admits(prefs.age_range, p.birthdate, today)
    &&& distance_admits(prefs.distance_max, p.distance_km)
}

/// The eligible profiles of `ps`, in their order.
pub open spec fn select(
    viewer: UserId,
    prefs: Preferences,
    today: Date,
    ps: Seq<SuggestionProfile>,
    rows: Seq<Interaction>,
) -> Seq<SuggestionProfile>
    decreases ps.len(),
{
    if ps.len() == 0 {
        Seq::empty()
    } else {
        let rest = select(viewer, prefs, today, ps.drop_last(), rows);
        if eligible(viewer, prefs, today, ps.last(), rows) {
            rest.push(ps.last())
        } else {
            rest
        }
    }
}

/// The details a feed shows of a profile.
pub open spec fn details_of(p: SuggestionProfile) -> ProfileDetails {
    ProfileDetails {
        name: p.name,
        bio: p.bio,
        birthdate: p.birthdate,
        pronouns: p.pronouns,
        gender: p.gender,
        sexuality: p.sexuality,
        height: p.height,
        location: p.location,
        job: p.job,
        company: p.company,
        school: p.school,
        ethnicity: p.ethnicity,
        politics: p.politics,
        religion: p.religion,
        relationship_type: p.relationship_type,
        dating_intention: p.dating_intention,
        drinks: p.drinks,
        smokes: p.smokes,
    }
}

/// `u` shows `p` in a feed.
pub open spec fn shows(u: UserProfile, p: SuggestionProfile) -> bool {
    &&& u.id@ == uuid_text(p.user_id)
    &&& u.images == p.images
    &&& u.prompts is None
    &&& u.details == Some(details_of(p))
}

/// `v` in reverse order.
pub fn reversed<T>(v: Vec<T>) -> (r: Vec<T>)
    ensures
        r@ == v@.reverse(),
{
    let ghost orig = v@;
    let mut rest = v;
    let mut out: Vec<T> = Vec::new();
    while rest.len() > 0
        invariant
            out@ + rest@.reverse() == orig.reverse(),
        decreases rest@.len(),
    {
        let ghost before = rest@;
        let x = rest.pop().unwrap();
        assert(before.reverse() =~= seq![x] + rest@.reverse());
        out.push(x);
        assert(out@ + rest@.reverse() =~= orig.reverse());
    }
    assert(rest@.reverse() =~= Seq::<T>::empty());
    assert(out@ =~= out@ + rest@.reverse());
    out
}

/// Whether the list filter admits `value`.
pub fn admits_value(list: &Vec<String>, value: &Option<String>) -> (r: bool)
    ensures
        r == admits(list@, *value),
{
    if list.len() == 0 {
        return true;
    }
    match value {
        None => false,
        Some(x) => {
            let mut i: usize = 0;
            while i < list.len()
                invariant
                    i <= list@.len(),
                    *value == Some(*x),
                    forall|j: int| 0 <= j < i ==> (#[trigger] list@[j])@ != x@,
                decreases list@.len() - i,
            {
                if list[i] == *x {
                    assert((list@[i as int])@ == value->0@);
                    return true;
                }
                i = i + 1;
            }
            false
        },
    }
}

/// Whether the age filter admits `birthdate` on `today`.
pub fn age_admitted(range: Option<AgeRange>, birthdate: &Option<String>, today: Date) -> (r: bool)
    ensures
        r == age_admits(range, *birthdate, today),
{
    match range {
        None => true,
        Some(r) => match birthdate {
            Some(b) => match parse_birthdate(b.as_str()) {
                Some(d) => {
                    let a = age(d, today);
                    r.min as i64 <= a && a <= r.max as i64
                },
                None => false,
            },
            None => false,
        },
    }
}

/// Whether the distance filter admits `distance`.
pub fn distance_admitted(max: Option<i32>, distance: Option<u32>) -> (r: bool)
    ensures
        r == distance_admits(max, distance),
{
    match max {
        None => true,
        Some(m) => match distance {
            Some(d) => d as i64 <= m as i64,
            None => false,
        },
    }
}

/// Whether `p` may be shown to `viewer`.
pub fn is_eligible(
    viewer: UserId,
    prefs: &Preferences,
    today: Date,
    p: &SuggestionProfile,
    ledger: &Ledger,
) -> (r: bool)
    ensures
        r == eligible(viewer, *prefs, today, *p, ledger@.rows),
{
    p.user_id != viewer && !ledger.has_interacted(viewer, p.user_id) && admits_value(
        &prefs.gender_preference,
        &p.gender,
    ) && admits_value(&prefs.ethnicity_preference, &p.ethnicity) && admits_value(
        &prefs.religion_preference,
        &p.religion,
    ) && age_admitted(prefs.age_range, &p.birthdate, today) && distance_admitted(
        prefs.distance_max,
        p.distance_km,
    )
}

/// The profiles of `profiles` that `viewer` may be shown under `prefs`, in
/// their order: not the viewer, no one the viewer has acted on, and only
/// those every filter admits.
pub fn get_candidates(
    viewer: UserId,
    prefs: &Preferences,
    today: Date,
    profiles: Vec<SuggestionProfile>,
    ledger: &Ledger,
) -> (r: Vec<SuggestionProfile>)
    ensures
        r@ == select(viewer, *prefs, today, profiles@, ledger@.rows),
{
    let ghost orig = profiles@;
    let ghost rows = ledger@.rows;
    let mut rest = profiles;
    let mut kept: Vec<SuggestionProfile> = Vec::new();
    assert(kept@.reverse() =~= Seq::<SuggestionProfile>::empty());
    assert(select(viewer, *prefs, today, rest@, rows) + kept@.reverse() =~= select(
        viewer,
        *prefs,
        today,
        orig,
        rows,
    ));
    while rest.len() > 0
        invariant
            rows == ledger@.rows,
            select(viewer, *prefs, today, rest@, rows) + kept@.reverse() == select(
                viewer,
                *prefs,
                today,
                orig,
                rows,
            ),
        decreases rest@.len(),
    {
        let ghost before = rest@;
        let ghost kept_before = kept@;
        let p = rest.pop().unwrap();
        assert(before.drop_last() == rest@);
        if is_eligible(viewer, prefs, today, &p, ledger) {
            kept.push(p);
            assert(kept@.reverse() =~= seq![p] + kept_before.reverse());
        }
        assert(select(viewer, *prefs, today, rest@, rows) + kept@.reverse() =~= select(
            viewer,
            *prefs,
            today,
            before,
            rows,
        ) + kept_before.reverse());
    }
    assert(select(viewer, *prefs, today, rest@, rows) =~= Seq::<SuggestionProfile>::empty());
    assert(kept@.reverse() =~= select(viewer, *prefs, today, rest@, rows) + kept@.reverse());
    reversed(kept)
}

/// The feed entry for `p`.
pub fn to_user_profile(p: SuggestionProfile) -> (r: UserProfile)
    ensures
        shows(r, p),
{
    UserProfile {
        id: user_id_text(p.user_id),
        images: p.images,
        prompts: None,
        details: Some(
            ProfileDetails {
                name: p.name,
                bio: p.bio,
                birthdate: p.birthdate,
                pronouns: p.pronouns,
                gender: p.gender,
                sexuality: p.sexuality,
                height: p.height,
                location: p.location,
                job: p.job,
                company: p.company,
                school: p.school,
                ethnicity: p.ethnicity,
                politics: p.politics,
                religion: p.religion,
                relationship_type: p.relationship_type,
                dating_intention: p.dating_intention,
                drinks: p.drinks,
                smokes: p.smokes,
            },
        ),
    }
}

/// The feed showing `profiles`, in their order.
pub fn feed_response(profiles: Vec<SuggestionProfile>) -> (r: FeedResponse)
    ensures
        r.profiles@.len() == profiles@.len(),
        forall|i: int| 0 <= i < profiles@.len() ==> shows(#[trigger] r.profiles@[i], profiles@[i]),
{
    let ghost orig = profiles@;
    let mut rest = profiles;
    let mut out: Vec<UserProfile> = Vec::new();
    while rest.len() > 0
        invariant
            rest@.len() + out@.len() == orig.len(),
            rest@ == orig.subrange(0, rest@.len() as int),
            forall|i: int|
                0 <= i < out@.len() ==> shows(
                    #[trigger] out@[i],
                    orig[orig.len() - 1 - i],
                ),
        decreases rest@.len(),
    {
        let ghost before = rest@;
        let p = rest.pop().unwrap();
        assert(p == orig[orig.len() - 1 - out@.len()]);
        assert(rest@ =~= orig.subrange(0, rest@.len() as int));
        out.push(to_user_profile(p));
    }
    let shown = reversed(out);
    assert forall|i: int| 0 <= i < orig.len() implies shows(#[trigger] shown@[i], orig[i]) by {
        assert(shown@[i] == out@[orig.len() - 1 - i]);
    }
    FeedResponse { profiles: shown }
}

/// The feed of `viewer`: the candidates of `profiles` under the viewer's
/// preferences, as clients see them. Fails with `NotFound` for an unknown
/// viewer and with `PreferencesNotSet` when no preferences are stored.
pub fn get_feed(
    viewer: UserId,
    prefs: Option<Preferences>,
    today: Date,
    profiles: Vec<SuggestionProfile>,
    ledger: &Ledger,
) -> (r: Result<FeedResponse, CoreError>)
    ensures
        !ledger@.users.contains(viewer) ==> r == Err::<FeedResponse, CoreError>(
            CoreError::NotFound,
        ),
        ledger@.users.contains(viewer) && prefs is None ==> r == Err::<FeedResponse, CoreError>(
            CoreError::PreferencesNotSet,
        ),
        ledger@.users.contains(viewer) && prefs is Some ==> ({
            let chosen = select(viewer, prefs->0, today, profiles@, ledger@.rows);
            &&& r is Ok
            &&& r->Ok_0.profiles@.len() == chosen.len()
            &&& forall|i: int|
                0 <= i < chosen.len() ==> shows(#[trigger] r->Ok_0.profiles@[i], chosen[i])
        }),
{
    if !ledger.has_user(viewer) {
        return Err(CoreError::NotFound);
    }
    match prefs {
        None => Err(CoreError::PreferencesNotSet),
        Some(p) => {
            let chosen = get_candidates(viewer, &p, today, profiles, ledger);
            Ok(feed_response(chosen))
        },
    }
}

} // verus!
