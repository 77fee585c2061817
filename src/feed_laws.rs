use vstd::prelude::*;

use crate::feed::{SuggestionProfile, admits, eligible, select};
use crate::ids::UserId;
use crate::ledger::{Interaction, InteractionContext, LedgerView, has_row, record_result, record_state};
use crate::ledger_laws::lemma_record_effect;
use crate::preferences::{Date, Preferences};

verus! {

/// Every profile that `select` keeps is eligible.
pub proof fn lemma_selected_eligible(
    viewer: UserId,
    prefs: Preferences,
    today: Date,
    ps: Seq<SuggestionProfile>,
    rows: Seq<Interaction>,
)
    ensures
        forall|i: int|
            0 <= i < select(viewer, prefs, today, ps, rows).len() ==> eligible(
                viewer,
                prefs,
                today,
                #[trigger] select(viewer, prefs, today, ps, rows)[i],
                rows,
            ),
    decreases ps.len(),
{
    if ps.len() > 0 {
        let rest = select(viewer, prefs, today, ps.drop_last(), rows);
        lemma_selected_eligible(viewer, prefs, today, ps.drop_last(), rows);
        let all = select(viewer, prefs, today, ps, rows);
        assert forall|i: int| 0 <= i < all.len() implies eligible(
            viewer,
            prefs,
            today,
            #[trigger] all[i],
            rows,
        ) by {
            if i < rest.len() {
                assert(all[i] == rest[i]);
            }
        }
    }
}

/// Once `a` has recorded any interaction toward `b`, a feed of `a` offers no
/// profile of `b`, whatever the preferences and the profile population.
pub proof fn law_acted_on_user_leaves_feed(
    v: LedgerView,
    a: UserId,
    b: UserId,
    action: String,
    context: Option<InteractionContext>,
    comment: Option<String>,
    now: i64,
    prefs: Preferences,
    today: Date,
    ps: Seq<SuggestionProfile>,
)
    requires
        v.valid(),
        record_result(v, a, b, action@) is Ok,
    ensures
        ({
            let rows = record_state(v, a, b, action, context, comment, now).rows;
            let chosen = select(a, prefs, today, ps, rows);
            forall|i: int| 0 <= i < chosen.len() ==> (#[trigger] chosen[i]).user_id != b
        }),
{
    lemma_record_effect(v, a, b, action, context, comment, now);
    let rows = record_state(v, a, b, action, context, comment, now).rows;
    lemma_selected_eligible(a, prefs, today, ps, rows);
    assert(has_row(rows, a, b));
}

/// With a nonempty gender list, every profile kept has a gender, and the list
/// holds it: a profile of any other gender never appears.
pub proof fn law_gender_list_filters(
    viewer: UserId,
    prefs: Preferences,
    today: Date,
    ps: Seq<SuggestionProfile>,
    rows: Seq<Interaction>,
)
    requires
        prefs.gender_preference@.len() > 0,
    ensures
        ({
            let chosen = select(viewer, prefs, today, ps, rows);
            forall|i: int|
                0 <= i < chosen.len() ==> (#[trigger] chosen[i]).gender is Some && exists|j: int|
                    0 <= j < prefs.gender_preference@.len() && (
                    #[trigger] prefs.gender_preference@[j])@ == chosen[i].gender->0@
        }),
{
    lemma_selected_eligible(viewer, prefs, today, ps, rows);
}

/// With an empty gender list a profile's gender plays no part: the profile
/// is eligible exactly when it would be with any other gender.
pub proof fn law_empty_gender_list_ignores_gender(
    viewer: UserId,
    prefs: Preferences,
    today: Date,
    p: SuggestionProfile,
    gender: Option<String>,
    rows: Seq<Interaction>,
)
    requires
        prefs.gender_preference@.len() == 0,
    ensures
        eligible(viewer, prefs, today, p, rows) == eligible(
            viewer,
            prefs,
            today,
            SuggestionProfile { gender: gender, ..p },
            rows,
        ),
{
    assert(admits(prefs.gender_preference@, p.gender));
    assert(admits(prefs.gender_preference@, gender));
}

} // verus!
