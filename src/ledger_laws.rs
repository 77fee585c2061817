use vstd::prelude::*;

use crate::error::CoreError;
use crate::ids::UserId;
use crate::ledger::{
    Interaction, InteractionContext, InteractionStatus, LedgerView, PairState, action_of, has_row, is_positive,
    like_word, pair_count, pair_state_of, positive_row, record_result, record_state, row_index,
    same_pair, status_of, upsert, rows_without_pair, rest_origin, lemma_rest_rows,
};

verus! {

/// In a valid ledger the row of a pair, if any, is the one at `row_index`.
proof fn lemma_row_unique(v: LedgerView, from: UserId, to: UserId, k: int)
    requires
        v.valid(),
        0 <= k < v.rows.len(),
        same_pair(v.rows[k], from, to),
    ensures
        has_row(v.rows, from, to),
        row_index(v.rows, from, to) == k,
{
    let i = row_index(v.rows, from, to);
    if i < k {
        assert(!same_pair(v.rows[i], v.rows[k].from_user_id, v.rows[k].to_user_id));
    } else if i > k {
        assert(!same_pair(v.rows[k], v.rows[i].from_user_id, v.rows[i].to_user_id));
    }
}

/// With at most one row per pair, a pair that has a row has exactly one.
proof fn lemma_count_one(rows: Seq<Interaction>, from: UserId, to: UserId)
    requires
        has_row(rows, from, to),
        forall|i: int, j: int|
            0 <= i < j < rows.len() ==> !same_pair(
                #[trigger] rows[i],
                #[trigger] rows[j].from_user_id,
                rows[j].to_user_id,
            ),
    ensures
        pair_count(rows, from, to) == 1,
    decreases rows.len(),
{
    let n = rows.len();
    let pre = rows.drop_last();
    if same_pair(rows.last(), from, to) {
        lemma_count_zero(pre, from, to);
        assert forall|i: int| 0 <= i < pre.len() implies !same_pair(#[trigger] pre[i], from, to) by {
            assert(!same_pair(rows[i], rows[n - 1].from_user_id, rows[n - 1].to_user_id));
        }
    } else {
        let k = choose|k: int| 0 <= k < rows.len() && same_pair(#[trigger] rows[k], from, to);
        assert(pre[k] == rows[k]);
        assert forall|i: int, j: int| 0 <= i < j < pre.len() implies !same_pair(
            #[trigger] pre[i],
            #[trigger] pre[j].from_user_id,
            pre[j].to_user_id,
        ) by {
            assert(!same_pair(rows[i], rows[j].from_user_id, rows[j].to_user_id));
        }
        lemma_count_one(pre, from, to);
    }
}

/// A sequence without a row for the pair counts none.
proof fn lemma_count_zero(rows: Seq<Interaction>, from: UserId, to: UserId)
    requires
        forall|i: int| 0 <= i < rows.len() ==> !same_pair(#[trigger] rows[i], from, to),
    ensures
        pair_count(rows, from, to) == 0,
    decreases rows.len(),
{
    if rows.len() > 0 {
        let pre = rows.drop_last();
        assert forall|i: int| 0 <= i < pre.len() implies !same_pair(#[trigger] pre[i], from, to) by {
            assert(pre[i] == rows[i]);
        }
        lemma_count_zero(pre, from, to);
        assert(!same_pair(rows[rows.len() - 1], from, to));
    }
}

/// What a successful record does: the recorded pair carries the new action,
/// every other pair keeps its rows and positivity, and the ledger stays valid.
pub proof fn lemma_record_effect(
    v: LedgerView,
    from: UserId,
    to: UserId,
    action: String,
    context: Option<InteractionContext>,
    comment: Option<String>,
    now: i64,
)
    requires
        v.valid(),
        record_result(v, from, to, action@) is Ok,
    ensures
        ({
            let w = record_state(v, from, to, action, context, comment, now);
            &&& w.valid()
            &&& w.users == v.users
            &&& has_row(w.rows, from, to)
            &&& action_of(w.rows, from, to) == Some(action@)
            &&& positive_row(w.rows, from, to) == is_positive(action@)
            &&& forall|x: UserId, y: UserId|
                !(x == from && y == to) ==> (#[trigger] positive_row(w.rows, x, y) == positive_row(
                    v.rows,
                    x,
                    y,
                ) && has_row(w.rows, x, y) == has_row(v.rows, x, y))
        }),
{
    let w = upsert(v, from, to, action, context, comment, now);
    assert(record_state(v, from, to, action, context, comment, now) == w);
    let rest = rows_without_pair(v.rows, from, to);
    lemma_rest_rows(v, from, to);
    let k: int = rest.len() as int;
    assert(w.rows.len() == k + 1);
    assert(same_pair(w.rows[k], from, to));
    assert(w.rows[k].action == action);
    assert forall|i: int| 0 <= i < k implies #[trigger] w.rows[i] == v.rows[rest_origin(
        v.rows,
        from,
        to,
        i,
    )] by {
        assert(w.rows[i] == rest[i]);
    }
    assert(w.valid()) by {
        assert forall|i: int, j: int| 0 <= i < j < w.rows.len() implies !same_pair(
            #[trigger] w.rows[i],
            #[trigger] w.rows[j].from_user_id,
            w.rows[j].to_user_id,
        ) && w.rows[i].id < w.rows[j].id by {
            assert(w.rows[i] == rest[i]);
            if j < k {
                assert(w.rows[j] == rest[j]);
                let mi = rest_origin(v.rows, from, to, i);
                let mj = rest_origin(v.rows, from, to, j);
                assert(!same_pair(v.rows[mi], v.rows[mj].from_user_id, v.rows[mj].to_user_id));
                assert(v.rows[mi].id < v.rows[mj].id);
            } else {
                assert(v.rows[rest_origin(v.rows, from, to, i)].id < v.next_id);
            }
        }
        assert forall|i: int| 0 <= i < w.rows.len() implies (#[trigger] w.rows[i]).id < w.next_id
            && w.users.contains(w.rows[i].from_user_id) && w.users.contains(w.rows[i].to_user_id) by {
            if i < k {
                let m = rest_origin(v.rows, from, to, i);
                assert(v.rows[m].id < v.next_id);
                assert(v.users.contains(v.rows[m].from_user_id));
            }
        }
    }
    lemma_row_unique(w, from, to, k);
    assert(positive_row(w.rows, from, to) == is_positive(action@)) by {
        if positive_row(w.rows, from, to) {
            let i = choose|i: int|
                0 <= i < w.rows.len() && same_pair(#[trigger] w.rows[i], from, to) && is_positive(
                    w.rows[i].action@,
                );
            lemma_row_unique(w, from, to, i);
        }
    }
    assert forall|x: UserId, y: UserId| !(x == from && y == to) implies (#[trigger] positive_row(
        w.rows,
        x,
        y,
    ) == positive_row(v.rows, x, y) && has_row(w.rows, x, y) == has_row(v.rows, x, y)) by {
        if positive_row(w.rows, x, y) {
            let i = choose|i: int|
                0 <= i < w.rows.len() && same_pair(#[trigger] w.rows[i], x, y) && is_positive(
                    w.rows[i].action@,
                );
            let m = rest_origin(v.rows, from, to, i);
            assert(v.rows[m] == w.rows[i]);
        }
        if has_row(w.rows, x, y) {
            let i = choose|i: int| 0 <= i < w.rows.len() && same_pair(#[trigger] w.rows[i], x, y);
            let m = rest_origin(v.rows, from, to, i);
            assert(v.rows[m] == w.rows[i]);
        }
        if has_row(v.rows, x, y) {
            let m = choose|m: int| 0 <= m < v.rows.len() && same_pair(#[trigger] v.rows[m], x, y);
            lemma_origin_onto(v, from, to, m);
            let i = choose|i: int| 0 <= i < rest.len() && #[trigger] rest_origin(v.rows, from, to, i) == m;
            assert(w.rows[i] == v.rows[m]);
            if positive_row(v.rows, x, y) {
                let p = choose|p: int|
                    0 <= p < v.rows.len() && same_pair(#[trigger] v.rows[p], x, y) && is_positive(
                        v.rows[p].action@,
                    );
                lemma_row_unique(v, x, y, m);
                lemma_row_unique(v, x, y, p);
            }
        }
    }
}

/// Every row of another pair survives the removal of the pair's row.
proof fn lemma_origin_onto(v: LedgerView, from: UserId, to: UserId, m: int)
    requires
        v.valid(),
        0 <= m < v.rows.len(),
        !same_pair(v.rows[m], from, to),
    ensures
        exists|i: int|
            0 <= i < rows_without_pair(v.rows, from, to).len() && #[trigger] rest_origin(
                v.rows,
                from,
                to,
                i,
            ) == m,
{
    lemma_rest_rows(v, from, to);
    if has_row(v.rows, from, to) {
        let k = row_index(v.rows, from, to);
        if m < k {
            assert(rest_origin(v.rows, from, to, m) == m);
        } else {
            assert(m != k);
            assert(rest_origin(v.rows, from, to, m - 1) == m);
        }
    } else {
        assert(rest_origin(v.rows, from, to, m) == m);
    }
}

/// Recording the same positive action twice from `a` to `b` leaves a single
/// row for `(a, b)` holding that action, and the second call succeeds with
/// the status of the first.
pub proof fn law_repeat_like_keeps_one_row(
    v: LedgerView,
    a: UserId,
    b: UserId,
    first: String,
    second: String,
    context1: Option<InteractionContext>,
    context2: Option<InteractionContext>,
    comment1: Option<String>,
    comment2: Option<String>,
    now1: i64,
    now2: i64,
)
    requires
        v.valid(),
        is_positive(first@),
        is_positive(second@),
        record_result(v, a, b, first@) is Ok,
        v.next_id + 2 <= u64::MAX,
    ensures
        ({
            let v1 = record_state(v, a, b, first, context1, comment1, now1);
            let v2 = record_state(v1, a, b, second, context2, comment2, now2);
            &&& record_result(v1, a, b, second@) == record_result(v, a, b, first@)
            &&& pair_count(v2.rows, a, b) == 1
            &&& action_of(v2.rows, a, b) == Some(like_word())
        }),
{
    let v1 = record_state(v, a, b, first, context1, comment1, now1);
    lemma_record_effect(v, a, b, first, context1, comment1, now1);
    assert(positive_row(v1.rows, b, a) == positive_row(v.rows, b, a));
    assert(record_result(v1, a, b, second@) == record_result(v, a, b, first@));
    let v2 = record_state(v1, a, b, second, context2, comment2, now2);
    lemma_record_effect(v1, a, b, second, context2, comment2, now2);
    lemma_count_one(v2.rows, a, b);
}

/// A later action from `a` to `b` replaces the earlier one: one row remains
/// for `(a, b)`, holding the later action.
pub proof fn law_later_action_overwrites(
    v: LedgerView,
    a: UserId,
    b: UserId,
    first: String,
    second: String,
    context1: Option<InteractionContext>,
    context2: Option<InteractionContext>,
    comment1: Option<String>,
    comment2: Option<String>,
    now1: i64,
    now2: i64,
)
    requires
        v.valid(),
        record_result(v, a, b, first@) is Ok,
        v.next_id + 2 <= u64::MAX,
    ensures
        ({
            let v1 = record_state(v, a, b, first, context1, comment1, now1);
            let v2 = record_state(v1, a, b, second, context2, comment2, now2);
            &&& record_result(v1, a, b, second@) is Ok
            &&& pair_count(v2.rows, a, b) == 1
            &&& action_of(v2.rows, a, b) == Some(second@)
        }),
{
    let v1 = record_state(v, a, b, first, context1, comment1, now1);
    lemma_record_effect(v, a, b, first, context1, comment1, now1);
    let v2 = record_state(v1, a, b, second, context2, comment2, now2);
    lemma_record_effect(v1, a, b, second, context2, comment2, now2);
    lemma_count_one(v2.rows, a, b);
}

/// When `b` has no positive row toward `a`, a like from `a` to `b` reports
/// `Sent` and a following like from `b` to `a` reports `Match`: exactly one of
/// the two reports a match.
pub proof fn law_second_like_matches(
    v: LedgerView,
    a: UserId,
    b: UserId,
    first: String,
    second: String,
    context1: Option<InteractionContext>,
    context2: Option<InteractionContext>,
    comment1: Option<String>,
    comment2: Option<String>,
    now1: i64,
    now2: i64,
)
    requires
        v.valid(),
        a != b,
        v.users.contains(a),
        v.users.contains(b),
        v.next_id + 2 <= u64::MAX,
        is_positive(first@),
        is_positive(second@),
        !positive_row(v.rows, b, a),
    ensures
        ({
            let v1 = record_state(v, a, b, first, context1, comment1, now1);
            &&& record_result(v, a, b, first@) == Ok::<InteractionStatus, CoreError>(
                InteractionStatus::Sent,
            )
            &&& record_result(v1, b, a, second@) == Ok::<InteractionStatus, CoreError>(
                InteractionStatus::Match,
            )
        }),
{
    lemma_record_effect(v, a, b, first, context1, comment1, now1);
    let v1 = record_state(v, a, b, first, context1, comment1, now1);
    assert(positive_row(v1.rows, a, b));
    assert(v1.next_id <= v.next_id + 1);
}

/// Of two opposite likes between `a` and `b`, applied one after the other in
/// whichever order a store serialises them, the second always reports `Match`
/// and the first reports `Sent` or `Match`: never two `Sent`s.
pub proof fn law_opposite_likes_match_once(
    v: LedgerView,
    a: UserId,
    b: UserId,
    first: String,
    second: String,
    context1: Option<InteractionContext>,
    context2: Option<InteractionContext>,
    comment1: Option<String>,
    comment2: Option<String>,
    now1: i64,
    now2: i64,
)
    requires
        v.valid(),
        a != b,
        v.users.contains(a),
        v.users.contains(b),
        v.next_id + 2 <= u64::MAX,
        is_positive(first@),
        is_positive(second@),
    ensures
        ({
            let v1 = record_state(v, a, b, first, context1, comment1, now1);
            let r1 = record_result(v, a, b, first@);
            let r2 = record_result(v1, b, a, second@);
            &&& r2 == Ok::<InteractionStatus, CoreError>(InteractionStatus::Match)
            &&& (r1 == Ok::<InteractionStatus, CoreError>(InteractionStatus::Sent) || r1 == Ok::<
                InteractionStatus,
                CoreError,
            >(InteractionStatus::Match))
        }),
{
    lemma_record_effect(v, a, b, first, context1, comment1, now1);
    let v1 = record_state(v, a, b, first, context1, comment1, now1);
    assert(positive_row(v1.rows, a, b));
    assert(v1.next_id <= v.next_id + 1);
}

/// Once `a` replaces a positive row toward `b` of a matched pair with a
/// non-positive action, the pair is no longer matched, and a like from `b`
/// then reports `Sent`, not `Match`.
pub proof fn law_pass_unmatches(
    v: LedgerView,
    a: UserId,
    b: UserId,
    action: String,
    context: Option<InteractionContext>,
    comment: Option<String>,
    now: i64,
    like: Seq<char>,
)
    requires
        v.valid(),
        a != b,
        v.next_id < u64::MAX,
        pair_state_of(v.rows, a, b) == PairState::Matched,
        !is_positive(action@),
        is_positive(like),
    ensures
        ({
            let v1 = record_state(v, a, b, action, context, comment, now);
            &&& record_result(v, a, b, action@) == Ok::<InteractionStatus, CoreError>(
                InteractionStatus::Recorded,
            )
            &&& pair_state_of(v1.rows, a, b) != PairState::Matched
            &&& status_of(v1, b, a, like) == InteractionStatus::Sent
        }),
{
    let i = choose|i: int|
        0 <= i < v.rows.len() && same_pair(#[trigger] v.rows[i], a, b) && is_positive(
            v.rows[i].action@,
        );
    assert(v.users.contains(v.rows[i].from_user_id));
    assert(has_row(v.rows, a, b));
    lemma_record_effect(v, a, b, action, context, comment, now);
}

} // verus!
