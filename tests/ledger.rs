use backend::error::CoreError;
use backend::interactions::{interact, InteractRequest};
use backend::ledger::{InteractionContext, InteractionStatus, Ledger, PairState};

const A: u128 = 0x550e8400_e29b_41d4_a716_446655440000;
const B: u128 = 0x6fa459ea_ee8a_3ca4_894e_db77e160355e;
const C: u128 = 0x123e4567_e89b_12d3_a456_426614174000;

fn ledger_with_users() -> Ledger {
    let mut l = Ledger::new();
    l.add_user(A);
    l.add_user(B);
    l.add_user(C);
    l
}

fn act(l: &mut Ledger, from: u128, to: u128, action: &str, now: i64) -> Result<InteractionStatus, CoreError> {
    l.record_interaction(from, to, action.to_string(), None, None, now)
}

#[test]
fn like_twice_keeps_one_row_and_reports_sent_again() {
    let mut l = ledger_with_users();
    assert_eq!(act(&mut l, A, B, "like", 1), Ok(InteractionStatus::Sent));
    assert_eq!(act(&mut l, A, B, "like", 2), Ok(InteractionStatus::Sent));
    let rows = l.get_interactions_from_user_id(A, &"like".to_string());
    assert_eq!(rows.len(), 1);
    assert_eq!(rows[0].to_user_id, B);
    assert_eq!(rows[0].action, "like");
    assert_eq!(rows[0].created_at, 1);
}

#[test]
fn pass_overwrites_like() {
    let mut l = ledger_with_users();
    assert_eq!(act(&mut l, A, B, "like", 1), Ok(InteractionStatus::Sent));
    assert_eq!(act(&mut l, A, B, "pass", 2), Ok(InteractionStatus::Recorded));
    assert_eq!(l.get_interactions_from_user_id(A, &"like".to_string()).len(), 0);
    let passes = l.get_interactions_from_user_id(A, &"pass".to_string());
    assert_eq!(passes.len(), 1);
    assert_eq!(passes[0].to_user_id, B);
}

#[test]
fn second_like_of_a_pair_reports_match() {
    let mut l = ledger_with_users();
    assert_eq!(act(&mut l, A, B, "like", 1), Ok(InteractionStatus::Sent));
    assert_eq!(act(&mut l, B, A, "like", 2), Ok(InteractionStatus::Match));
    assert_eq!(l.pair_state(A, B), PairState::Matched);
    assert_eq!(l.pair_state(B, A), PairState::Matched);
}

#[test]
fn reverse_order_also_matches_on_second_call() {
    let mut l = ledger_with_users();
    assert_eq!(act(&mut l, B, A, "like", 1), Ok(InteractionStatus::Sent));
    assert_eq!(act(&mut l, A, B, "like", 2), Ok(InteractionStatus::Match));
}

#[test]
fn pass_after_match_unmatches() {
    let mut l = ledger_with_users();
    act(&mut l, A, B, "like", 1).unwrap();
    act(&mut l, B, A, "like", 2).unwrap();
    assert_eq!(act(&mut l, A, B, "pass", 3), Ok(InteractionStatus::Recorded));
    assert_eq!(l.pair_state(A, B), PairState::Pending);
    assert_eq!(act(&mut l, B, A, "like", 4), Ok(InteractionStatus::Sent));
}

#[test]
fn opposite_likes_in_either_order_give_one_match() {
    for a_first in [true, false] {
        let mut l = ledger_with_users();
        let (x, y) = if a_first { (A, B) } else { (B, A) };
        let first = act(&mut l, x, y, "like", 1).unwrap();
        let second = act(&mut l, y, x, "like", 1).unwrap();
        assert_eq!(second, InteractionStatus::Match);
        assert_eq!(first, InteractionStatus::Sent);
    }
}

#[test]
fn pair_states_follow_positive_rows() {
    let mut l = ledger_with_users();
    assert_eq!(l.pair_state(A, C), PairState::Neither);
    act(&mut l, C, A, "like", 1).unwrap();
    assert_eq!(l.pair_state(A, C), PairState::Pending);
    act(&mut l, A, C, "block", 2).unwrap();
    assert_eq!(l.pair_state(A, C), PairState::Pending);
    act(&mut l, A, C, "like", 3).unwrap();
    assert_eq!(l.pair_state(A, C), PairState::Matched);
}

#[test]
fn self_interaction_is_invalid_target() {
    let mut l = ledger_with_users();
    assert_eq!(act(&mut l, A, A, "like", 1), Err(CoreError::InvalidTarget));
    assert_eq!(l.get_interactions_from_user_id(A, &"like".to_string()).len(), 0);
}

#[test]
fn unknown_user_is_not_found() {
    let mut l = ledger_with_users();
    assert_eq!(act(&mut l, A, 7, "like", 1), Err(CoreError::NotFound));
    assert_eq!(act(&mut l, 7, A, "like", 1), Err(CoreError::NotFound));
    assert!(!l.has_interacted(A, 7));
}

#[test]
fn queries_are_newest_first_and_filtered_by_action() {
    let mut l = ledger_with_users();
    act(&mut l, B, A, "like", 10).unwrap();
    act(&mut l, C, A, "like", 20).unwrap();
    act(&mut l, C, B, "like", 30).unwrap();
    let to_a = l.get_interactions_to_user_id(A, &"like".to_string());
    assert_eq!(to_a.len(), 2);
    assert_eq!(to_a[0].from_user_id, C);
    assert_eq!(to_a[1].from_user_id, B);
    assert!(to_a[0].id > to_a[1].id);
    let from_c = l.get_interactions_from_user_id(C, &"like".to_string());
    assert_eq!(from_c.len(), 2);
    assert_eq!(from_c[0].to_user_id, B);
    assert_eq!(from_c[1].to_user_id, A);
    assert_eq!(l.get_interactions_to_user_id(A, &"pass".to_string()).len(), 0);
}

#[test]
fn repeat_action_replaces_context_and_comment() {
    let mut l = ledger_with_users();
    let ctx = InteractionContext { kind: "prompt".to_string(), id: "prompt-1".to_string() };
    l.record_interaction(A, B, "like".to_string(), Some(ctx), Some("hi".to_string()), 5).unwrap();
    l.record_interaction(A, B, "like".to_string(), None, None, 6).unwrap();
    let rows = l.get_interactions_from_user_id(A, &"like".to_string());
    assert_eq!(rows.len(), 1);
    assert_eq!(rows[0].context_type, None);
    assert_eq!(rows[0].context_id, None);
    assert_eq!(rows[0].comment, None);
    l.record_interaction(
        A,
        B,
        "like".to_string(),
        Some(InteractionContext { kind: "image".to_string(), id: "i3".to_string() }),
        Some("nice".to_string()),
        7,
    )
    .unwrap();
    let rows = l.get_interactions_from_user_id(A, &"like".to_string());
    assert_eq!(rows[0].context_type.as_deref(), Some("image"));
    assert_eq!(rows[0].context_id.as_deref(), Some("i3"));
    assert_eq!(rows[0].comment.as_deref(), Some("nice"));
    assert_eq!(rows[0].created_at, 5);
}

#[test]
fn adding_a_user_twice_keeps_it_known() {
    let mut l = Ledger::new();
    assert!(!l.has_user(A));
    l.add_user(A);
    l.add_user(A);
    assert!(l.has_user(A));
    assert!(l.is_valid());
}

#[test]
fn interact_parses_the_target_and_reports_status() {
    let mut l = ledger_with_users();
    let body = InteractRequest {
        target_user_id: "6fa459ea-ee8a-3ca4-894e-db77e160355e".to_string(),
        action: "like".to_string(),
        context: None,
        comment: None,
    };
    let r = interact(&mut l, A, body, 1).unwrap();
    assert_eq!(r.status, "SENT");
    assert!(r.match_id.is_none());
    let back = InteractRequest {
        target_user_id: "550e8400-e29b-41d4-a716-446655440000".to_string(),
        action: "like".to_string(),
        context: None,
        comment: None,
    };
    assert_eq!(interact(&mut l, B, back, 2).unwrap().status, "MATCH");
    let pass = InteractRequest {
        target_user_id: "123e4567-e89b-12d3-a456-426614174000".to_string(),
        action: "pass".to_string(),
        context: None,
        comment: None,
    };
    assert_eq!(interact(&mut l, A, pass, 3).unwrap().status, "RECORDED");
}

#[test]
fn interact_refuses_a_malformed_target() {
    let mut l = ledger_with_users();
    let body = InteractRequest {
        target_user_id: "not-a-uuid".to_string(),
        action: "like".to_string(),
        context: None,
        comment: None,
    };
    assert_eq!(interact(&mut l, A, body, 1).unwrap_err(), CoreError::InvalidTarget);
    assert!(!l.has_interacted(A, B));
}

#[test]
fn interact_reports_unknown_target() {
    let mut l = ledger_with_users();
    let body = InteractRequest {
        target_user_id: "00000000-0000-0000-0000-000000000007".to_string(),
        action: "like".to_string(),
        context: None,
        comment: None,
    };
    assert_eq!(interact(&mut l, A, body, 1).unwrap_err(), CoreError::NotFound);
}

#[test]
fn status_labels_and_error_messages() {
    assert_eq!(InteractionStatus::Recorded.label(), "RECORDED");
    assert_eq!(InteractionStatus::Sent.label(), "SENT");
    assert_eq!(InteractionStatus::Match.label(), "MATCH");
    assert_eq!(CoreError::InvalidTarget.message(), "Invalid target user ID");
    assert_eq!(CoreError::NotFound.message(), "User not found");
    assert_eq!(CoreError::PreferencesNotSet.message(), "User has no preferences set");
    assert_eq!(CoreError::StorageError.message(), "Failed to record interaction");
}

#[test]
fn removing_a_user_drops_their_rows() {
    let mut l = ledger_with_users();
    act(&mut l, A, B, "like", 1).unwrap();
    act(&mut l, B, A, "like", 2).unwrap();
    act(&mut l, C, B, "like", 3).unwrap();
    act(&mut l, B, C, "pass", 4).unwrap();
    l.remove_user(A);
    assert!(!l.has_user(A));
    assert!(l.has_user(B) && l.has_user(C));
    assert_eq!(l.pair_state(A, B), PairState::Neither);
    assert!(!l.has_interacted(B, A));
    let to_b = l.get_interactions_to_user_id(B, &"like".to_string());
    assert_eq!(to_b.len(), 1);
    assert_eq!(to_b[0].from_user_id, C);
    assert_eq!(l.get_interactions_from_user_id(B, &"pass".to_string()).len(), 1);
    assert_eq!(act(&mut l, B, A, "like", 5), Err(CoreError::NotFound));
    assert_eq!(act(&mut l, C, B, "pass", 6), Ok(InteractionStatus::Recorded));
}

#[test]
fn an_update_makes_a_row_the_most_recent() {
    let mut l = ledger_with_users();
    act(&mut l, A, C, "like", 1).unwrap();
    act(&mut l, A, B, "like", 2).unwrap();
    act(&mut l, A, C, "like", 3).unwrap();
    let rows = l.get_interactions_from_user_id(A, &"like".to_string());
    assert_eq!(rows.len(), 2);
    assert_eq!(rows[0].to_user_id, C);
    assert_eq!(rows[0].created_at, 1);
    assert_eq!(rows[0].updated_at, 3);
    assert_eq!(rows[1].to_user_id, B);
    assert_eq!(rows[1].updated_at, 2);
    assert!(rows[0].id > rows[1].id);
}

#[test]
fn an_update_moves_a_row_ahead_in_the_incoming_list() {
    let mut l = ledger_with_users();
    act(&mut l, B, A, "like", 1).unwrap();
    act(&mut l, C, A, "like", 2).unwrap();
    act(&mut l, B, A, "like", 3).unwrap();
    let to_a = l.get_interactions_to_user_id(A, &"like".to_string());
    assert_eq!(to_a[0].from_user_id, B);
    assert_eq!(to_a[1].from_user_id, C);
}

#[test]
fn stored_rows_are_taken_back_in_order() {
    let mut l = ledger_with_users();
    assert_eq!(l.restore_row(A, B, "like".to_string(), None, None, None, 10, 40), Ok(()));
    assert_eq!(l.restore_row(B, A, "like".to_string(), None, None, Some("hey".to_string()), 20, 50), Ok(()));
    assert_eq!(l.pair_state(A, B), PairState::Matched);
    let rows = l.get_interactions_to_user_id(A, &"like".to_string());
    assert_eq!(rows[0].created_at, 20);
    assert_eq!(rows[0].updated_at, 50);
    assert_eq!(rows[0].comment.as_deref(), Some("hey"));
    assert_eq!(l.restore_row(A, B, "pass".to_string(), None, None, None, 1, 1), Err(CoreError::StorageError));
    assert_eq!(l.restore_row(A, A, "like".to_string(), None, None, None, 1, 1), Err(CoreError::InvalidTarget));
    assert_eq!(l.restore_row(A, 7, "like".to_string(), None, None, None, 1, 1), Err(CoreError::NotFound));
    assert_eq!(act(&mut l, A, C, "like", 60), Ok(InteractionStatus::Sent));
}
