use vstd::prelude::*;

use crate::error::CoreError;
use crate::ids::{UserId, parse_user_id, uuid_parse};
use crate::ledger::{
    InteractionContext, InteractionStatus, Ledger, record_result, record_state, status_label,
};
use crate::responses::MatchResponse;

verus! {

/// A client's action toward another user.
#[derive(Debug)]
pub struct InteractRequest {
    /// The target's identifier, as text.
    pub target_user_id: String,
    pub action: String,
    pub context: Option<InteractionContext>,
    pub comment: Option<String>,
}

/// The answer to a recorded interaction.
pub fn match_response(status: InteractionStatus) -> (r: MatchResponse)
    ensures
        r.status@ == status_label(status),
        r.match_id is None,
        r.match_data is None,
{
    MatchResponse { status: status.label(), match_id: None, match_data: None }
}

/// Records the action of `from` described by `body`. A target that is not a
/// UUID is refused before the ledger is touched; otherwise the ledger records
/// the interaction and the answer carries its status.
pub fn interact(ledger: &mut Ledger, from: UserId, body: InteractRequest, now: i64) -> (r: Result<
    MatchResponse,
    CoreError,
>)
    ensures
        uuid_parse(body.target_user_id@) is None ==> r == Err::<MatchResponse, CoreError>(
            CoreError::InvalidTarget,
        ) && final(ledger)@ == old(ledger)@,
        uuid_parse(body.target_user_id@) is Some ==> ({
            let to = uuid_parse(body.target_user_id@)->0;
            let res = record_result(old(ledger)@, from, to, body.action@);
            &&& final(ledger)@ == record_state(
                old(ledger)@,
                from,
                to,
                body.action,
                body.context,
                body.comment,
                now,
            )
            &&& res is Err ==> r == Err::<MatchResponse, CoreError>(res->Err_0)
            &&& res is Ok ==> r is Ok && r->Ok_0.status@ == status_label(res->Ok_0)
                && r->Ok_0.match_id is None && r->Ok_0.match_data is None
        }),
{
    let to = match parse_user_id(body.target_user_id.as_str()) {
        Ok(id) => id,
        Err(e) => return Err(e),
    };
    match ledger.record_interaction(from, to, body.action, body.context, body.comment, now) {
        Ok(status) => Ok(match_response(status)),
        Err(e) => Err(e),
    }
}

} // verus!
