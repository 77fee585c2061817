use vstd::prelude::*;

use crate::error::CoreError;
use crate::ids::UserId;

verus! {

/// What prompted an interaction: the kind of screen or object and its id.
#[derive(Debug)]
pub struct InteractionContext {
    pub kind: String,
    pub id: String,
}

/// One directed row of the ledger: `from_user_id` acted on `to_user_id`.
#[derive(Debug)]
pub struct Interaction {
    /// Serial number of the row's latest write: unique within the ledger,
    /// and larger for a later write.
    pub id: u64,
    pub from_user_id: UserId,
    pub to_user_id: UserId,
    pub action: String,
    pub context_type: Option<String>,
    pub context_id: Option<String>,
    pub comment: Option<String>,
    /// When the row was first created, in milliseconds since the epoch.
    pub created_at: i64,
    /// When the row was last written, in milliseconds since the epoch.
    pub updated_at: i64,
}

/// The status reported for a recorded interaction.
#[derive(Clone, Copy, Debug, PartialEq, Eq, Structural)]
pub enum InteractionStatus {
    /// A non-positive action was stored.
    Recorded,
    /// A positive action was stored and waits for the other side.
    Sent,
    /// A positive action was stored and the other side's row is positive too.
    Match,
}

/// The state of an unordered pair of users.
#[derive(Clone, Copy, Debug, PartialEq, Eq, Structural)]
pub enum PairState {
    /// Neither side has a positive row toward the other.
    Neither,
    /// Exactly one side has a positive row toward the other.
    Pending,
    /// Both sides have positive rows toward each other.
    Matched,
}

impl InteractionStatus {
    /// The word sent to clients: `RECORDED`, `SENT` or `MATCH`.
    pub fn label(&self) -> (r: String)
        ensures
            r@ == status_label(*self),
    {
        match self {
            InteractionStatus::Recorded => String::from_str("RECORDED"),
            InteractionStatus::Sent => String::from_str("SENT"),
            InteractionStatus::Match => String::from_str("MATCH"),
        }
    }
}

pub open spec fn status_label(s: InteractionStatus) -> Seq<char> {
    match s {
        InteractionStatus::Recorded => "RECORDED"@,
        InteractionStatus::Sent => "SENT"@,
        InteractionStatus::Match => "MATCH"@,
    }
}

impl Interaction {
    /// A field-by-field copy of the row.
    pub fn duplicate(&self) -> (r: Interaction)
        ensures
            r == *self,
    {
        Interaction {
            id: self.id,
            from_user_id: self.from_user_id,
            to_user_id: self.to_user_id,
            action: self.action.clone(),
            context_type: self.context_type.clone(),
            context_id: self.context_id.clone(),
            comment: self.comment.clone(),
            created_at: self.created_at,
            updated_at: self.updated_at,
        }
    }
}

/// The positive action.
pub open spec fn like_word() -> Seq<char> {
    "like"@
}

/// An action that can make a match.
pub open spec fn is_positive(action: Seq<char>) -> bool {
    action == like_word()
}

pub open spec fn same_pair(r: Interaction, from: UserId, to: UserId) -> bool {
    r.from_user_id == from && r.to_user_id == to
}

/// Some row goes from `from` to `to`.
pub open spec fn has_row(rows: Seq<Interaction>, from: UserId, to: UserId) -> bool {
    exists|i: int| 0 <= i < rows.len() && same_pair(#[trigger] rows[i], from, to)
}

/// The position of the row from `from` to `to`.
pub open spec fn row_index(rows: Seq<Interaction>, from: UserId, to: UserId) -> int
    recommends
        has_row(rows, from, to),
{
    choose|i: int| 0 <= i < rows.len() && same_pair(#[trigger] rows[i], from, to)
}

/// Some row from `from` to `to` carries a positive action.
pub open spec fn positive_row(rows: Seq<Interaction>, from: UserId, to: UserId) -> bool {
    exists|i: int|
        0 <= i < rows.len() && same_pair(#[trigger] rows[i], from, to) && is_positive(
            rows[i].action@,
        )
}

/// How many rows go from `from` to `to`.
pub open spec fn pair_count(rows: Seq<Interaction>, from: UserId, to: UserId) -> nat
    decreases rows.len(),
{
    if rows.len() == 0 {
        0
    } else {
        pair_count(rows.drop_last(), from, to) + if same_pair(rows.last(), from, to) {
            1nat
        } else {
            0nat
        }
    }
}

/// The current action from `from` to `to`, if any.
pub open spec fn action_of(rows: Seq<Interaction>, from: UserId, to: UserId) -> Option<Seq<char>> {
    if has_row(rows, from, to) {
        Some(rows[row_index(rows, from, to)].action@)
    } else {
        None
    }
}

/// The state of the pair `{a, b}`.
pub open spec fn pair_state_of(rows: Seq<Interaction>, a: UserId, b: UserId) -> PairState {
    if positive_row(rows, a, b) && positive_row(rows, b, a) {
        PairState::Matched
    } else if positive_row(rows, a, b) || positive_row(rows, b, a) {
        PairState::Pending
    } else {
        PairState::Neither
    }
}

/// The abstract content of a ledger.
pub struct LedgerView {
    /// The users that exist.
    pub users: Set<UserId>,
    /// The rows, least recently written first.
    pub rows: Seq<Interaction>,
    /// The serial number the next new row gets.
    pub next_id: nat,
}

impl LedgerView {
    /// Rows join known users only, at most one row per ordered pair; serial
    /// numbers increase and stay below `next_id`.
    pub open spec fn valid(self) -> bool {
        &&& forall|i: int|
            0 <= i < self.rows.len() ==> self.users.contains((#[trigger] self.rows[i]).from_user_id)
                && self.users.contains(self.rows[i].to_user_id)
        &&& forall|i: int, j: int|
            0 <= i < j < self.rows.len() ==> !same_pair(
                #[trigger] self.rows[i],
                #[trigger] self.rows[j].from_user_id,
                self.rows[j].to_user_id,
            )
        &&& forall|i: int, j: int|
            0 <= i < j < self.rows.len() ==> (#[trigger] self.rows[i]).id < (
            #[trigger] self.rows[j]).id
        &&& forall|i: int| 0 <= i < self.rows.len() ==> (#[trigger] self.rows[i]).id < self.next_id
        &&& self.next_id <= u64::MAX
    }
}

pub open spec fn context_type_of(c: Option<InteractionContext>) -> Option<String> {
    match c {
        Some(ctx) => Some(ctx.kind),
        None => None,
    }
}

pub open spec fn context_id_of(c: Option<InteractionContext>) -> Option<String> {
    match c {
        Some(ctx) => Some(ctx.id),
        None => None,
    }
}

/// The rows other than the one from `from` to `to`, in their order.
pub open spec fn rows_without_pair(rows: Seq<Interaction>, from: UserId, to: UserId) -> Seq<
    Interaction,
> {
    if has_row(rows, from, to) {
        rows.remove(row_index(rows, from, to))
    } else {
        rows
    }
}

/// The row that a write from `from` to `to` at `now` leaves: the next serial
/// number, the new action, context and comment, the creation time of the row
/// it replaces (or `now`), and `now` as its update time.
pub open spec fn written_row(
    v: LedgerView,
    from: UserId,
    to: UserId,
    action: String,
    context: Option<InteractionContext>,
    comment: Option<String>,
    now: i64,
) -> Interaction {
    Interaction {
        id: v.next_id as u64,
        from_user_id: from,
        to_user_id: to,
        action: action,
        context_type: context_type_of(context),
        context_id: context_id_of(context),
        comment: comment,
        created_at: if has_row(v.rows, from, to) {
            v.rows[row_index(v.rows, from, to)].created_at
        } else {
            now
        },
        updated_at: now,
    }
}

/// The ledger after the upsert of `(from, to)`: the pair's earlier row, if
/// any, gives way to the written row, which becomes the most recent one.
pub open spec fn upsert(
    v: LedgerView,
    from: UserId,
    to: UserId,
    action: String,
    context: Option<InteractionContext>,
    comment: Option<String>,
    now: i64,
) -> LedgerView {
    LedgerView {
        rows: rows_without_pair(v.rows, from, to).push(
            written_row(v, from, to, action, context, comment, now),
        ),
        next_id: v.next_id + 1,
        ..v
    }
}

/// The status an interaction from `from` to `to` reports against `v`.
pub open spec fn status_of(v: LedgerView, from: UserId, to: UserId, action: Seq<char>) -> InteractionStatus {
    if !is_positive(action) {
        InteractionStatus::Recorded
    } else if positive_row(v.rows, to, from) {
        InteractionStatus::Match
    } else {
        InteractionStatus::Sent
    }
}

/// What recording an interaction returns.
pub open spec fn record_result(v: LedgerView, from: UserId, to: UserId, action: Seq<char>) -> Result<
    InteractionStatus,
    CoreError,
> {
    if from == to {
        Err(CoreError::InvalidTarget)
    } else if !v.users.contains(from) || !v.users.contains(to) {
        Err(CoreError::NotFound)
    } else if v.next_id >= u64::MAX {
        Err(CoreError::StorageError)
    } else {
        Ok(status_of(v, from, to, action))
    }
}

/// The ledger after recording an interaction: upserted on success,
/// unchanged on failure.
pub open spec fn record_state(
    v: LedgerView,
    from: UserId,
    to: UserId,
    action: String,
    context: Option<InteractionContext>,
    comment: Option<String>,
    now: i64,
) -> LedgerView {
    if record_result(v, from, to, action@) is Ok {
        upsert(v, from, to, action, context, comment, now)
    } else {
        v
    }
}

/// Newest first, the rows of `rows` that satisfy `keep`.
pub open spec fn newest_first(rows: Seq<Interaction>, keep: spec_fn(Interaction) -> bool) -> Seq<
    Interaction,
>
    decreases rows.len(),
{
    if rows.len() == 0 {
        Seq::empty()
    } else {
        let rest = newest_first(rows.drop_last(), keep);
        if keep(rows.last()) {
            seq![rows.last()] + rest
        } else {
            rest
        }
    }
}

/// The rows of `rows` that do not involve `user`, in their order.
pub open spec fn without_user(rows: Seq<Interaction>, user: UserId) -> Seq<Interaction>
    decreases rows.len(),
{
    if rows.len() == 0 {
        Seq::empty()
    } else {
        let rest = without_user(rows.drop_last(), user);
        let r = rows.last();
        if r.from_user_id != user && r.to_user_id != user {
            rest.push(r)
        } else {
            rest
        }
    }
}

/// Where the `a`-th row of `rows_without_pair` stands in `rows`.
pub open spec fn rest_origin(rows: Seq<Interaction>, from: UserId, to: UserId, a: int) -> int {
    if has_row(rows, from, to) && a >= row_index(rows, from, to) {
        a + 1
    } else {
        a
    }
}

/// Each row left when the pair's row is taken out of a valid ledger is an
/// earlier row of another pair, in the same relative order.
pub proof fn lemma_rest_rows(v: LedgerView, from: UserId, to: UserId)
    requires
        v.valid(),
    ensures
        ({
            let rest = rows_without_pair(v.rows, from, to);
            &&& rest.len() == if has_row(v.rows, from, to) {
                v.rows.len() - 1
            } else {
                v.rows.len() as int
            }
            &&& forall|a: int|
                0 <= a < rest.len() ==> 0 <= #[trigger] rest_origin(v.rows, from, to, a)
                    < v.rows.len() && rest[a] == v.rows[rest_origin(v.rows, from, to, a)]
                    && !same_pair(rest[a], from, to)
            &&& forall|a: int, b: int|
                0 <= a < b < rest.len() ==> #[trigger] rest_origin(v.rows, from, to, a)
                    < #[trigger] rest_origin(v.rows, from, to, b)
        }),
{
    let rest = rows_without_pair(v.rows, from, to);
    if has_row(v.rows, from, to) {
        let k = row_index(v.rows, from, to);
        assert forall|a: int| 0 <= a < rest.len() implies 0 <= #[trigger] rest_origin(
            v.rows,
            from,
            to,
            a,
        ) < v.rows.len() && rest[a] == v.rows[rest_origin(v.rows, from, to, a)] && !same_pair(
            rest[a],
            from,
            to,
        ) by {
            let m = rest_origin(v.rows, from, to, a);
            if m < k {
                assert(!same_pair(v.rows[m], v.rows[k].from_user_id, v.rows[k].to_user_id));
            } else {
                assert(!same_pair(v.rows[k], v.rows[m].from_user_id, v.rows[m].to_user_id));
            }
        }
    }
}

/// What taking in a stored row from `from` to `to` returns: the same checks
/// as a write, and a second row for one pair is refused as a store fault.
pub open spec fn restore_result(v: LedgerView, from: UserId, to: UserId) -> Result<(), CoreError> {
    if from == to {
        Err(CoreError::InvalidTarget)
    } else if !v.users.contains(from) || !v.users.contains(to) {
        Err(CoreError::NotFound)
    } else if has_row(v.rows, from, to) || v.next_id >= u64::MAX {
        Err(CoreError::StorageError)
    } else {
        Ok(())
    }
}

/// The store of interactions between users.
pub struct Ledger {
    users: Vec<UserId>,
    rows: Vec<Interaction>,
    next_id: u64,
}

impl View for Ledger {
    type V = LedgerView;

    closed spec fn view(&self) -> LedgerView {
        LedgerView {
            users: Set::new(|u: UserId| self.users@.contains(u)),
            rows: self.rows@,
            next_id: self.next_id as nat,
        }
    }
}

impl Ledger {
    #[verifier::type_invariant]
    closed spec fn inv(self) -> bool {
        self@.valid()
    }

    /// An empty ledger with no users.
    pub fn new() -> (r: Ledger)
        ensures
            r@.users == Set::<UserId>::empty(),
            r@.rows == Seq::<Interaction>::empty(),
            r@.next_id == 0,
            r@.valid(),
    {
        let r = Ledger { users: Vec::new(), rows: Vec::new(), next_id: 0 };
        assert(r@.users =~= Set::<UserId>::empty());
        r
    }

    /// The view of every ledger is valid.
    pub fn is_valid(&self) -> (r: bool)
        ensures
            r,
            self@.valid(),
    {
        proof {
            use_type_invariant(self);
        }
        true
    }

    /// Whether `id` is a known user.
    pub fn has_user(&self, id: UserId) -> (r: bool)
        ensures
            r == self@.users.contains(id),
    {
        let mut i: usize = 0;
        while i < self.users.len()
            invariant
                i <= self.users@.len(),
                forall|j: int| 0 <= j < i ==> self.users@[j] != id,
            decreases self.users@.len() - i,
        {
            if self.users[i] == id {
                return true;
            }
            i = i + 1;
        }
        false
    }

    /// Makes `id` a known user.
    pub fn add_user(&mut self, id: UserId)
        ensures
            final(self)@ == (LedgerView { users: old(self)@.users.insert(id), ..old(self)@ }),
    {
        proof {
            use_type_invariant(&*self);
        }
        if !self.has_user(id) {
            let mut rows = Vec::new();
            std::mem::swap(&mut rows, &mut self.rows);
            let mut users = Vec::new();
            std::mem::swap(&mut users, &mut self.users);
            users.push(id);
            self.users = users;
            assert forall|a: int| 0 <= a < rows@.len() implies self.users@.contains(
                (#[trigger] rows@[a]).from_user_id,
            ) && self.users@.contains(rows@[a].to_user_id) by {
                let f = rows@[a].from_user_id;
                let t = rows@[a].to_user_id;
                assert(old(self)@.users.contains(f));
                assert(old(self)@.users.contains(t));
                let kf = choose|k: int| 0 <= k < old(self).users@.len() && old(self).users@[k] == f;
                let kt = choose|k: int| 0 <= k < old(self).users@.len() && old(self).users@[k] == t;
                assert(self.users@[kf] == f);
                assert(self.users@[kt] == t);
            }
            self.rows = rows;
            assert forall|u: UserId| self.users@.contains(u) <==> (old(self).users@.contains(u) || u
                == id) by {
                if u == id {
                    assert(self.users@[self.users@.len() - 1] == id);
                }
                if old(self).users@.contains(u) {
                    let k = choose|k: int| 0 <= k < old(self).users@.len() && old(self).users@[k] == u;
                    assert(self.users@[k] == u);
                }
            }
        }
        assert(self@.users =~= old(self)@.users.insert(id));
        assert(self@.valid());
    }

    /// Removes a user together with every row they are on either end of.
    pub fn remove_user(&mut self, id: UserId)
        ensures
            final(self)@.users == old(self)@.users.remove(id),
            final(self)@.rows == without_user(old(self)@.rows, id),
            final(self)@.next_id == old(self)@.next_id,
            final(self)@.valid(),
    {
        proof {
            use_type_invariant(&*self);
        }
        let ghost v = self@;
        let mut rows = Vec::new();
        std::mem::swap(&mut rows, &mut self.rows);
        let mut kept: Vec<Interaction> = Vec::new();
        let ghost mut idx: Seq<int> = Seq::empty();
        let mut i: usize = 0;
        while i < rows.len()
            invariant
                rows@ == v.rows,
                v.valid(),
                i <= rows@.len(),
                kept@ == without_user(rows@.subrange(0, i as int), id),
                idx.len() == kept@.len(),
                forall|a: int| 0 <= a < idx.len() ==> 0 <= #[trigger] idx[a] < i,
                forall|a: int| 0 <= a < idx.len() ==> kept@[a] == rows@[#[trigger] idx[a]],
                forall|a: int, b: int| 0 <= a < b < idx.len() ==> #[trigger] idx[a] < #[trigger] idx[b],
                forall|a: int|
                    0 <= a < kept@.len() ==> (#[trigger] kept@[a]).from_user_id != id
                        && kept@[a].to_user_id != id,
            decreases rows@.len() - i,
        {
            assert(rows@.subrange(0, i + 1).drop_last() =~= rows@.subrange(0, i as int));
            if rows[i].from_user_id != id && rows[i].to_user_id != id {
                kept.push(rows[i].duplicate());
                proof {
                    idx = idx.push(i as int);
                }
            }
            i = i + 1;
        }
        assert(rows@.subrange(0, rows@.len() as int) =~= rows@);
        let mut users: Vec<UserId> = Vec::new();
        let mut j: usize = 0;
        while j < self.users.len()
            invariant
                j <= self.users@.len(),
                self.rows@.len() == 0,
                forall|u: UserId| users@.contains(u) <==> (exists|k: int|
                    0 <= k < j && #[trigger] self.users@[k] == u) && u != id,
            decreases self.users@.len() - j,
        {
            let u = self.users[j];
            let ghost before = users@;
            if u != id {
                users.push(u);
            }
            proof {
                assert forall|w: UserId| users@.contains(w) <==> (exists|k: int|
                    0 <= k < j + 1 && #[trigger] self.users@[k] == w) && w != id by {
                    if users@.contains(w) {
                        let k = choose|k: int| 0 <= k < users@.len() && users@[k] == w;
                        if u != id && k == users@.len() - 1 {
                            assert(self.users@[j as int] == w);
                        } else {
                            assert(before[k] == w);
                            assert(before.contains(w));
                        }
                    }
                    if (exists|k: int| 0 <= k < j + 1 && self.users@[k] == w) && w != id {
                        let k = choose|k: int| 0 <= k < j + 1 && self.users@[k] == w;
                        if k == j {
                            assert(users@[users@.len() - 1] == w);
                        } else {
                            assert(before.contains(w));
                            let m = choose|m: int| 0 <= m < before.len() && before[m] == w;
                            assert(users@[m] == w);
                        }
                    }
                }
            }
            j = j + 1;
        }
        let ghost old_users = self.users@;
        self.users = users;
        assert(self@.users =~= v.users.remove(id)) by {
            assert forall|u: UserId| self.users@.contains(u) <==> (old_users.contains(u) && u != id) by {
                if old_users.contains(u) {
                    let k = choose|k: int| 0 <= k < old_users.len() && old_users[k] == u;
                    assert(old_users[k] == u);
                }
            }
        }
        assert forall|a: int, b: int| 0 <= a < b < kept@.len() implies !same_pair(
            #[trigger] kept@[a],
            #[trigger] kept@[b].from_user_id,
            kept@[b].to_user_id,
        ) && kept@[a].id < kept@[b].id by {
            assert(idx[a] < idx[b]);
            assert(!same_pair(v.rows[idx[a]], v.rows[idx[b]].from_user_id, v.rows[idx[b]].to_user_id));
            assert(v.rows[idx[a]].id < v.rows[idx[b]].id);
        }
        assert forall|a: int| 0 <= a < kept@.len() implies (#[trigger] kept@[a]).id < v.next_id
            && self@.users.contains(kept@[a].from_user_id) && self@.users.contains(kept@[a].to_user_id) by {
            assert(v.rows[idx[a]].id < v.next_id);
            assert(v.users.contains(v.rows[idx[a]].from_user_id));
        }
        self.rows = kept;
    }

    /// The position of the row from `from` to `to`, if there is one.
    fn find_row(&self, from: UserId, to: UserId) -> (r: Option<usize>)
        ensures
            r matches Some(i) ==> i < self@.rows.len() && i == row_index(self@.rows, from, to),
            r is Some <==> has_row(self@.rows, from, to),
    {
        proof {
            use_type_invariant(self);
        }
        let mut i: usize = 0;
        while i < self.rows.len()
            invariant
                i <= self.rows@.len(),
                self@.valid(),
                forall|j: int| 0 <= j < i ==> !same_pair(#[trigger] self.rows@[j], from, to),
            decreases self.rows@.len() - i,
        {
            if self.rows[i].from_user_id == from && self.rows[i].to_user_id == to {
                let ghost k = row_index(self@.rows, from, to);
                assert(same_pair(self@.rows[i as int], from, to));
                assert(k == i) by {
                    if k < i {
                        assert(same_pair(self@.rows[k], from, to));
                    } else if k > i {
                        assert(!same_pair(
                            self@.rows[i as int],
                            self@.rows[k].from_user_id,
                            self@.rows[k].to_user_id,
                        ));
                    }
                }
                return Some(i);
            }
            i = i + 1;
        }
        None
    }

    /// Whether the row from `from` to `to` exists and is positive.
    fn is_positive_toward(&self, from: UserId, to: UserId) -> (r: bool)
        ensures
            r == positive_row(self@.rows, from, to),
    {
        let like = String::from_str("like");
        let mut i: usize = 0;
        while i < self.rows.len()
            invariant
                i <= self.rows@.len(),
                like@ == like_word(),
                forall|j: int|
                    0 <= j < i ==> !(same_pair(#[trigger] self.rows@[j], from, to) && is_positive(
                        self.rows@[j].action@,
                    )),
            decreases self.rows@.len() - i,
        {
            if self.rows[i].from_user_id == from && self.rows[i].to_user_id == to
                && self.rows[i].action == like {
                assert(same_pair(self@.rows[i as int], from, to));
                return true;
            }
            i = i + 1;
        }
        false
    }

    /// Records that `from` performed `action` toward `to`, replacing any
    /// earlier action, context and comment of `from` toward `to`, and reports
    /// whether this creates a match.
    pub fn record_interaction(
        &mut self,
        from: UserId,
        to: UserId,
        action: String,
        context: Option<InteractionContext>,
        comment: Option<String>,
        now: i64,
    ) -> (r: Result<InteractionStatus, CoreError>)
        ensures
            r == record_result(old(self)@, from, to, action@),
            final(self)@ == record_state(old(self)@, from, to, action, context, comment, now),
            final(self)@.valid(),
    {
        proof {
            use_type_invariant(&*self);
        }
        let ghost v = self@;
        if from == to {
            return Err(CoreError::InvalidTarget);
        }
        if !self.has_user(from) || !self.has_user(to) {
            return Err(CoreError::NotFound);
        }
        if self.next_id == u64::MAX {
            return Err(CoreError::StorageError);
        }
        let found = self.find_row(from, to);
        let like = String::from_str("like");
        let positive = action == like;
        let status = if !positive {
            InteractionStatus::Recorded
        } else if self.is_positive_toward(to, from) {
            InteractionStatus::Match
        } else {
            InteractionStatus::Sent
        };
        let (context_type, context_id) = match context {
            Some(ctx) => (Some(ctx.kind), Some(ctx.id)),
            None => (None, None),
        };
        let mut rows = Vec::new();
        std::mem::swap(&mut rows, &mut self.rows);
        let created_at = match found {
            Some(i) => {
                let earlier = rows.remove(i);
                earlier.created_at
            },
            None => now,
        };
        let ghost rest = rows@;
        assert(rest == rows_without_pair(v.rows, from, to));
        let row = Interaction {
            id: self.next_id,
            from_user_id: from,
            to_user_id: to,
            action: action,
            context_type: context_type,
            context_id: context_id,
            comment: comment,
            created_at: created_at,
            updated_at: now,
        };
        rows.push(row);
        self.next_id = self.next_id + 1;
        proof {
            lemma_rest_rows(v, from, to);
        }
        assert forall|a: int, b: int| 0 <= a < b < rows@.len() implies !same_pair(
            #[trigger] rows@[a],
            #[trigger] rows@[b].from_user_id,
            rows@[b].to_user_id,
        ) && rows@[a].id < rows@[b].id by {
            if b < rest.len() {
                assert(rest[a] == v.rows[rest_origin(v.rows, from, to, a)]);
                assert(rest[b] == v.rows[rest_origin(v.rows, from, to, b)]);
            } else {
                assert(rest[a] == v.rows[rest_origin(v.rows, from, to, a)]);
            }
        }
        assert forall|a: int| 0 <= a < rows@.len() implies (#[trigger] rows@[a]).id < self.next_id
            && v.users.contains(rows@[a].from_user_id) && v.users.contains(rows@[a].to_user_id) by {
            if a < rest.len() {
                assert(rest[a] == v.rows[rest_origin(v.rows, from, to, a)]);
            }
        }
        self.rows = rows;
        assert(self@.users =~= v.users);
        assert(self@ == upsert(v, from, to, action, context, comment, now));
        Ok(status)
    }

    /// Takes in a row read back from durable storage, as the most recently
    /// written row so far; rows are to be taken in by their update time.
    pub fn restore_row(
        &mut self,
        from: UserId,
        to: UserId,
        action: String,
        context_type: Option<String>,
        context_id: Option<String>,
        comment: Option<String>,
        created_at: i64,
        updated_at: i64,
    ) -> (r: Result<(), CoreError>)
        ensures
            r == restore_result(old(self)@, from, to),
            r is Ok ==> final(self)@ == (LedgerView {
                rows: old(self)@.rows.push(
                    Interaction {
                        id: old(self)@.next_id as u64,
                        from_user_id: from,
                        to_user_id: to,
                        action,
                        context_type,
                        context_id,
                        comment,
                        created_at,
                        updated_at,
                    },
                ),
                next_id: old(self)@.next_id + 1,
                ..old(self)@
            }),
            r is Err ==> final(self)@ == old(self)@,
            final(self)@.valid(),
    {
        proof {
            use_type_invariant(&*self);
        }
        let ghost v = self@;
        if from == to {
            return Err(CoreError::InvalidTarget);
        }
        if !self.has_user(from) || !self.has_user(to) {
            return Err(CoreError::NotFound);
        }
        if self.next_id == u64::MAX || self.find_row(from, to).is_some() {
            return Err(CoreError::StorageError);
        }
        let mut rows = Vec::new();
        std::mem::swap(&mut rows, &mut self.rows);
        rows.push(
            Interaction {
                id: self.next_id,
                from_user_id: from,
                to_user_id: to,
                action,
                context_type,
                context_id,
                comment,
                created_at,
                updated_at,
            },
        );
        self.next_id = self.next_id + 1;
        assert forall|a: int, b: int| 0 <= a < b < rows@.len() implies !same_pair(
            #[trigger] rows@[a],
            #[trigger] rows@[b].from_user_id,
            rows@[b].to_user_id,
        ) && rows@[a].id < rows@[b].id by {
            if b < v.rows.len() {
                assert(!same_pair(v.rows[a], v.rows[b].from_user_id, v.rows[b].to_user_id));
                assert(v.rows[a].id < v.rows[b].id);
            } else {
                assert(!same_pair(v.rows[a], from, to));
                assert(v.rows[a].id < v.next_id);
            }
        }
        assert forall|a: int| 0 <= a < rows@.len() implies (#[trigger] rows@[a]).id < self.next_id
            && v.users.contains(rows@[a].from_user_id) && v.users.contains(rows@[a].to_user_id) by {
            if a < v.rows.len() {
                assert(v.rows[a].id < v.next_id);
                assert(v.users.contains(v.rows[a].from_user_id));
            }
        }
        self.rows = rows;
        assert(self@.users =~= v.users);
        Ok(())
    }

    /// The current state of the pair `{a, b}`.
    pub fn pair_state(&self, a: UserId, b: UserId) -> (r: PairState)
        ensures
            r == pair_state_of(self@.rows, a, b),
    {
        let ab = self.is_positive_toward(a, b);
        let ba = self.is_positive_toward(b, a);
        if ab && ba {
            PairState::Matched
        } else if ab || ba {
            PairState::Pending
        } else {
            PairState::Neither
        }
    }

    /// Newest first, the rows whose action is `action` and that `to` is on
    /// the receiving end of: who has performed `action` toward `to`.
    pub fn get_interactions_to_user_id(&self, to: UserId, action: &String) -> (r: Vec<Interaction>)
        ensures
            r@ == newest_first(self@.rows, |x: Interaction| x.to_user_id == to && x.action@ == action@),
    {
        let ghost keep = |x: Interaction| x.to_user_id == to && x.action@ == action@;
        let mut out: Vec<Interaction> = Vec::new();
        let mut i: usize = self.rows.len();
        assert(self.rows@.subrange(0, i as int) =~= self.rows@);
        assert(out@ + newest_first(self.rows@, keep) =~= newest_first(self.rows@, keep));
        while i > 0
            invariant
                i <= self.rows@.len(),
                keep == (|x: Interaction| x.to_user_id == to && x.action@ == action@),
                out@ + newest_first(self.rows@.subrange(0, i as int), keep) == newest_first(
                    self.rows@,
                    keep,
                ),
            decreases i,
        {
            let ghost pre = self.rows@.subrange(0, i as int);
            assert(pre.drop_last() =~= self.rows@.subrange(0, i - 1));
            i = i - 1;
            if self.rows[i].to_user_id == to && self.rows[i].action == *action {
                out.push(self.rows[i].duplicate());
            }
            assert(out@ + newest_first(self.rows@.subrange(0, i as int), keep) =~= newest_first(
                self.rows@,
                keep,
            ));
        }
        assert(self.rows@.subrange(0, 0) =~= Seq::<Interaction>::empty());
        assert(out@ =~= out@ + newest_first(self.rows@.subrange(0, 0), keep));
        out
    }

    /// Newest first, the rows of `from` whose action is `action`: toward whom
    /// `from` has performed `action`.
    pub fn get_interactions_from_user_id(&self, from: UserId, action: &String) -> (r: Vec<Interaction>)
        ensures
            r@ == newest_first(self@.rows, |x: Interaction| x.from_user_id == from && x.action@ == action@),
    {
        let ghost keep = |x: Interaction| x.from_user_id == from && x.action@ == action@;
        let mut out: Vec<Interaction> = Vec::new();
        let mut i: usize = self.rows.len();
        assert(self.rows@.subrange(0, i as int) =~= self.rows@);
        assert(out@ + newest_first(self.rows@, keep) =~= newest_first(self.rows@, keep));
        while i > 0
            invariant
                i <= self.rows@.len(),
                keep == (|x: Interaction| x.from_user_id == from && x.action@ == action@),
                out@ + newest_first(self.rows@.subrange(0, i as int), keep) == newest_first(
                    self.rows@,
                    keep,
                ),
            decreases i,
        {
            let ghost pre = self.rows@.subrange(0, i as int);
            assert(pre.drop_last() =~= self.rows@.subrange(0, i - 1));
            i = i - 1;
            if self.rows[i].from_user_id == from && self.rows[i].action == *action {
                out.push(self.rows[i].duplicate());
            }
            assert(out@ + newest_first(self.rows@.subrange(0, i as int), keep) =~= newest_first(
                self.rows@,
                keep,
            ));
        }
        assert(self.rows@.subrange(0, 0) =~= Seq::<Interaction>::empty());
        assert(out@ =~= out@ + newest_first(self.rows@.subrange(0, 0), keep));
        out
    }

    /// Whether `from` has recorded any interaction toward `to`.
    pub fn has_interacted(&self, from: UserId, to: UserId) -> (r: bool)
        ensures
            r == has_row(self@.rows, from, to),
    {
        self.find_row(from, to).is_some()
    }
}

} // verus!
