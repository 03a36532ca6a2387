//! What every operation of the receipt registry keeps: the lifecycle and
//! ownership properties of receipts, over single operations and over any run
//! of operations.

use vstd::prelude::*;
use crate::address::Address;
use crate::receipt_registry::{
    certified, owned_in_range, ContractError, DataKey, Receipt, ReceiptEvent, ReceiptInput, ReceiptState,
    ReceiptStatus,
};

verus! {

broadcast use vstd::seq_lib::group_seq_properties;

/// An operation that changes the receipt registry, with its arguments and
/// the ledger time at which it runs.
pub enum ReceiptOperation {
    Init { admin: Address },
    AddIssuer { issuer: Address },
    RemoveIssuer { issuer: Address },
    Issue { now: u64, issuer: Address, input: ReceiptInput },
    Transfer { owner: Address, receipt_id: u64, new_owner: Address },
    Redeem { owner: Address, issuer: Address, receipt_id: u64 },
}

/// `later` agrees with `r` on everything fixed at issuance.
pub open spec fn same_terms(r: Receipt, later: Receipt) -> bool {
    &&& later.receipt_id == r.receipt_id
    &&& later.issuer == r.issuer
    &&& later.commodity == r.commodity
    &&& later.quantity_kg == r.quantity_kg
    &&& later.grade == r.grade
    &&& later.warehouse_name == r.warehouse_name
    &&& later.location == r.location
    &&& later.metadata_hash == r.metadata_hash
    &&& later.issued_at == r.issued_at
    &&& later.expires_at == r.expires_at
}

impl ReceiptState {
    /// The state after `op` runs with the authorizations it demands; an
    /// operation that fails, or that the ledger aborts (a receipt counter at
    /// its maximum), leaves the state as it was.
    pub open spec fn step(self, op: ReceiptOperation) -> ReceiptState {
        match op {
            ReceiptOperation::Init { admin } => match self.after_init(admin) {
                Ok(s) => s,
                Err(_) => self,
            },
            ReceiptOperation::AddIssuer { issuer } => match self.after_add_issuer(issuer) {
                Ok(s) => s,
                Err(_) => self,
            },
            ReceiptOperation::RemoveIssuer { issuer } => match self.after_remove_issuer(issuer) {
                Ok(s) => s,
                Err(_) => self,
            },
            ReceiptOperation::Issue { now, issuer, input } => match self.after_issue(now, issuer, input) {
                Ok((s, id)) => if id == u64::MAX {
                    self
                } else {
                    s
                },
                Err(_) => self,
            },
            ReceiptOperation::Transfer { owner, receipt_id, new_owner } =>
                match self.after_transfer(owner, receipt_id, new_owner) {
                Ok(s) => s,
                Err(_) => self,
            },
            ReceiptOperation::Redeem { owner, issuer, receipt_id } =>
                match self.after_redeem(owner, issuer, receipt_id) {
                Ok(s) => s,
                Err(_) => self,
            },
        }
    }

    /// The state after the operations `ops` run in order.
    pub open spec fn run(self, ops: Seq<ReceiptOperation>) -> ReceiptState
        decreases ops.len(),
    {
        if ops.len() == 0 {
            self
        } else {
            self.step(ops[0]).run(ops.drop_first())
        }
    }

    /// The storage agrees with itself: admin, issuer table and receipt
    /// counter are set together, and every receipt is stored under its own
    /// id, which is below the counter.
    pub open spec fn consistent(self) -> bool {
        &&& (self.admin is None <==> self.next_receipt_id is None)
        &&& (self.admin is None <==> self.issuers is None)
        &&& (self.next_receipt_id matches Some(n) ==> n >= 1)
        &&& forall|id: u64| #[trigger]
            self.receipts.contains_key(id) ==> {
                &&& self.receipts[id].receipt_id == id
                &&& 1 <= id
                &&& self.next_receipt_id matches Some(n) && id < n
            }
    }

    /// Every receipt of `self` is still in `later` with the same terms; a
    /// redeemed receipt is unchanged altogether.
    pub open spec fn keeps_receipts(self, later: ReceiptState) -> bool {
        forall|id: u64| #[trigger]
            self.receipts.contains_key(id) ==> {
                &&& later.receipts.contains_key(id)
                &&& same_terms(self.receipts[id], later.receipts[id])
                &&& (self.receipts[id].status == ReceiptStatus::Redeemed ==> later.receipts[id]
                    == self.receipts[id])
            }
    }
}

/// Storage before initialization is consistent.
pub proof fn lemma_empty_receipt_registry_is_consistent()
    ensures
        ReceiptState::empty().consistent(),
{
}

/// Every operation keeps the storage consistent.
pub proof fn lemma_operations_keep_receipts_consistent(s: ReceiptState, op: ReceiptOperation)
    requires
        s.consistent(),
    ensures
        s.step(op).consistent(),
{
    let t = s.step(op);
    match op {
        ReceiptOperation::Init { admin } => {
            if s.admin is None {
                assert forall|id: u64| !#[trigger] t.receipts.contains_key(id) by {
                    if s.receipts.contains_key(id) {
                    }
                }
            }
        },
        ReceiptOperation::Issue { now, issuer, input } => {
            match s.after_issue(now, issuer, input) {
                Ok((u, n)) => {
                    if n != u64::MAX {
                        assert forall|id: u64| #[trigger] t.receipts.contains_key(id) implies {
                            &&& t.receipts[id].receipt_id == id
                            &&& 1 <= id
                            &&& t.next_receipt_id matches Some(m) && id < m
                        } by {
                            if id != n {
                                assert(s.receipts.contains_key(id));
                            }
                        }
                    }
                },
                Err(_) => {},
            }
        },
        ReceiptOperation::Transfer { owner, receipt_id, new_owner } => {
            assert forall|id: u64| #[trigger] t.receipts.contains_key(id) implies {
                &&& t.receipts[id].receipt_id == id
                &&& 1 <= id
                &&& t.next_receipt_id matches Some(m) && id < m
            } by {
                assert(s.receipts.contains_key(id));
            }
        },
        ReceiptOperation::Redeem { owner, issuer, receipt_id } => {
            assert forall|id: u64| #[trigger] t.receipts.contains_key(id) implies {
                &&& t.receipts[id].receipt_id == id
                &&& 1 <= id
                &&& t.next_receipt_id matches Some(m) && id < m
            } by {
                assert(s.receipts.contains_key(id));
            }
        },
        _ => {},
    }
}

/// Any run of operations keeps the storage consistent.
pub proof fn lemma_runs_keep_receipts_consistent(s: ReceiptState, ops: Seq<ReceiptOperation>)
    requires
        s.consistent(),
    ensures
        s.run(ops).consistent(),
    decreases ops.len(),
{
    if ops.len() > 0 {
        lemma_operations_keep_receipts_consistent(s, ops[0]);
        lemma_runs_keep_receipts_consistent(s.step(ops[0]), ops.drop_first());
    }
}

/// No operation removes a receipt or changes what was fixed at its issuance,
/// and no operation changes a redeemed receipt at all.
pub proof fn lemma_operations_keep_receipts(s: ReceiptState, op: ReceiptOperation)
    requires
        s.consistent(),
    ensures
        s.keeps_receipts(s.step(op)),
{
    let t = s.step(op);
    assert forall|id: u64| #[trigger] s.receipts.contains_key(id) implies {
        &&& t.receipts.contains_key(id)
        &&& same_terms(s.receipts[id], t.receipts[id])
        &&& (s.receipts[id].status == ReceiptStatus::Redeemed ==> t.receipts[id] == s.receipts[id])
    } by {
        match op {
            ReceiptOperation::Issue { now, issuer, input } => {},
            ReceiptOperation::Transfer { owner, receipt_id, new_owner } => {},
            ReceiptOperation::Redeem { owner, issuer, receipt_id } => {},
            _ => {},
        }
    }
}

/// Keeping the receipts is transitive.
proof fn lemma_keeps_receipts_transitive(a: ReceiptState, b: ReceiptState, c: ReceiptState)
    requires
        a.keeps_receipts(b),
        b.keeps_receipts(c),
    ensures
        a.keeps_receipts(c),
{
    assert forall|id: u64| #[trigger] a.receipts.contains_key(id) implies {
        &&& c.receipts.contains_key(id)
        &&& same_terms(a.receipts[id], c.receipts[id])
        &&& (a.receipts[id].status == ReceiptStatus::Redeemed ==> c.receipts[id] == a.receipts[id])
    } by {
        assert(b.receipts.contains_key(id));
    }
}

/// Over any run of operations, every receipt stays with the terms fixed at
/// its issuance, and a redeemed receipt stays exactly as it was: redemption
/// is final.
pub proof fn lemma_runs_keep_receipts(s: ReceiptState, ops: Seq<ReceiptOperation>)
    requires
        s.consistent(),
    ensures
        s.keeps_receipts(s.run(ops)),
    decreases ops.len(),
{
    if ops.len() == 0 {
        assert forall|id: u64| #[trigger] s.receipts.contains_key(id) implies {
            &&& s.receipts.contains_key(id)
            &&& same_terms(s.receipts[id], s.receipts[id])
        } by {}
    } else {
        let t = s.step(ops[0]);
        lemma_operations_keep_receipts(s, ops[0]);
        lemma_operations_keep_receipts_consistent(s, ops[0]);
        lemma_runs_keep_receipts(t, ops.drop_first());
        lemma_keeps_receipts_transitive(s, t, t.run(ops.drop_first()));
    }
}

/// A redeemed receipt is immutable: after any run of operations it is still
/// stored, unchanged.
pub proof fn lemma_redeemed_receipts_are_immutable(s: ReceiptState, ops: Seq<ReceiptOperation>, receipt_id: u64)
    requires
        s.consistent(),
        s.receipts.contains_key(receipt_id),
        s.receipts[receipt_id].status == ReceiptStatus::Redeemed,
    ensures
        s.run(ops).receipts.contains_key(receipt_id),
        s.run(ops).receipts[receipt_id] == s.receipts[receipt_id],
{
    lemma_runs_keep_receipts(s, ops);
}

/// Only the current owner moves a receipt: when a receipt's owner changes,
/// the operation was a transfer of that active receipt by its owner to the
/// new owner.
pub proof fn lemma_only_owner_transfers(s: ReceiptState, op: ReceiptOperation, receipt_id: u64)
    requires
        s.consistent(),
        s.receipts.contains_key(receipt_id),
        s.step(op).receipts[receipt_id].owner != s.receipts[receipt_id].owner,
    ensures
        op matches ReceiptOperation::Transfer { owner, receipt_id: id, new_owner } && id == receipt_id
            && owner == s.receipts[receipt_id].owner && new_owner == s.step(op).receipts[receipt_id].owner,
        s.receipts[receipt_id].status == ReceiptStatus::Active,
{
}

/// Only owner and issuer together redeem: when a receipt's status changes,
/// it went from active to redeemed, by a redemption signed by the receipt's
/// owner and its issuer.
pub proof fn lemma_only_owner_and_issuer_redeem(s: ReceiptState, op: ReceiptOperation, receipt_id: u64)
    requires
        s.consistent(),
        s.receipts.contains_key(receipt_id),
        s.step(op).receipts[receipt_id].status != s.receipts[receipt_id].status,
    ensures
        op matches ReceiptOperation::Redeem { owner, issuer, receipt_id: id } && id == receipt_id
            && owner == s.receipts[receipt_id].owner && issuer == s.receipts[receipt_id].issuer,
        s.receipts[receipt_id].status == ReceiptStatus::Active,
        s.step(op).receipts[receipt_id].status == ReceiptStatus::Redeemed,
{
}

/// Only certified issuers issue receipts: a receipt that appears was issued,
/// under the next id, by an issuer certified at the time, to an owner other
/// than that issuer, for a positive quantity, and is active.
pub proof fn lemma_only_certified_issuers_issue(s: ReceiptState, op: ReceiptOperation, receipt_id: u64)
    requires
        !s.receipts.contains_key(receipt_id),
        s.step(op).receipts.contains_key(receipt_id),
    ensures
        op matches ReceiptOperation::Issue { issuer, input, .. } && s.issuers matches Some(table)
            && certified(table, issuer) && s.step(op).receipts[receipt_id].issuer == issuer
            && s.step(op).receipts[receipt_id].owner == input.owner && input.owner != issuer,
        s.next_receipt_id == Some(receipt_id),
        s.step(op).receipts[receipt_id].quantity_kg > 0,
        s.step(op).receipts[receipt_id].status == ReceiptStatus::Active,
{
}

/// Only the admin manages issuers: the issuer table changes only at
/// initialization or by certifying or decertifying an issuer in an
/// initialized registry (all of which demand the admin's authorization), and
/// the admin, once set, never changes.
pub proof fn lemma_only_admin_operations_change_issuers(s: ReceiptState, op: ReceiptOperation)
    ensures
        s.step(op).issuers != s.issuers ==> (op is Init && s.admin is None) || (s.admin is Some && (
        op is AddIssuer || op is RemoveIssuer)),
        s.admin is Some ==> s.step(op).admin == s.admin,
{
}

/// A certified issuer reads back as certified, a decertified one as not
/// certified, and a decertified issuer can be certified again.
pub proof fn lemma_issuer_changes_read_back(s: ReceiptState, issuer: Address)
    ensures
        s.after_add_issuer(issuer) matches Ok(t) ==> t.certification(issuer) == Ok::<bool, ContractError>(true),
        s.after_remove_issuer(issuer) matches Ok(t) ==> t.certification(issuer) == Ok::<bool, ContractError>(false)
            && t.after_add_issuer(issuer) is Ok,
{
}

/// An issued receipt reads back active, owned by the owner it was issued to,
/// with the terms it was issued with.
pub proof fn lemma_issued_receipt_reads_back(s: ReceiptState, now: u64, issuer: Address, input: ReceiptInput)
    requires
        s.after_issue(now, issuer, input) is Ok,
    ensures
        ({
            let (t, id) = s.after_issue(now, issuer, input)->Ok_0;
            t.receipt_or_error(id) == Ok::<Receipt, ContractError>(
                Receipt {
                    receipt_id: id,
                    issuer,
                    owner: input.owner,
                    commodity: input.commodity,
                    quantity_kg: input.quantity_kg,
                    grade: input.grade,
                    warehouse_name: input.warehouse_name,
                    location: input.location,
                    metadata_hash: input.metadata_hash,
                    issued_at: now,
                    expires_at: input.expires_at,
                    status: ReceiptStatus::Active,
                },
            )
        }),
{
}

/// A transfer reads back as the new owner; a redemption reads back as
/// redeemed, after which neither a transfer nor a second redemption goes
/// through (both answer `InvalidState`).
pub proof fn lemma_lifecycle_reads_back(
    s: ReceiptState,
    owner: Address,
    issuer: Address,
    receipt_id: u64,
    new_owner: Address,
    someone: Address,
    other: Address,
    another: Address,
)
    ensures
        s.after_transfer(owner, receipt_id, new_owner) matches Ok(t) ==> t.receipts[receipt_id].owner
            == new_owner,
        s.after_redeem(owner, issuer, receipt_id) matches Ok(t) ==> {
            &&& t.receipts[receipt_id].status == ReceiptStatus::Redeemed
            &&& t.after_transfer(someone, receipt_id, other) == Err::<ReceiptState, ContractError>(
                ContractError::InvalidState,
            )
            &&& t.after_redeem(someone, another, receipt_id) == Err::<ReceiptState, ContractError>(
                ContractError::InvalidState,
            )
        },
{
}

/// The end (exclusive) of the id window that a listing from `from_id` with
/// at most `limit` ids scans, given the next receipt id.
pub open spec fn window_end(next: u64, from_id: u64, limit: u32) -> int {
    if next < from_id + limit {
        next as int
    } else {
        from_id + limit
    }
}

/// A receipt stored under an id in `lo .. hi` and held by `owner` is among
/// the receipts that range lists for `owner`.
proof fn lemma_owned_in_range_lists_owned(receipts: Map<u64, Receipt>, owner: Address, lo: int, hi: int, id: u64)
    requires
        lo <= id < hi,
        receipts.contains_key(id),
        receipts[id].owner == owner,
    ensures
        owned_in_range(receipts, owner, lo, hi).contains(receipts[id]),
    decreases hi - lo,
{
    let earlier = owned_in_range(receipts, owner, lo, hi - 1);
    if id == hi - 1 {
        assert(((hi - 1) as u64) == id);
        assert(owned_in_range(receipts, owner, lo, hi) == earlier.push(receipts[id]));
        assert(earlier.push(receipts[id])[earlier.len() as int] == receipts[id]);
    } else {
        lemma_owned_in_range_lists_owned(receipts, owner, lo, hi - 1, id);
    }
}

/// Everything a range lists for `owner` is a receipt that `owner` holds,
/// stored under an id in the range.
proof fn lemma_owned_in_range_lists_only_owned(receipts: Map<u64, Receipt>, owner: Address, lo: int, hi: int, i: int)
    requires
        0 <= lo,
        hi <= u64::MAX + 1,
        0 <= i < owned_in_range(receipts, owner, lo, hi).len(),
    ensures
        ({
            let r = owned_in_range(receipts, owner, lo, hi)[i];
            &&& r.owner == owner
            &&& exists|id: u64| lo <= id < hi && #[trigger] receipts.contains_key(id) && receipts[id] == r
        }),
    decreases hi - lo,
{
    let earlier = owned_in_range(receipts, owner, lo, hi - 1);
    let id = (hi - 1) as u64;
    if i < earlier.len() {
        lemma_owned_in_range_lists_only_owned(receipts, owner, lo, hi - 1, i);
        if receipts.contains_key(id) && receipts[id].owner == owner {
            assert(owned_in_range(receipts, owner, lo, hi)[i] == earlier[i]);
        }
    } else {
        assert(hi - 1 >= lo);
        assert(id as int == hi - 1);
        assert(receipts.contains_key(id));
    }
}

/// A listing holds every receipt that the owner holds among the scanned ids
/// `from_id .. min(next, from_id + limit)`, whatever its status (an active,
/// redeemed or cancelled receipt alike), and nothing else: each listed
/// receipt is held by the owner and stored under a scanned id.
pub proof fn lemma_listing_is_every_owned_receipt_in_window(
    s: ReceiptState,
    owner: Address,
    from_id: u64,
    limit: u32,
    id: u64,
    i: int,
)
    requires
        s.next_receipt_id is Some,
    ensures
        s.listing(owner, from_id, limit) is Ok,
        (from_id <= id < window_end(s.next_receipt_id.unwrap(), from_id, limit) && s.receipts.contains_key(id)
            && s.receipts[id].owner == owner) ==> s.listing(owner, from_id, limit)->Ok_0.contains(
            s.receipts[id],
        ),
        0 <= i < s.listing(owner, from_id, limit)->Ok_0.len() ==> {
            let r = s.listing(owner, from_id, limit)->Ok_0[i];
            &&& r.owner == owner
            &&& exists|k: u64|
                from_id <= k < window_end(s.next_receipt_id.unwrap(), from_id, limit)
                    && #[trigger] s.receipts.contains_key(k) && s.receipts[k] == r
        },
{
    let end = window_end(s.next_receipt_id.unwrap(), from_id, limit);
    if from_id <= id < end && s.receipts.contains_key(id) && s.receipts[id].owner == owner {
        lemma_owned_in_range_lists_owned(s.receipts, owner, from_id as int, end, id);
    }
    if 0 <= i < s.listing(owner, from_id, limit)->Ok_0.len() {
        lemma_owned_in_range_lists_only_owned(s.receipts, owner, from_id as int, end, i);
    }
}

/// A receipt redeemed by its owner is still listed for that owner.
pub proof fn lemma_redeemed_receipt_is_still_listed(
    s: ReceiptState,
    owner: Address,
    issuer: Address,
    receipt_id: u64,
    from_id: u64,
    limit: u32,
)
    requires
        s.next_receipt_id is Some,
        s.after_redeem(owner, issuer, receipt_id) is Ok,
        from_id <= receipt_id < window_end(s.next_receipt_id.unwrap(), from_id, limit),
    ensures
        ({
            let t = s.after_redeem(owner, issuer, receipt_id)->Ok_0;
            t.listing(owner, from_id, limit) matches Ok(v) && v.contains(t.receipts[receipt_id])
                && t.receipts[receipt_id].status == ReceiptStatus::Redeemed
        }),
{
    let t = s.after_redeem(owner, issuer, receipt_id)->Ok_0;
    lemma_listing_is_every_owned_receipt_in_window(t, owner, from_id, limit, receipt_id, 0);
}

/// Redemption succeeds exactly for an active receipt redeemed by its current
/// owner together with its recorded issuer, whatever the issuer table says:
/// the receipt becomes redeemed and is otherwise unchanged, and nothing else
/// in storage changes.
pub proof fn lemma_redeem_succeeds_for_owner_and_issuer(
    s: ReceiptState,
    owner: Address,
    issuer: Address,
    receipt_id: u64,
    other: u64,
)
    ensures
        s.after_redeem(owner, issuer, receipt_id) is Ok <==> (s.receipts.contains_key(receipt_id)
            && s.receipts[receipt_id].status == ReceiptStatus::Active && s.receipts[receipt_id].owner == owner
            && s.receipts[receipt_id].issuer == issuer),
        s.after_redeem(owner, issuer, receipt_id) matches Ok(t) ==> {
            &&& t.receipts[receipt_id] == (Receipt { status: ReceiptStatus::Redeemed, ..s.receipts[receipt_id] })
            &&& t.events == s.events.push(ReceiptEvent::Redeemed { receipt_id, owner, issuer })
            &&& t.changed_keys == s.changed_keys.push(DataKey::Receipt(receipt_id))
            &&& (other != receipt_id ==> t.receipt_or_error(other) == s.receipt_or_error(other))
            &&& t.issuers == s.issuers
            &&& t.admin == s.admin
            &&& t.next_receipt_id == s.next_receipt_id
        },
{
}

/// A transfer succeeds exactly for an active receipt handed by its current
/// owner to a different owner: the receipt changes owner and nothing else,
/// and no other receipt changes.
pub proof fn lemma_transfer_succeeds_for_owner(
    s: ReceiptState,
    owner: Address,
    receipt_id: u64,
    new_owner: Address,
    other: u64,
)
    ensures
        s.after_transfer(owner, receipt_id, new_owner) is Ok <==> (s.receipts.contains_key(receipt_id)
            && s.receipts[receipt_id].status == ReceiptStatus::Active && s.receipts[receipt_id].owner == owner
            && new_owner != owner),
        s.after_transfer(owner, receipt_id, new_owner) matches Ok(t) ==> {
            &&& t.receipts[receipt_id] == (Receipt { owner: new_owner, ..s.receipts[receipt_id] })
            &&& t.events == s.events.push(ReceiptEvent::Transferred { receipt_id, from: owner, to: new_owner })
            &&& t.changed_keys == s.changed_keys.push(DataKey::Receipt(receipt_id))
            &&& (other != receipt_id ==> t.receipt_or_error(other) == s.receipt_or_error(other))
            &&& t.issuers == s.issuers
            &&& t.next_receipt_id == s.next_receipt_id
        },
{
}

/// Issuing succeeds exactly for a certified issuer, a positive quantity and
/// an owner other than the issuer, in an initialized registry; the new
/// receipt takes the counter's id and no other receipt changes.
pub proof fn lemma_issue_succeeds_exactly_when(s: ReceiptState, now: u64, issuer: Address, input: ReceiptInput, other: u64)
    ensures
        s.after_issue(now, issuer, input) is Ok <==> (s.issuers matches Some(table) && certified(table, issuer)
            && input.quantity_kg > 0 && input.owner != issuer && s.next_receipt_id is Some),
        s.after_issue(now, issuer, input) matches Ok((t, id)) ==> {
            &&& Some(id) == s.next_receipt_id
            &&& t.next_receipt_id == Some((id + 1) as u64)
            &&& (other != id ==> t.receipt_or_error(other) == s.receipt_or_error(other))
            &&& t.events == s.events.push(ReceiptEvent::Issued { receipt_id: id, issuer, owner: input.owner })
            &&& t.changed_keys == s.changed_keys.push(DataKey::Receipt(id)).push(DataKey::NextReceiptId)
            &&& t.issuers == s.issuers
        },
{
}

/// Certifying or decertifying an issuer changes that issuer's standing
/// only: every other address answers as before, and no receipt changes.
/// Certifying succeeds exactly in an initialized registry for an issuer not
/// certified; decertifying, exactly for a certified one.
pub proof fn lemma_issuer_table_changes_exactly(s: ReceiptState, issuer: Address, other: Address)
    ensures
        s.after_add_issuer(issuer) is Ok <==> (s.admin is Some && (s.issuers matches Some(table) && !certified(
            table,
            issuer,
        ))),
        s.after_remove_issuer(issuer) is Ok <==> (s.admin is Some && (s.issuers matches Some(table) && certified(
            table,
            issuer,
        ))),
        s.after_add_issuer(issuer) matches Ok(t) ==> {
            &&& (other != issuer ==> t.certification(other) == s.certification(other))
            &&& t.certification(issuer) == Ok::<bool, ContractError>(true)
            &&& t.events == s.events.push(ReceiptEvent::IssuerAdded { issuer })
            &&& t.changed_keys == s.changed_keys.push(DataKey::Issuers)
            &&& t.receipts == s.receipts
        },
        s.after_remove_issuer(issuer) matches Ok(t) ==> {
            &&& (other != issuer ==> t.certification(other) == s.certification(other))
            &&& t.certification(issuer) == Ok::<bool, ContractError>(false)
            &&& t.events == s.events.push(ReceiptEvent::IssuerRemoved { issuer })
            &&& t.changed_keys == s.changed_keys.push(DataKey::Issuers)
            &&& t.receipts == s.receipts
        },
{
}

/// What the reads give back: a stored receipt is returned as stored,
/// whatever its status, and an unknown id gives `ReceiptNotFound`; an
/// address is certified exactly when the table marks it so, and without a
/// table the answer is `Unauthorized`.
pub proof fn lemma_reads_give_back_storage(s: ReceiptState, receipt_id: u64, issuer: Address)
    ensures
        s.receipts.contains_key(receipt_id) ==> s.receipt_or_error(receipt_id) == Ok::<Receipt, ContractError>(
            s.receipts[receipt_id],
        ),
        !s.receipts.contains_key(receipt_id) ==> s.receipt_or_error(receipt_id) == Err::<Receipt, ContractError>(
            ContractError::ReceiptNotFound,
        ),
        s.issuers matches Some(table) ==> s.certification(issuer) == Ok::<bool, ContractError>(
            table.contains_key(issuer) && table[issuer],
        ),
        s.issuers is None ==> s.certification(issuer) == Err::<bool, ContractError>(ContractError::Unauthorized),
{
}

/// Initialization succeeds exactly once, before any admin is set: it
/// records the admin, starts the receipt counter at 1 and an empty issuer
/// table, and leaves the receipts alone.
pub proof fn lemma_init_succeeds_exactly_once(s: ReceiptState, admin: Address, anyone: Address)
    ensures
        s.after_init(admin) is Ok <==> s.admin is None,
        s.after_init(admin) matches Ok(t) ==> {
            &&& t.admin == Some(admin)
            &&& t.next_receipt_id == Some(1u64)
            &&& t.certification(anyone) == Ok::<bool, ContractError>(false)
            &&& t.receipts == s.receipts
            &&& t.events == s.events
            &&& t.changed_keys == s.changed_keys.push(DataKey::Admin).push(DataKey::NextReceiptId).push(
                DataKey::Issuers,
            )
        },
{
}

/// When every receipt is stored under its own id, a range lists its
/// receipts in strictly increasing order of id, all within the range.
proof fn lemma_owned_in_range_is_increasing(receipts: Map<u64, Receipt>, owner: Address, lo: int, hi: int)
    requires
        0 <= lo,
        hi <= u64::MAX + 1,
        forall|k: u64| #[trigger] receipts.contains_key(k) ==> receipts[k].receipt_id == k,
    ensures
        forall|i: int|
            0 <= i < owned_in_range(receipts, owner, lo, hi).len() ==> lo <= #[trigger] owned_in_range(
                receipts,
                owner,
                lo,
                hi,
            )[i].receipt_id < hi,
        forall|i: int, j: int|
            0 <= i < j < owned_in_range(receipts, owner, lo, hi).len() ==> #[trigger] owned_in_range(
                receipts,
                owner,
                lo,
                hi,
            )[i].receipt_id < #[trigger] owned_in_range(receipts, owner, lo, hi)[j].receipt_id,
    decreases hi - lo,
{
    if hi > lo {
        lemma_owned_in_range_is_increasing(receipts, owner, lo, hi - 1);
        let id = (hi - 1) as u64;
        assert(id as int == hi - 1);
    }
}

/// When every receipt is stored under its own id, a listing gives the
/// owner's receipts in strictly increasing order of id (so each at most
/// once).
pub proof fn lemma_listing_is_in_increasing_id_order(s: ReceiptState, owner: Address, from_id: u64, limit: u32, i: int, j: int)
    requires
        s.consistent(),
        s.next_receipt_id is Some,
        0 <= i < j < s.listing(owner, from_id, limit)->Ok_0.len(),
    ensures
        s.listing(owner, from_id, limit)->Ok_0[i].receipt_id < s.listing(owner, from_id, limit)->Ok_0[j].receipt_id,
{
    let end = window_end(s.next_receipt_id.unwrap(), from_id, limit);
    lemma_owned_in_range_is_increasing(s.receipts, owner, from_id as int, end);
}

} // verus!
