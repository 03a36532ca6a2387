//! What every operation of the credential registry keeps: the security
//! properties of the registry, over single operations and over any run of
//! operations.

use vstd::prelude::*;
use crate::address::Address;
use crate::credential_registry::{
    ContractError, Credential, CredentialEvent, CredentialStatus, DataKey, RegistryState,
};

verus! {

/// An operation that changes the credential registry, with its arguments and
/// the ledger time at which it runs.
pub enum CredentialOperation {
    Construct { admin: Address },
    RegisterIssuer { issuer: Address },
    RemoveIssuer { issuer: Address },
    IssueCredential {
        now: u64,
        issuer: Address,
        recipient: Address,
        metadata_hash: [u8; 32],
        expires_at: Option<u64>,
    },
    RevokeCredential { now: u64, issuer: Address, credential_id: u64 },
    AdminRevokeCredential { now: u64, credential_id: u64 },
}

/// `later` agrees with `c` on everything fixed at issuance.
pub open spec fn same_terms(c: Credential, later: Credential) -> bool {
    &&& later.id == c.id
    &&& later.issuer == c.issuer
    &&& later.recipient == c.recipient
    &&& later.metadata_hash == c.metadata_hash
    &&& later.issued_at == c.issued_at
    &&& later.expires_at == c.expires_at
}

impl RegistryState {
    /// The state after `op` runs with the authorizations it demands; an
    /// operation that fails, or that the ledger aborts (a second
    /// construction, a credential counter at its maximum), leaves the state
    /// as it was.
    pub open spec fn step(self, op: CredentialOperation) -> RegistryState {
        match op {
            CredentialOperation::Construct { admin } => if self.admin is None {
                self.after_constructor(admin)
            } else {
                self
            },
            CredentialOperation::RegisterIssuer { issuer } => match self.after_register_issuer(issuer) {
                Ok(s) => s,
                Err(_) => self,
            },
            CredentialOperation::RemoveIssuer { issuer } => match self.after_remove_issuer(issuer) {
                Ok(s) => s,
                Err(_) => self,
            },
            CredentialOperation::IssueCredential { now, issuer, recipient, metadata_hash, expires_at } =>
                match self.after_issue_credential(now, issuer, recipient, metadata_hash, expires_at) {
                Ok((s, id)) => if id == u64::MAX {
                    self
                } else {
                    s
                },
                Err(_) => self,
            },
            CredentialOperation::RevokeCredential { now, issuer, credential_id } =>
                match self.after_revoke_credential(now, issuer, credential_id) {
                Ok(s) => s,
                Err(_) => self,
            },
            CredentialOperation::AdminRevokeCredential { now, credential_id } =>
                match self.after_admin_revoke_credential(now, credential_id) {
                Ok(s) => s,
                Err(_) => self,
            },
        }
    }

    /// The state after the operations `ops` run in order.
    pub open spec fn run(self, ops: Seq<CredentialOperation>) -> RegistryState
        decreases ops.len(),
    {
        if ops.len() == 0 {
            self
        } else {
            self.step(ops[0]).run(ops.drop_first())
        }
    }

    /// The storage agrees with itself: admin and credential counter are set
    /// together, and every credential is stored under its own id, which is
    /// below the counter.
    pub open spec fn consistent(self) -> bool {
        &&& (self.admin is None <==> self.next_credential_id is None)
        &&& (self.next_credential_id matches Some(n) ==> n >= 1)
        &&& forall|id: u64| #[trigger]
            self.credentials.contains_key(id) ==> {
                &&& self.credentials[id].id == id
                &&& 1 <= id
                &&& self.next_credential_id matches Some(n) && id < n
            }
    }

    /// Every credential of `self` is still in `later`, with the same terms,
    /// and a revocation once recorded is kept as it is.
    pub open spec fn keeps_issued_credentials(self, later: RegistryState) -> bool {
        forall|id: u64| #[trigger]
            self.credentials.contains_key(id) ==> {
                &&& later.credentials.contains_key(id)
                &&& same_terms(self.credentials[id], later.credentials[id])
                &&& (self.credentials[id].revoked_at is Some ==> later.credentials[id].revoked_at
                    == self.credentials[id].revoked_at)
            }
    }
}

/// Storage before construction is consistent.
pub proof fn lemma_empty_registry_is_consistent()
    ensures
        RegistryState::empty().consistent(),
{
}

/// Every operation keeps the storage consistent.
pub proof fn lemma_operations_keep_registry_consistent(s: RegistryState, op: CredentialOperation)
    requires
        s.consistent(),
    ensures
        s.step(op).consistent(),
{
    let t = s.step(op);
    match op {
        CredentialOperation::Construct { admin } => {
            if s.admin is None {
                assert forall|id: u64| !#[trigger] t.credentials.contains_key(id) by {
                    if s.credentials.contains_key(id) {
                    }
                }
            }
        },
        CredentialOperation::IssueCredential { now, issuer, recipient, metadata_hash, expires_at } => {
            match s.after_issue_credential(now, issuer, recipient, metadata_hash, expires_at) {
                Ok((u, n)) => {
                    if n != u64::MAX {
                        assert forall|id: u64| #[trigger] t.credentials.contains_key(id) implies {
                            &&& t.credentials[id].id == id
                            &&& 1 <= id
                            &&& t.next_credential_id matches Some(m) && id < m
                        } by {
                            if id != n {
                                assert(s.credentials.contains_key(id));
                            }
                        }
                    }
                },
                Err(_) => {},
            }
        },
        CredentialOperation::RevokeCredential { now, issuer, credential_id } => {
            assert forall|id: u64| #[trigger] t.credentials.contains_key(id) implies {
                &&& t.credentials[id].id == id
                &&& 1 <= id
                &&& t.next_credential_id matches Some(m) && id < m
            } by {
                assert(s.credentials.contains_key(id));
            }
        },
        CredentialOperation::AdminRevokeCredential { now, credential_id } => {
            assert forall|id: u64| #[trigger] t.credentials.contains_key(id) implies {
                &&& t.credentials[id].id == id
                &&& 1 <= id
                &&& t.next_credential_id matches Some(m) && id < m
            } by {
                assert(s.credentials.contains_key(id));
            }
        },
        _ => {},
    }
}

/// Any run of operations keeps the storage consistent.
pub proof fn lemma_runs_keep_registry_consistent(s: RegistryState, ops: Seq<CredentialOperation>)
    requires
        s.consistent(),
    ensures
        s.run(ops).consistent(),
    decreases ops.len(),
{
    if ops.len() > 0 {
        lemma_operations_keep_registry_consistent(s, ops[0]);
        lemma_runs_keep_registry_consistent(s.step(ops[0]), ops.drop_first());
    }
}

/// No operation removes a credential or changes what was fixed at its
/// issuance (its id, issuer, recipient, metadata hash, issue time and
/// expiry), and no operation changes a recorded revocation.
pub proof fn lemma_operations_keep_issued_credentials(s: RegistryState, op: CredentialOperation)
    requires
        s.consistent(),
    ensures
        s.keeps_issued_credentials(s.step(op)),
{
    let t = s.step(op);
    assert forall|id: u64| #[trigger] s.credentials.contains_key(id) implies {
        &&& t.credentials.contains_key(id)
        &&& same_terms(s.credentials[id], t.credentials[id])
        &&& (s.credentials[id].revoked_at is Some ==> t.credentials[id].revoked_at
            == s.credentials[id].revoked_at)
    } by {
        match op {
            CredentialOperation::RevokeCredential { now, issuer, credential_id } => {},
            CredentialOperation::AdminRevokeCredential { now, credential_id } => {},
            CredentialOperation::IssueCredential { now, issuer, recipient, metadata_hash, expires_at } => {},
            _ => {},
        }
    }
}

/// Keeping the issued credentials is transitive.
proof fn lemma_keeps_issued_credentials_transitive(a: RegistryState, b: RegistryState, c: RegistryState)
    requires
        a.keeps_issued_credentials(b),
        b.keeps_issued_credentials(c),
    ensures
        a.keeps_issued_credentials(c),
{
    assert forall|id: u64| #[trigger] a.credentials.contains_key(id) implies {
        &&& c.credentials.contains_key(id)
        &&& same_terms(a.credentials[id], c.credentials[id])
        &&& (a.credentials[id].revoked_at is Some ==> c.credentials[id].revoked_at
            == a.credentials[id].revoked_at)
    } by {
        assert(b.credentials.contains_key(id));
    }
}

/// Over any run of operations, every credential stays, with the terms fixed
/// at its issuance (among them its metadata hash) and any revocation
/// recorded for it.
pub proof fn lemma_runs_keep_issued_credentials(s: RegistryState, ops: Seq<CredentialOperation>)
    requires
        s.consistent(),
    ensures
        s.keeps_issued_credentials(s.run(ops)),
    decreases ops.len(),
{
    if ops.len() == 0 {
        assert forall|id: u64| #[trigger] s.credentials.contains_key(id) implies {
            &&& s.credentials.contains_key(id)
            &&& same_terms(s.credentials[id], s.credentials[id])
        } by {}
    } else {
        let t = s.step(ops[0]);
        lemma_operations_keep_issued_credentials(s, ops[0]);
        lemma_operations_keep_registry_consistent(s, ops[0]);
        lemma_runs_keep_issued_credentials(t, ops.drop_first());
        lemma_keeps_issued_credentials_transitive(s, t, t.run(ops.drop_first()));
    }
}

/// A revoked credential never returns to active: once its status is
/// `Revoked`, it is `Revoked` after any run of operations, at any ledger
/// time.
pub proof fn lemma_revoked_credentials_stay_revoked(
    s: RegistryState,
    ops: Seq<CredentialOperation>,
    credential_id: u64,
    then: u64,
    later: u64,
)
    requires
        s.consistent(),
        s.status_at(credential_id, then) == CredentialStatus::Revoked,
    ensures
        s.run(ops).status_at(credential_id, later) == CredentialStatus::Revoked,
{
    lemma_runs_keep_issued_credentials(s, ops);
    assert(s.credentials.contains_key(credential_id));
}

/// A credential's metadata hash never changes: after any run of operations
/// the credential is still stored, with the hash it was issued with.
pub proof fn lemma_metadata_hash_is_immutable(s: RegistryState, ops: Seq<CredentialOperation>, credential_id: u64)
    requires
        s.consistent(),
        s.credentials.contains_key(credential_id),
    ensures
        s.run(ops).credentials.contains_key(credential_id),
        s.run(ops).credentials[credential_id].metadata_hash == s.credentials[credential_id].metadata_hash,
{
    lemma_runs_keep_issued_credentials(s, ops);
}

/// Only the admin approves or removes issuers: the issuer set changes only
/// by registering or removing an issuer in a constructed registry (both
/// demand the admin's authorization), and the admin, once set, never
/// changes.
pub proof fn lemma_only_admin_operations_change_issuers(s: RegistryState, op: CredentialOperation)
    ensures
        s.step(op).issuers != s.issuers ==> s.admin is Some && (op is RegisterIssuer || op is RemoveIssuer),
        s.admin is Some ==> s.step(op).admin == s.admin,
{
}

/// Only registered issuers issue credentials: a credential that appears was
/// issued, under the next id, by an issuer that was registered at the time,
/// and is not revoked.
pub proof fn lemma_only_registered_issuers_issue(s: RegistryState, op: CredentialOperation, credential_id: u64)
    requires
        !s.credentials.contains_key(credential_id),
        s.step(op).credentials.contains_key(credential_id),
    ensures
        op matches CredentialOperation::IssueCredential { issuer, .. } && s.issuers.contains(issuer)
            && s.step(op).credentials[credential_id].issuer == issuer,
        s.next_credential_id == Some(credential_id),
        s.step(op).credentials[credential_id].revoked_at is None,
{
}

/// Only the issuing issuer or the admin revokes: a credential that becomes
/// revoked was revoked by the issuer recorded on it, or by the admin of a
/// constructed registry.
pub proof fn lemma_only_issuer_or_admin_revoke(s: RegistryState, op: CredentialOperation, credential_id: u64)
    requires
        s.credentials.contains_key(credential_id),
        s.credentials[credential_id].revoked_at is None,
        s.step(op).credentials[credential_id].revoked_at is Some,
    ensures
        (op matches CredentialOperation::RevokeCredential { issuer, credential_id: id, .. } && id
            == credential_id && issuer == s.credentials[credential_id].issuer) || (
        op matches CredentialOperation::AdminRevokeCredential { credential_id: id, .. } && id
            == credential_id && s.admin is Some),
{
}

/// Credential ids are sequential: of two successful issuances in a row, the
/// second gets the id after the first.
pub proof fn lemma_credential_ids_are_sequential(
    s: RegistryState,
    now: u64,
    issuer: Address,
    recipient: Address,
    metadata_hash: [u8; 32],
    expires_at: Option<u64>,
    now2: u64,
    issuer2: Address,
    recipient2: Address,
    metadata_hash2: [u8; 32],
    expires_at2: Option<u64>,
)
    requires
        s.after_issue_credential(now, issuer, recipient, metadata_hash, expires_at) is Ok,
        s.after_issue_credential(now, issuer, recipient, metadata_hash, expires_at)->Ok_0.0
            .after_issue_credential(now2, issuer2, recipient2, metadata_hash2, expires_at2) is Ok,
        s.next_credential_id != Some(u64::MAX),
    ensures
        ({
            let (t, first) = s.after_issue_credential(now, issuer, recipient, metadata_hash, expires_at)->Ok_0;
            let (_, second) = t.after_issue_credential(now2, issuer2, recipient2, metadata_hash2, expires_at2)->Ok_0;
            second == first + 1
        }),
{
}

/// An approved issuer reads back as an issuer, and a removed one does not.
pub proof fn lemma_issuer_changes_read_back(s: RegistryState, issuer: Address)
    ensures
        s.after_register_issuer(issuer) matches Ok(t) ==> t.issuers.contains(issuer),
        s.after_remove_issuer(issuer) matches Ok(t) ==> !t.issuers.contains(issuer),
{
}

/// An issued credential reads back with what it was issued with, unrevoked,
/// and is active exactly until its expiry (forever without one).
pub proof fn lemma_issued_credential_reads_back(
    s: RegistryState,
    now: u64,
    issuer: Address,
    recipient: Address,
    metadata_hash: [u8; 32],
    expires_at: Option<u64>,
    later: u64,
)
    requires
        s.after_issue_credential(now, issuer, recipient, metadata_hash, expires_at) is Ok,
    ensures
        ({
            let (t, id) = s.after_issue_credential(now, issuer, recipient, metadata_hash, expires_at)->Ok_0;
            &&& t.credential(id) == Some(
                Credential { id, issuer, recipient, metadata_hash, issued_at: now, expires_at, revoked_at: None },
            )
            &&& (t.status_at(id, later) == CredentialStatus::Active <==> !(expires_at matches Some(e) && later >= e))
            &&& (t.status_at(id, later) == CredentialStatus::Active || t.status_at(id, later)
                == CredentialStatus::Expired)
        }),
{
}

/// A revoked credential reads back as revoked, at any ledger time, whoever
/// revoked it.
pub proof fn lemma_revocation_reads_back(s: RegistryState, now: u64, issuer: Address, credential_id: u64, later: u64)
    ensures
        s.after_revoke_credential(now, issuer, credential_id) matches Ok(t) ==> t.status_at(
            credential_id,
            later,
        ) == CredentialStatus::Revoked,
        s.after_admin_revoke_credential(now, credential_id) matches Ok(t) ==> t.status_at(
            credential_id,
            later,
        ) == CredentialStatus::Revoked,
{
}

/// Registering an issuer adds exactly that issuer and removing one removes
/// exactly that one: every other address keeps its standing, and neither
/// touches the admin, the counter or any credential. Registering succeeds
/// exactly in a constructed registry where the issuer is not yet registered;
/// removing, exactly where it is.
pub proof fn lemma_issuer_set_changes_exactly(s: RegistryState, issuer: Address, other: Address)
    ensures
        s.after_register_issuer(issuer) is Ok <==> (s.admin is Some && !s.issuers.contains(issuer)),
        s.after_remove_issuer(issuer) is Ok <==> (s.admin is Some && s.issuers.contains(issuer)),
        s.after_register_issuer(issuer) matches Ok(t) ==> {
            &&& (t.issuers.contains(other) <==> (s.issuers.contains(other) || other == issuer))
            &&& t.events == s.events.push(CredentialEvent::IssuerAdded { issuer })
            &&& t.changed_keys == s.changed_keys.push(DataKey::Issuer(issuer))
            &&& t.admin == s.admin
            &&& t.next_credential_id == s.next_credential_id
            &&& t.credentials == s.credentials
        },
        s.after_remove_issuer(issuer) matches Ok(t) ==> {
            &&& (t.issuers.contains(other) <==> (s.issuers.contains(other) && other != issuer))
            &&& t.events == s.events.push(CredentialEvent::IssuerRemoved { issuer })
            &&& t.changed_keys == s.changed_keys.push(DataKey::Issuer(issuer))
            &&& t.admin == s.admin
            &&& t.next_credential_id == s.next_credential_id
            &&& t.credentials == s.credentials
        },
{
}

/// A credential's status depends on the credential and the time alone:
/// unknown ids are `NotFound`; a stored credential is `Revoked` exactly when
/// a revocation is recorded, `Expired` exactly when it is not revoked and the
/// time has reached its expiry, and `Active` exactly when it is neither.
pub proof fn lemma_status_depends_on_credential_and_time(s: RegistryState, credential_id: u64, now: u64)
    ensures
        !s.credentials.contains_key(credential_id) ==> s.status_at(credential_id, now)
            == CredentialStatus::NotFound,
        s.credentials.contains_key(credential_id) ==> {
            let c = s.credentials[credential_id];
            &&& (s.status_at(credential_id, now) == CredentialStatus::Revoked <==> c.revoked_at is Some)
            &&& (s.status_at(credential_id, now) == CredentialStatus::Expired <==> (c.revoked_at is None
                && c.expires_at is Some && now >= c.expires_at.unwrap()))
            &&& (s.status_at(credential_id, now) == CredentialStatus::Active <==> (c.revoked_at is None && (
            c.expires_at is None || now < c.expires_at.unwrap())))
        },
{
}

/// Two registries that store the same credentials give every credential
/// the same status at every time, whatever their issuers, admin or counter.
pub proof fn lemma_status_ignores_everything_but_credentials(
    s: RegistryState,
    t: RegistryState,
    credential_id: u64,
    now: u64,
)
    requires
        s.credentials == t.credentials,
    ensures
        s.status_at(credential_id, now) == t.status_at(credential_id, now),
{
}

/// Registering or removing issuers never changes any credential's status.
pub proof fn lemma_issuer_changes_keep_statuses(s: RegistryState, issuer: Address, credential_id: u64, now: u64)
    ensures
        s.after_register_issuer(issuer) matches Ok(t) ==> t.status_at(credential_id, now) == s.status_at(
            credential_id,
            now,
        ),
        s.after_remove_issuer(issuer) matches Ok(t) ==> t.status_at(credential_id, now) == s.status_at(
            credential_id,
            now,
        ),
{
}

/// Issuing succeeds exactly for a registered issuer, with no expiry or one
/// after the current time, in a registry with a credential counter; the new
/// credential takes the counter's id and no other credential, issuer or the
/// admin changes.
pub proof fn lemma_issue_succeeds_exactly_when(
    s: RegistryState,
    now: u64,
    issuer: Address,
    recipient: Address,
    metadata_hash: [u8; 32],
    expires_at: Option<u64>,
    other: u64,
)
    ensures
        s.after_issue_credential(now, issuer, recipient, metadata_hash, expires_at) is Ok <==> (
        s.issuers.contains(issuer) && (expires_at is None || expires_at.unwrap() > now)
            && s.next_credential_id is Some),
        s.after_issue_credential(now, issuer, recipient, metadata_hash, expires_at) matches Ok((t, id)) ==> {
            &&& Some(id) == s.next_credential_id
            &&& t.next_credential_id == Some((id + 1) as u64)
            &&& t.issuers == s.issuers
            &&& t.admin == s.admin
            &&& (other != id ==> t.credential(other) == s.credential(other))
            &&& t.events == s.events.push(
                CredentialEvent::CredentialIssued { credential_id: id, issuer, recipient, metadata_hash },
            )
            &&& t.changed_keys == s.changed_keys.push(DataKey::Credential(id)).push(DataKey::NextCredentialId)
        },
{
}

/// An issuer revokes a credential it issued that is not yet revoked,
/// whenever it likes (before or after its expiry): the result is `Ok`, the
/// revocation time is the current time, the credential is otherwise
/// unchanged and reads as `Revoked`, and no other credential changes.
/// Revoking succeeds only in that case.
pub proof fn lemma_issuer_revocation_succeeds(s: RegistryState, now: u64, issuer: Address, credential_id: u64, other: u64, later: u64)
    ensures
        s.after_revoke_credential(now, issuer, credential_id) is Ok <==> (s.credentials.contains_key(credential_id)
            && s.credentials[credential_id].issuer == issuer && s.credentials[credential_id].revoked_at is None),
        (s.credentials.contains_key(credential_id) && s.credentials[credential_id].issuer == issuer
            && s.credentials[credential_id].revoked_at is None) ==> {
            &&& s.after_revoke_credential(now, issuer, credential_id) matches Ok(t)
            &&& t.credentials[credential_id] == (Credential { revoked_at: Some(now), ..s.credentials[credential_id] })
            &&& t.events == s.events.push(CredentialEvent::CredentialRevoked { credential_id, revoker: issuer })
            &&& t.changed_keys == s.changed_keys.push(DataKey::Credential(credential_id))
            &&& t.status_at(credential_id, later) == CredentialStatus::Revoked
            &&& (other != credential_id ==> t.credential(other) == s.credential(other))
            &&& t.issuers == s.issuers
        },
{
}

/// The admin of a constructed registry revokes any stored credential that is
/// not yet revoked, whenever it likes: the revocation time is the current
/// time and no other credential changes. Admin revocation succeeds only in
/// that case.
pub proof fn lemma_admin_revocation_succeeds(s: RegistryState, now: u64, credential_id: u64, other: u64, later: u64)
    ensures
        s.after_admin_revoke_credential(now, credential_id) is Ok <==> (s.admin is Some
            && s.credentials.contains_key(credential_id) && s.credentials[credential_id].revoked_at is None),
        (s.admin is Some && s.credentials.contains_key(credential_id)
            && s.credentials[credential_id].revoked_at is None) ==> {
            &&& s.after_admin_revoke_credential(now, credential_id) matches Ok(t)
            &&& t.credentials[credential_id] == (Credential { revoked_at: Some(now), ..s.credentials[credential_id] })
            &&& t.events == s.events.push(
                CredentialEvent::CredentialRevoked { credential_id, revoker: s.admin.unwrap() },
            )
            &&& t.changed_keys == s.changed_keys.push(DataKey::Credential(credential_id))
            &&& t.status_at(credential_id, later) == CredentialStatus::Revoked
            &&& (other != credential_id ==> t.credential(other) == s.credential(other))
            &&& t.issuers == s.issuers
        },
{
}

/// What the reads give back: a stored credential is returned as stored and
/// an unknown id gives nothing; the admin is returned once set and
/// `NotInitialized` before.
pub proof fn lemma_reads_give_back_storage(s: RegistryState, credential_id: u64)
    ensures
        s.credentials.contains_key(credential_id) ==> s.credential(credential_id) == Some(
            s.credentials[credential_id],
        ),
        !s.credentials.contains_key(credential_id) ==> s.credential(credential_id) is None,
        s.admin matches Some(a) ==> s.admin_or_error() == Ok::<Address, ContractError>(a),
        s.admin is None ==> s.admin_or_error() == Err::<Address, ContractError>(ContractError::NotInitialized),
{
}

/// Construction records the admin and starts the credential counter at 1,
/// touching nothing else.
pub proof fn lemma_construction_starts_the_counter(s: RegistryState, admin: Address)
    ensures
        s.after_constructor(admin).admin == Some(admin),
        s.after_constructor(admin).next_credential_id == Some(1u64),
        s.after_constructor(admin).issuers == s.issuers,
        s.after_constructor(admin).credentials == s.credentials,
        s.after_constructor(admin).events == s.events,
        s.after_constructor(admin).changed_keys == s.changed_keys.push(DataKey::Admin).push(
            DataKey::NextCredentialId,
        ),
{
}

} // verus!
