//! The credential registry.
//!
//! An admin approves and removes issuers; a registered issuer issues
//! credentials with sequential ids to recipients, each carrying an immutable
//! 32-byte metadata hash and an optional expiry; the issuing issuer or the
//! admin revokes a credential; anyone asks for a credential's status at the
//! current ledger time.

use vstd::prelude::*;
use std::collections::HashMap;
use crate::address::{Address, Invocation};

verus! {

broadcast use vstd::seq_lib::group_seq_properties;

/// The storage slot in which the contract keeps a value.
#[derive(Clone, Copy, Debug, PartialEq, Eq)]
pub enum DataKey {
    Admin,
    NextCredentialId,
    Issuer(Address),
    Credential(u64),
}

/// What a credential is at a given ledger time.
#[derive(Clone, Copy, Debug, PartialEq, Eq, Structural)]
pub enum CredentialStatus {
    Active,
    Expired,
    Revoked,
    NotFound,
}

/// One issued credential.
#[derive(Clone, Copy, Debug, PartialEq, Eq)]
pub struct Credential {
    pub id: u64,
    pub issuer: Address,
    pub recipient: Address,
    pub metadata_hash: [u8; 32],
    pub issued_at: u64,
    pub expires_at: Option<u64>,
    pub revoked_at: Option<u64>,
}

/// The errors that the registry's operations return.
#[derive(Clone, Copy, Debug, PartialEq, Eq, Structural)]
pub enum ContractError {
    AlreadyInitialized,
    NotInitialized,
    Unauthorized,
    IssuerAlreadyRegistered,
    IssuerNotFound,
    CredentialNotFound,
    NotAnIssuer,
    NotIssuerOrAdmin,
    AlreadyRevoked,
    InvalidExpiry,
}

impl ContractError {
    /// The number by which the error is known on the ledger.
    pub open spec fn error_code(self) -> u32 {
        match self {
            ContractError::AlreadyInitialized => 1,
            ContractError::NotInitialized => 2,
            ContractError::Unauthorized => 3,
            ContractError::IssuerAlreadyRegistered => 4,
            ContractError::IssuerNotFound => 5,
            ContractError::CredentialNotFound => 6,
            ContractError::NotAnIssuer => 7,
            ContractError::NotIssuerOrAdmin => 8,
            ContractError::AlreadyRevoked => 9,
            ContractError::InvalidExpiry => 10,
        }
    }

    /// The number by which the error is known on the ledger.
    pub fn code(&self) -> (r: u32)
        ensures
            r == self.error_code(),
    {
        match self {
            ContractError::AlreadyInitialized => 1,
            ContractError::NotInitialized => 2,
            ContractError::Unauthorized => 3,
            ContractError::IssuerAlreadyRegistered => 4,
            ContractError::IssuerNotFound => 5,
            ContractError::CredentialNotFound => 6,
            ContractError::NotAnIssuer => 7,
            ContractError::NotIssuerOrAdmin => 8,
            ContractError::AlreadyRevoked => 9,
            ContractError::InvalidExpiry => 10,
        }
    }
}

/// An event that the registry publishes.
#[derive(Clone, Copy, Debug, PartialEq, Eq)]
pub enum CredentialEvent {
    /// An issuer was approved.
    IssuerAdded { issuer: Address },
    /// An issuer was removed.
    IssuerRemoved { issuer: Address },
    /// A credential was issued.
    CredentialIssued {
        credential_id: u64,
        issuer: Address,
        recipient: Address,
        metadata_hash: [u8; 32],
    },
    /// A credential was revoked by `revoker`.
    CredentialRevoked { credential_id: u64, revoker: Address },
}

impl CredentialEvent {
    /// The topic under which the event is published.
    pub open spec fn topic_text(self) -> Seq<char> {
        match self {
            CredentialEvent::IssuerAdded { .. } => "iss_add"@,
            CredentialEvent::IssuerRemoved { .. } => "iss_rm"@,
            CredentialEvent::CredentialIssued { .. } => "cred_iss"@,
            CredentialEvent::CredentialRevoked { .. } => "cred_rev"@,
        }
    }

    /// The topic under which the event is published.
    pub fn topic(&self) -> (r: &'static str)
        ensures
            r@ == self.topic_text(),
    {
        match self {
            CredentialEvent::IssuerAdded { .. } => "iss_add",
            CredentialEvent::IssuerRemoved { .. } => "iss_rm",
            CredentialEvent::CredentialIssued { .. } => "cred_iss",
            CredentialEvent::CredentialRevoked { .. } => "cred_rev",
        }
    }
}

/// What the contract holds: its storage, and the events and changed storage
/// slots that the operations so far have produced, in order.
pub struct RegistryState {
    pub admin: Option<Address>,
    pub next_credential_id: Option<u64>,
    pub issuers: Set<Address>,
    pub credentials: Map<u64, Credential>,
    pub events: Seq<CredentialEvent>,
    pub changed_keys: Seq<DataKey>,
}

/// The status of `c` at ledger time `now`.
pub open spec fn status_of(c: Credential, now: u64) -> CredentialStatus {
    if c.revoked_at is Some {
        CredentialStatus::Revoked
    } else if c.expires_at matches Some(exp) && now >= exp {
        CredentialStatus::Expired
    } else {
        CredentialStatus::Active
    }
}

impl RegistryState {
    /// Storage before the contract is constructed.
    pub open spec fn empty() -> RegistryState {
        RegistryState {
            admin: None,
            next_credential_id: None,
            issuers: Set::empty(),
            credentials: Map::empty(),
            events: Seq::empty(),
            changed_keys: Seq::empty(),
        }
    }

    /// The credential stored under `credential_id`, if any.
    pub open spec fn credential(self, credential_id: u64) -> Option<Credential> {
        if self.credentials.contains_key(credential_id) {
            Some(self.credentials[credential_id])
        } else {
            None
        }
    }

    /// The status of credential `credential_id` at ledger time `now`.
    pub open spec fn status_at(self, credential_id: u64, now: u64) -> CredentialStatus {
        match self.credential(credential_id) {
            None => CredentialStatus::NotFound,
            Some(c) => status_of(c, now),
        }
    }

    /// The admin, or `NotInitialized`.
    pub open spec fn admin_or_error(self) -> Result<Address, ContractError> {
        match self.admin {
            Some(a) => Ok(a),
            None => Err(ContractError::NotInitialized),
        }
    }

    /// The state after the constructor records `admin`.
    pub open spec fn after_constructor(self, admin: Address) -> RegistryState {
        RegistryState {
            admin: Some(admin),
            next_credential_id: Some(1),
            changed_keys: self.changed_keys.push(DataKey::Admin).push(DataKey::NextCredentialId),
            ..self
        }
    }

    /// The outcome of approving `issuer`.
    pub open spec fn after_register_issuer(self, issuer: Address) -> Result<RegistryState, ContractError> {
        if self.admin is None {
            Err(ContractError::NotInitialized)
        } else if self.issuers.contains(issuer) {
            Err(ContractError::IssuerAlreadyRegistered)
        } else {
            Ok(RegistryState {
                issuers: self.issuers.insert(issuer),
                events: self.events.push(CredentialEvent::IssuerAdded { issuer }),
                changed_keys: self.changed_keys.push(DataKey::Issuer(issuer)),
                ..self
            })
        }
    }

    /// The outcome of removing `issuer`.
    pub open spec fn after_remove_issuer(self, issuer: Address) -> Result<RegistryState, ContractError> {
        if self.admin is None {
            Err(ContractError::NotInitialized)
        } else if !self.issuers.contains(issuer) {
            Err(ContractError::IssuerNotFound)
        } else {
            Ok(RegistryState {
                issuers: self.issuers.remove(issuer),
                events: self.events.push(CredentialEvent::IssuerRemoved { issuer }),
                changed_keys: self.changed_keys.push(DataKey::Issuer(issuer)),
                ..self
            })
        }
    }

    /// The outcome of `issuer` issuing a credential at ledger time `now`:
    /// the new state and the new credential's id.
    pub open spec fn after_issue_credential(
        self,
        now: u64,
        issuer: Address,
        recipient: Address,
        metadata_hash: [u8; 32],
        expires_at: Option<u64>,
    ) -> Result<(RegistryState, u64), ContractError> {
        if !self.issuers.contains(issuer) {
            Err(ContractError::NotAnIssuer)
        } else if expires_at matches Some(exp) && exp <= now {
            Err(ContractError::InvalidExpiry)
        } else if self.next_credential_id is None {
            Err(ContractError::NotInitialized)
        } else {
            let id = self.next_credential_id.unwrap();
            let credential = Credential {
                id,
                issuer,
                recipient,
                metadata_hash,
                issued_at: now,
                expires_at,
                revoked_at: None,
            };
            Ok((
                RegistryState {
                    credentials: self.credentials.insert(id, credential),
                    next_credential_id: Some((id + 1) as u64),
                    events: self.events.push(
                        CredentialEvent::CredentialIssued {
                            credential_id: id,
                            issuer,
                            recipient,
                            metadata_hash,
                        },
                    ),
                    changed_keys: self.changed_keys.push(DataKey::Credential(id)).push(
                        DataKey::NextCredentialId,
                    ),
                    ..self
                },
                id,
            ))
        }
    }

    /// The state after credential `credential_id` is marked revoked at `now`
    /// by `revoker`.
    pub open spec fn with_revocation(self, credential_id: u64, now: u64, revoker: Address) -> RegistryState {
        RegistryState {
            credentials: self.credentials.insert(
                credential_id,
                Credential { revoked_at: Some(now), ..self.credentials[credential_id] },
            ),
            events: self.events.push(CredentialEvent::CredentialRevoked { credential_id, revoker }),
            changed_keys: self.changed_keys.push(DataKey::Credential(credential_id)),
            ..self
        }
    }

    /// The outcome of `issuer` revoking credential `credential_id` at `now`.
    pub open spec fn after_revoke_credential(self, now: u64, issuer: Address, credential_id: u64) -> Result<RegistryState, ContractError> {
        if !self.credentials.contains_key(credential_id) {
            Err(ContractError::CredentialNotFound)
        } else if self.credentials[credential_id].issuer != issuer {
            Err(ContractError::Unauthorized)
        } else if self.credentials[credential_id].revoked_at is Some {
            Err(ContractError::AlreadyRevoked)
        } else {
            Ok(self.with_revocation(credential_id, now, issuer))
        }
    }

    /// The outcome of the admin revoking credential `credential_id` at `now`.
    pub open spec fn after_admin_revoke_credential(self, now: u64, credential_id: u64) -> Result<RegistryState, ContractError> {
        match self.admin {
            None => Err(ContractError::NotInitialized),
            Some(admin) => if !self.credentials.contains_key(credential_id) {
                Err(ContractError::CredentialNotFound)
            } else if self.credentials[credential_id].revoked_at is Some {
                Err(ContractError::AlreadyRevoked)
            } else {
                Ok(self.with_revocation(credential_id, now, admin))
            },
        }
    }
}

/// `r` and `after` are what an operation whose outcome is `expected`
/// returns and leaves: the new state on success, the old one on an error.
pub open spec fn completes_as(
    before: RegistryState,
    after: RegistryState,
    r: Result<(), ContractError>,
    expected: Result<RegistryState, ContractError>,
) -> bool {
    match expected {
        Ok(s) => r is Ok && after == s,
        Err(e) => r == Err::<(), ContractError>(e) && after == before,
    }
}

/// The registry: what the contract keeps in storage, and the events and
/// changed storage slots its operations have produced.
pub struct CredentialRegistry {
    admin: Option<Address>,
    next_credential_id: Option<u64>,
    issuers: Vec<Address>,
    credentials: HashMap<u64, Credential>,
    events: Vec<CredentialEvent>,
    changed_keys: Vec<DataKey>,
}

impl View for CredentialRegistry {
    type V = RegistryState;

    closed spec fn view(&self) -> RegistryState {
        RegistryState {
            admin: self.admin,
            next_credential_id: self.next_credential_id,
            issuers: self.issuers@.to_set(),
            credentials: self.credentials@,
            events: self.events@,
            changed_keys: self.changed_keys@,
        }
    }
}

/// The addresses of `v` other than `a`, in order.
fn without(v: &Vec<Address>, a: &Address) -> (r: Vec<Address>)
    ensures
        r@.to_set() =~= v@.to_set().remove(*a),
{
    let mut r: Vec<Address> = Vec::new();
    let mut i: usize = 0;
    while i < v.len()
        invariant
            0 <= i <= v@.len(),
            forall|x: Address| r@.contains(x) <==> (x != *a && v@.subrange(0, i as int).contains(x)),
        decreases v@.len() - i,
    {
        let ghost before = r@;
        assert(v@.subrange(0, i + 1) =~= v@.subrange(0, i as int).push(v@[i as int]));
        if !v[i].same_as(a) {
            r.push(v[i]);
            assert(r@ =~= before.push(v@[i as int]));
        }
        i = i + 1;
    }
    assert(v@.subrange(0, v@.len() as int) =~= v@);
    r
}

impl CredentialRegistry {
    /// Storage before the contract is constructed.
    pub fn new() -> (r: CredentialRegistry)
        ensures
            r@ == RegistryState::empty(),
    {
        let r = CredentialRegistry {
            admin: None,
            next_credential_id: None,
            issuers: Vec::new(),
            credentials: HashMap::new(),
            events: Vec::new(),
            changed_keys: Vec::new(),
        };
        assert(r@.issuers =~= Set::<Address>::empty());
        r
    }

    /// Records the admin and the first credential id. The ledger runs this
    /// once, at deployment; a second run aborts ("already initialized").
    pub fn __constructor(&mut self, admin: Address)
        requires
            old(self)@.admin is None,
        ensures
            final(self)@ == old(self)@.after_constructor(admin),
    {
        self.admin = Some(admin);
        self.next_credential_id = Some(1);
        self.changed_keys.push(DataKey::Admin);
        self.changed_keys.push(DataKey::NextCredentialId);
    }

    fn find_issuer(&self, issuer: &Address) -> (r: Option<usize>)
        ensures
            match r {
                Some(i) => i < self.issuers@.len() && self.issuers@[i as int] == *issuer,
                None => !self.issuers@.contains(*issuer),
            },
    {
        let mut i: usize = 0;
        while i < self.issuers.len()
            invariant
                0 <= i <= self.issuers@.len(),
                forall|j: int| 0 <= j < i ==> self.issuers@[j] != *issuer,
            decreases self.issuers@.len() - i,
        {
            if self.issuers[i].same_as(issuer) {
                return Some(i);
            }
            i = i + 1;
        }
        None
    }

    fn require_admin(&self) -> (r: Result<Address, ContractError>)
        ensures
            r == self@.admin_or_error(),
    {
        match self.admin {
            Some(a) => Ok(a),
            None => Err(ContractError::NotInitialized),
        }
    }

    fn next_credential_id(&self) -> (r: Result<u64, ContractError>)
        ensures
            r == match self@.next_credential_id {
                Some(n) => Ok::<u64, ContractError>(n),
                None => Err(ContractError::NotInitialized),
            },
    {
        match self.next_credential_id {
            Some(n) => Ok(n),
            None => Err(ContractError::NotInitialized),
        }
    }

    fn require_credential(&self, credential_id: u64) -> (r: Result<Credential, ContractError>)
        ensures
            r == match self@.credential(credential_id) {
                Some(c) => Ok::<Credential, ContractError>(c),
                None => Err(ContractError::CredentialNotFound),
            },
    {
        match self.credentials.get(&credential_id) {
            Some(c) => Ok(*c),
            None => Err(ContractError::CredentialNotFound),
        }
    }

    fn require_certified_issuer(&self, issuer: &Address) -> (r: Result<(), ContractError>)
        ensures
            r == if self@.issuers.contains(*issuer) {
                Ok::<(), ContractError>(())
            } else {
                Err(ContractError::NotAnIssuer)
            },
    {
        if self.find_issuer(issuer).is_none() {
            return Err(ContractError::NotAnIssuer);
        }
        Ok(())
    }

    /// Approves `issuer`. The admin's authorization is demanded.
    pub fn register_issuer(&mut self, inv: &Invocation, issuer: Address) -> (r: Result<(), ContractError>)
        requires
            old(self)@.admin matches Some(admin) ==> inv.auth.authorizes(admin),
        ensures
            completes_as(old(self)@, final(self)@, r, old(self)@.after_register_issuer(issuer)),
    {
        let _admin = self.require_admin()?;
        if self.find_issuer(&issuer).is_some() {
            return Err(ContractError::IssuerAlreadyRegistered);
        }
        let ghost before = self.issuers@;
        self.issuers.push(issuer);
        assert(self.issuers@.to_set() =~= before.to_set().insert(issuer));
        self.events.push(CredentialEvent::IssuerAdded { issuer });
        self.changed_keys.push(DataKey::Issuer(issuer));
        Ok(())
    }

    /// Removes `issuer`. The admin's authorization is demanded.
    pub fn remove_issuer(&mut self, inv: &Invocation, issuer: Address) -> (r: Result<(), ContractError>)
        requires
            old(self)@.admin matches Some(admin) ==> inv.auth.authorizes(admin),
        ensures
            completes_as(old(self)@, final(self)@, r, old(self)@.after_remove_issuer(issuer)),
    {
        let _admin = self.require_admin()?;
        if self.find_issuer(&issuer).is_none() {
            return Err(ContractError::IssuerNotFound);
        }
        self.issuers = without(&self.issuers, &issuer);
        self.events.push(CredentialEvent::IssuerRemoved { issuer });
        self.changed_keys.push(DataKey::Issuer(issuer));
        Ok(())
    }

    /// Whether issuing with these arguments would get past every check and
    /// then find the credential counter at its maximum (the ledger aborts
    /// such an invocation when it increments the counter).
    pub fn issue_credential_overflows(
        &self,
        inv: &Invocation,
        issuer: Address,
        recipient: Address,
        metadata_hash: [u8; 32],
        expires_at: Option<u64>,
    ) -> (r: bool)
        ensures
            r == (self@.after_issue_credential(inv.timestamp, issuer, recipient, metadata_hash, expires_at) is Ok
                && self@.next_credential_id == Some(u64::MAX)),
    {
        if self.find_issuer(&issuer).is_none() {
            return false;
        }
        if let Some(exp) = expires_at {
            if exp <= inv.timestamp {
                return false;
            }
        }
        match self.next_credential_id {
            Some(n) => n == u64::MAX,
            None => false,
        }
    }

    /// Issues a credential from `issuer` to `recipient` and returns its id.
    /// The issuer's authorization is demanded.
    pub fn issue_credential(
        &mut self,
        inv: &Invocation,
        issuer: Address,
        recipient: Address,
        metadata_hash: [u8; 32],
        expires_at: Option<u64>,
    ) -> (r: Result<u64, ContractError>)
        requires
            inv.auth.authorizes(issuer),
            old(self)@.after_issue_credential(inv.timestamp, issuer, recipient, metadata_hash, expires_at) is Ok
                ==> old(self)@.next_credential_id != Some(u64::MAX),
        ensures
            match old(self)@.after_issue_credential(inv.timestamp, issuer, recipient, metadata_hash, expires_at) {
                Ok((s, id)) => r == Ok::<u64, ContractError>(id) && final(self)@ == s,
                Err(e) => r == Err::<u64, ContractError>(e) && final(self)@ == old(self)@,
            },
    {
        self.require_certified_issuer(&issuer)?;
        if let Some(exp) = expires_at {
            if exp <= inv.timestamp {
                return Err(ContractError::InvalidExpiry);
            }
        }
        let id = self.next_credential_id()?;
        let now = inv.timestamp;
        let credential = Credential {
            id,
            issuer,
            recipient,
            metadata_hash,
            issued_at: now,
            expires_at,
            revoked_at: None,
        };
        self.credentials.insert(id, credential);
        self.changed_keys.push(DataKey::Credential(id));
        self.next_credential_id = Some(id + 1);
        self.changed_keys.push(DataKey::NextCredentialId);
        self.events.push(
            CredentialEvent::CredentialIssued { credential_id: id, issuer, recipient, metadata_hash },
        );
        Ok(id)
    }

    /// Marks credential `credential_id`, known to exist and not yet revoked,
    /// revoked now by `revoker`.
    fn record_revocation(&mut self, inv: &Invocation, credential: Credential, credential_id: u64, revoker: Address)
        requires
            old(self)@.credential(credential_id) == Some(credential),
        ensures
            final(self)@ == old(self)@.with_revocation(credential_id, inv.timestamp, revoker),
    {
        let mut credential = credential;
        credential.revoked_at = Some(inv.timestamp);
        self.credentials.insert(credential_id, credential);
        self.changed_keys.push(DataKey::Credential(credential_id));
        self.events.push(CredentialEvent::CredentialRevoked { credential_id, revoker });
    }

    /// `issuer` revokes a credential that it issued. The issuer's
    /// authorization is demanded.
    pub fn revoke_credential(&mut self, inv: &Invocation, issuer: Address, credential_id: u64) -> (r: Result<(), ContractError>)
        requires
            inv.auth.authorizes(issuer),
        ensures
            completes_as(
                old(self)@,
                final(self)@,
                r,
                old(self)@.after_revoke_credential(inv.timestamp, issuer, credential_id),
            ),
    {
        let credential = self.require_credential(credential_id)?;
        if !credential.issuer.same_as(&issuer) {
            return Err(ContractError::Unauthorized);
        }
        if credential.revoked_at.is_some() {
            return Err(ContractError::AlreadyRevoked);
        }
        self.record_revocation(inv, credential, credential_id, issuer);
        Ok(())
    }

    /// The admin revokes any credential. The admin's authorization is
    /// demanded.
    pub fn admin_revoke_credential(&mut self, inv: &Invocation, credential_id: u64) -> (r: Result<(), ContractError>)
        requires
            old(self)@.admin matches Some(admin) ==> inv.auth.authorizes(admin),
        ensures
            completes_as(
                old(self)@,
                final(self)@,
                r,
                old(self)@.after_admin_revoke_credential(inv.timestamp, credential_id),
            ),
    {
        let admin = self.require_admin()?;
        let credential = self.require_credential(credential_id)?;
        if credential.revoked_at.is_some() {
            return Err(ContractError::AlreadyRevoked);
        }
        self.record_revocation(inv, credential, credential_id, admin);
        Ok(())
    }

    /// The status of credential `credential_id` at the invocation's ledger
    /// time.
    pub fn verify_credential(&self, inv: &Invocation, credential_id: u64) -> (r: CredentialStatus)
        ensures
            r == self@.status_at(credential_id, inv.timestamp),
    {
        let credential = match self.credentials.get(&credential_id) {
            Some(c) => *c,
            None => return CredentialStatus::NotFound,
        };
        if credential.revoked_at.is_some() {
            return CredentialStatus::Revoked;
        }
        if let Some(exp) = credential.expires_at {
            if inv.timestamp >= exp {
                return CredentialStatus::Expired;
            }
        }
        CredentialStatus::Active
    }

    /// The credential stored under `credential_id`, if any.
    pub fn get_credential(&self, credential_id: u64) -> (r: Option<Credential>)
        ensures
            r == self@.credential(credential_id),
    {
        match self.credentials.get(&credential_id) {
            Some(c) => Some(*c),
            None => None,
        }
    }

    /// Whether `issuer` is an approved issuer.
    pub fn is_issuer(&self, issuer: Address) -> (r: bool)
        ensures
            r == self@.issuers.contains(issuer),
    {
        self.find_issuer(&issuer).is_some()
    }

    /// The admin.
    pub fn get_admin(&self) -> (r: Result<Address, ContractError>)
        ensures
            r == self@.admin_or_error(),
    {
        self.require_admin()
    }

    /// Puts `admin` into the admin slot, as read from storage.
    pub fn load_admin(&mut self, admin: Address)
        ensures
            final(self)@ == (RegistryState { admin: Some(admin), ..old(self)@ }),
    {
        self.admin = Some(admin);
    }

    /// Puts `n` into the credential counter slot, as read from storage.
    pub fn load_next_credential_id(&mut self, n: u64)
        ensures
            final(self)@ == (RegistryState { next_credential_id: Some(n), ..old(self)@ }),
    {
        self.next_credential_id = Some(n);
    }

    /// Marks `issuer` approved, as read from storage.
    pub fn load_issuer(&mut self, issuer: Address)
        ensures
            final(self)@ == (RegistryState { issuers: old(self)@.issuers.insert(issuer), ..old(self)@ }),
    {
        if self.find_issuer(&issuer).is_none() {
            let ghost before = self.issuers@;
            self.issuers.push(issuer);
            assert(self.issuers@.to_set() =~= before.to_set().insert(issuer));
        } else {
            assert(self@.issuers =~= self@.issuers.insert(issuer));
        }
    }

    /// Puts `credential` into its slot, as read from storage.
    pub fn load_credential(&mut self, credential: Credential)
        ensures
            final(self)@ == (RegistryState {
                credentials: old(self)@.credentials.insert(credential.id, credential),
                ..old(self)@
            }),
    {
        self.credentials.insert(credential.id, credential);
    }

    /// The credential counter.
    pub fn stored_next_credential_id(&self) -> (r: Option<u64>)
        ensures
            r == self@.next_credential_id,
    {
        self.next_credential_id
    }

    /// The events published so far, oldest first.
    pub fn events(&self) -> (r: &Vec<CredentialEvent>)
        ensures
            r@ == self@.events,
    {
        &self.events
    }

    /// The storage slots written or removed so far, in order.
    pub fn changed_keys(&self) -> (r: &Vec<DataKey>)
        ensures
            r@ == self@.changed_keys,
    {
        &self.changed_keys
    }
}

} // verus!
