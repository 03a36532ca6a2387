//! The warehouse receipt registry.
//!
//! Each receipt is a unique record of a quantity of a commodity held in a
//! warehouse. An admin certifies issuers; a certified issuer issues an active
//! receipt to an owner; the owner transfers it to another owner; owner and
//! issuer together redeem it, after which it is final.

use vstd::prelude::*;
use std::collections::HashMap;
use crate::address::{Address, Invocation};

verus! {

broadcast use vstd::seq_lib::group_seq_properties;

/// The storage slot in which the contract keeps a value.
#[derive(Clone, Copy, Debug, PartialEq, Eq)]
pub enum DataKey {
    Admin,
    Issuers,
    NextReceiptId,
    Receipt(u64),
}

/// Where a receipt is in its lifecycle.
#[derive(Clone, Copy, Debug, PartialEq, Eq, Structural)]
pub enum ReceiptStatus {
    Active,
    Redeemed,
    Cancelled,
}

/// One warehouse receipt.
#[derive(Clone, Debug, PartialEq, Eq)]
pub struct Receipt {
    pub receipt_id: u64,
    pub issuer: Address,
    pub owner: Address,
    pub commodity: String,
    pub quantity_kg: i128,
    pub grade: String,
    pub warehouse_name: String,
    pub location: String,
    pub metadata_hash: String,
    pub issued_at: u64,
    pub expires_at: u64,
    pub status: ReceiptStatus,
}

/// What an issuer supplies for a new receipt.
#[derive(Clone, Debug, PartialEq, Eq)]
pub struct ReceiptInput {
    pub owner: Address,
    pub commodity: String,
    pub quantity_kg: i128,
    pub grade: String,
    pub warehouse_name: String,
    pub location: String,
    pub metadata_hash: String,
    pub expires_at: u64,
}

/// The errors that the registry's operations return.
#[derive(Clone, Copy, Debug, PartialEq, Eq, Structural)]
pub enum ContractError {
    AlreadyInitialized,
    Unauthorized,
    IssuerAlreadyCertified,
    IssuerNotCertified,
    ReceiptNotFound,
    InvalidAmount,
    InvalidOwner,
    InvalidState,
}

impl ContractError {
    /// The number by which the error is known on the ledger.
    pub open spec fn error_code(self) -> u32 {
        match self {
            ContractError::AlreadyInitialized => 1,
            ContractError::Unauthorized => 2,
            ContractError::IssuerAlreadyCertified => 3,
            ContractError::IssuerNotCertified => 4,
            ContractError::ReceiptNotFound => 5,
            ContractError::InvalidAmount => 6,
            ContractError::InvalidOwner => 7,
            ContractError::InvalidState => 8,
        }
    }

    /// The number by which the error is known on the ledger.
    pub fn code(&self) -> (r: u32)
        ensures
            r == self.error_code(),
    {
        match self {
            ContractError::AlreadyInitialized => 1,
            ContractError::Unauthorized => 2,
            ContractError::IssuerAlreadyCertified => 3,
            ContractError::IssuerNotCertified => 4,
            ContractError::ReceiptNotFound => 5,
            ContractError::InvalidAmount => 6,
            ContractError::InvalidOwner => 7,
            ContractError::InvalidState => 8,
        }
    }
}

/// An event that the registry publishes.
#[derive(Clone, Copy, Debug, PartialEq, Eq)]
pub enum ReceiptEvent {
    /// An issuer was certified.
    IssuerAdded { issuer: Address },
    /// An issuer's certification was withdrawn.
    IssuerRemoved { issuer: Address },
    /// A receipt was issued.
    Issued { receipt_id: u64, issuer: Address, owner: Address },
    /// A receipt changed hands.
    Transferred { receipt_id: u64, from: Address, to: Address },
    /// A receipt was redeemed.
    Redeemed { receipt_id: u64, owner: Address, issuer: Address },
}

impl ReceiptEvent {
    /// The topic under which the event is published.
    pub open spec fn topic_text(self) -> Seq<char> {
        match self {
            ReceiptEvent::IssuerAdded { .. } => "issr_add"@,
            ReceiptEvent::IssuerRemoved { .. } => "issuer_rm"@,
            ReceiptEvent::Issued { .. } => "issued"@,
            ReceiptEvent::Transferred { .. } => "transfer"@,
            ReceiptEvent::Redeemed { .. } => "redeemed"@,
        }
    }

    /// The topic under which the event is published.
    pub fn topic(&self) -> (r: &'static str)
        ensures
            r@ == self.topic_text(),
    {
        match self {
            ReceiptEvent::IssuerAdded { .. } => "issr_add",
            ReceiptEvent::IssuerRemoved { .. } => "issuer_rm",
            ReceiptEvent::Issued { .. } => "issued",
            ReceiptEvent::Transferred { .. } => "transfer",
            ReceiptEvent::Redeemed { .. } => "redeemed",
        }
    }
}

/// What the contract holds: its storage, and the events and changed storage
/// slots that the operations so far have produced, in order.
pub struct ReceiptState {
    pub admin: Option<Address>,
    pub issuers: Option<Map<Address, bool>>,
    pub next_receipt_id: Option<u64>,
    pub receipts: Map<u64, Receipt>,
    pub events: Seq<ReceiptEvent>,
    pub changed_keys: Seq<DataKey>,
}

/// Whether the issuer table `m` marks `issuer` certified.
pub open spec fn certified(m: Map<Address, bool>, issuer: Address) -> bool {
    m.contains_key(issuer) && m[issuer]
}

/// The receipts among ids `lo .. hi` (in increasing order) that `owner`
/// holds.
pub open spec fn owned_in_range(receipts: Map<u64, Receipt>, owner: Address, lo: int, hi: int) -> Seq<Receipt>
    decreases hi - lo,
{
    if hi <= lo {
        Seq::empty()
    } else {
        let earlier = owned_in_range(receipts, owner, lo, hi - 1);
        let id = (hi - 1) as u64;
        if receipts.contains_key(id) && receipts[id].owner == owner {
            earlier.push(receipts[id])
        } else {
            earlier
        }
    }
}

impl ReceiptState {
    /// Storage before the contract is initialized.
    pub open spec fn empty() -> ReceiptState {
        ReceiptState {
            admin: None,
            issuers: None,
            next_receipt_id: None,
            receipts: Map::empty(),
            events: Seq::empty(),
            changed_keys: Seq::empty(),
        }
    }

    /// The receipt stored under `receipt_id`, or `ReceiptNotFound`.
    pub open spec fn receipt_or_error(self, receipt_id: u64) -> Result<Receipt, ContractError> {
        if self.receipts.contains_key(receipt_id) {
            Ok(self.receipts[receipt_id])
        } else {
            Err(ContractError::ReceiptNotFound)
        }
    }

    /// Whether `issuer` is certified, or `Unauthorized` when there is no
    /// issuer table.
    pub open spec fn certification(self, issuer: Address) -> Result<bool, ContractError> {
        match self.issuers {
            Some(m) => Ok(certified(m, issuer)),
            None => Err(ContractError::Unauthorized),
        }
    }

    /// The outcome of initializing the contract with `admin`.
    pub open spec fn after_init(self, admin: Address) -> Result<ReceiptState, ContractError> {
        if self.admin is Some {
            Err(ContractError::AlreadyInitialized)
        } else {
            Ok(ReceiptState {
                admin: Some(admin),
                next_receipt_id: Some(1),
                issuers: Some(Map::empty()),
                changed_keys: self.changed_keys.push(DataKey::Admin).push(DataKey::NextReceiptId).push(
                    DataKey::Issuers,
                ),
                ..self
            })
        }
    }

    /// The outcome of certifying `issuer`.
    pub open spec fn after_add_issuer(self, issuer: Address) -> Result<ReceiptState, ContractError> {
        if self.admin is None || self.issuers is None {
            Err(ContractError::Unauthorized)
        } else if certified(self.issuers.unwrap(), issuer) {
            Err(ContractError::IssuerAlreadyCertified)
        } else {
            Ok(ReceiptState {
                issuers: Some(self.issuers.unwrap().insert(issuer, true)),
                changed_keys: self.changed_keys.push(DataKey::Issuers),
                events: self.events.push(ReceiptEvent::IssuerAdded { issuer }),
                ..self
            })
        }
    }

    /// The outcome of withdrawing the certification of `issuer`.
    pub open spec fn after_remove_issuer(self, issuer: Address) -> Result<ReceiptState, ContractError> {
        if self.admin is None || self.issuers is None {
            Err(ContractError::Unauthorized)
        } else if !certified(self.issuers.unwrap(), issuer) {
            Err(ContractError::IssuerNotCertified)
        } else {
            Ok(ReceiptState {
                issuers: Some(self.issuers.unwrap().insert(issuer, false)),
                changed_keys: self.changed_keys.push(DataKey::Issuers),
                events: self.events.push(ReceiptEvent::IssuerRemoved { issuer }),
                ..self
            })
        }
    }

    /// The outcome of `issuer` issuing a receipt from `input` at ledger time
    /// `now`: the new state and the new receipt's id.
    pub open spec fn after_issue(self, now: u64, issuer: Address, input: ReceiptInput) -> Result<(ReceiptState, u64), ContractError> {
        if self.issuers is None {
            Err(ContractError::Unauthorized)
        } else if !certified(self.issuers.unwrap(), issuer) {
            Err(ContractError::IssuerNotCertified)
        } else if input.quantity_kg <= 0 {
            Err(ContractError::InvalidAmount)
        } else if input.owner == issuer {
            Err(ContractError::InvalidOwner)
        } else if self.next_receipt_id is None {
            Err(ContractError::Unauthorized)
        } else {
            let id = self.next_receipt_id.unwrap();
            let receipt = Receipt {
                receipt_id: id,
                issuer,
                owner: input.owner,
                commodity: input.commodity,
                quantity_kg: input.quantity_kg,
                grade: input.grade,
                warehouse_name: input.warehouse_name,
                location: input.location,
                metadata_hash: input.metadata_hash,
                issued_at: now,
                expires_at: input.expires_at,
                status: ReceiptStatus::Active,
            };
            Ok((
                ReceiptState {
                    receipts: self.receipts.insert(id, receipt),
                    next_receipt_id: Some((id + 1) as u64),
                    changed_keys: self.changed_keys.push(DataKey::Receipt(id)).push(DataKey::NextReceiptId),
                    events: self.events.push(ReceiptEvent::Issued { receipt_id: id, issuer, owner: input.owner }),
                    ..self
                },
                id,
            ))
        }
    }

    /// The outcome of `owner` handing receipt `receipt_id` to `new_owner`.
    pub open spec fn after_transfer(self, owner: Address, receipt_id: u64, new_owner: Address) -> Result<ReceiptState, ContractError> {
        if !self.receipts.contains_key(receipt_id) {
            Err(ContractError::ReceiptNotFound)
        } else if self.receipts[receipt_id].status != ReceiptStatus::Active {
            Err(ContractError::InvalidState)
        } else if self.receipts[receipt_id].owner != owner {
            Err(ContractError::Unauthorized)
        } else if new_owner == owner {
            Err(ContractError::InvalidOwner)
        } else {
            Ok(ReceiptState {
                receipts: self.receipts.insert(receipt_id, Receipt { owner: new_owner, ..self.receipts[receipt_id] }),
                changed_keys: self.changed_keys.push(DataKey::Receipt(receipt_id)),
                events: self.events.push(ReceiptEvent::Transferred { receipt_id, from: owner, to: new_owner }),
                ..self
            })
        }
    }

    /// The outcome of `owner` and `issuer` redeeming receipt `receipt_id`.
    pub open spec fn after_redeem(self, owner: Address, issuer: Address, receipt_id: u64) -> Result<ReceiptState, ContractError> {
        if !self.receipts.contains_key(receipt_id) {
            Err(ContractError::ReceiptNotFound)
        } else if self.receipts[receipt_id].status != ReceiptStatus::Active {
            Err(ContractError::InvalidState)
        } else if self.receipts[receipt_id].owner != owner {
            Err(ContractError::Unauthorized)
        } else if self.receipts[receipt_id].issuer != issuer {
            Err(ContractError::Unauthorized)
        } else {
            Ok(ReceiptState {
                receipts: self.receipts.insert(
                    receipt_id,
                    Receipt { status: ReceiptStatus::Redeemed, ..self.receipts[receipt_id] },
                ),
                changed_keys: self.changed_keys.push(DataKey::Receipt(receipt_id)),
                events: self.events.push(ReceiptEvent::Redeemed { receipt_id, owner, issuer }),
                ..self
            })
        }
    }

    /// The answer to listing `owner`'s receipts among at most `limit` ids
    /// from `from_id` on.
    pub open spec fn listing(self, owner: Address, from_id: u64, limit: u32) -> Result<Seq<Receipt>, ContractError> {
        match self.next_receipt_id {
            None => Err(ContractError::Unauthorized),
            Some(next) => Ok(
                owned_in_range(
                    self.receipts,
                    owner,
                    from_id as int,
                    if next < from_id + limit { next as int } else { from_id + limit },
                ),
            ),
        }
    }
}

/// `r` and `after` are what an operation whose outcome is `expected`
/// returns and leaves: the new state on success, the old one on an error.
pub open spec fn completes_as(
    before: ReceiptState,
    after: ReceiptState,
    r: Result<(), ContractError>,
    expected: Result<ReceiptState, ContractError>,
) -> bool {
    match expected {
        Ok(s) => r is Ok && after == s,
        Err(e) => r == Err::<(), ContractError>(e) && after == before,
    }
}

/// The issuer table that a sequence of writes `(issuer, flag)` leaves, the
/// later writes winning.
pub open spec fn table_of(entries: Seq<(Address, bool)>) -> Map<Address, bool>
    decreases entries.len(),
{
    if entries.len() == 0 {
        Map::empty()
    } else {
        table_of(entries.drop_last()).insert(entries.last().0, entries.last().1)
    }
}

/// The last write to `a` at index `j` (or none at all, `j == -1`)
/// determines the table's entry for `a`.
proof fn lemma_table_lookup(entries: Seq<(Address, bool)>, a: Address, j: int)
    requires
        -1 <= j < entries.len(),
        j >= 0 ==> entries[j].0 == a,
        forall|i: int| j < i < entries.len() ==> entries[i].0 != a,
    ensures
        j >= 0 ==> table_of(entries).contains_key(a) && table_of(entries)[a] == entries[j].1,
        j == -1 ==> !table_of(entries).contains_key(a),
    decreases entries.len(),
{
    if entries.len() > 0 && j < entries.len() - 1 {
        lemma_table_lookup(entries.drop_last(), a, j);
    }
}

/// The same receipt: every field equal.
fn copy_of(r: &Receipt) -> (c: Receipt)
    ensures
        c == *r,
{
    Receipt {
        receipt_id: r.receipt_id,
        issuer: r.issuer,
        owner: r.owner,
        commodity: r.commodity.clone(),
        quantity_kg: r.quantity_kg,
        grade: r.grade.clone(),
        warehouse_name: r.warehouse_name.clone(),
        location: r.location.clone(),
        metadata_hash: r.metadata_hash.clone(),
        issued_at: r.issued_at,
        expires_at: r.expires_at,
        status: r.status,
    }
}

/// The registry: what the contract keeps in storage, and the events and
/// changed storage slots its operations have produced.
pub struct ReceiptRegistry {
    admin: Option<Address>,
    issuers: Option<Vec<(Address, bool)>>,
    next_receipt_id: Option<u64>,
    receipts: HashMap<u64, Receipt>,
    events: Vec<ReceiptEvent>,
    changed_keys: Vec<DataKey>,
}

impl View for ReceiptRegistry {
    type V = ReceiptState;

    closed spec fn view(&self) -> ReceiptState {
        ReceiptState {
            admin: self.admin,
            issuers: match self.issuers {
                Some(entries) => Some(table_of(entries@)),
                None => None,
            },
            next_receipt_id: self.next_receipt_id,
            receipts: self.receipts@,
            events: self.events@,
            changed_keys: self.changed_keys@,
        }
    }
}

impl ReceiptRegistry {
    /// Storage before the contract is initialized.
    pub fn new() -> (r: ReceiptRegistry)
        ensures
            r@ == ReceiptState::empty(),
    {
        ReceiptRegistry {
            admin: None,
            issuers: None,
            next_receipt_id: None,
            receipts: HashMap::new(),
            events: Vec::new(),
            changed_keys: Vec::new(),
        }
    }

    /// Records `admin`, the first receipt id and an empty issuer table. The
    /// admin's authorization is demanded.
    pub fn init(&mut self, inv: &Invocation, admin: Address) -> (r: Result<(), ContractError>)
        requires
            old(self)@.admin is None ==> inv.auth.authorizes(admin),
        ensures
            completes_as(old(self)@, final(self)@, r, old(self)@.after_init(admin)),
    {
        if self.admin.is_some() {
            return Err(ContractError::AlreadyInitialized);
        }
        self.admin = Some(admin);
        self.changed_keys.push(DataKey::Admin);
        self.next_receipt_id = Some(1);
        self.changed_keys.push(DataKey::NextReceiptId);
        self.issuers = Some(Vec::new());
        self.changed_keys.push(DataKey::Issuers);
        assert(table_of(Seq::<(Address, bool)>::empty()) =~= Map::<Address, bool>::empty());
        Ok(())
    }

    fn admin(&self) -> (r: Result<Address, ContractError>)
        ensures
            r == match self@.admin {
                Some(a) => Ok::<Address, ContractError>(a),
                None => Err(ContractError::Unauthorized),
            },
    {
        match self.admin {
            Some(a) => Ok(a),
            None => Err(ContractError::Unauthorized),
        }
    }

    fn next_receipt_id(&self) -> (r: Result<u64, ContractError>)
        ensures
            r == match self@.next_receipt_id {
                Some(n) => Ok::<u64, ContractError>(n),
                None => Err(ContractError::Unauthorized),
            },
    {
        match self.next_receipt_id {
            Some(n) => Ok(n),
            None => Err(ContractError::Unauthorized),
        }
    }

    fn receipt(&self, receipt_id: u64) -> (r: Result<Receipt, ContractError>)
        ensures
            r == self@.receipt_or_error(receipt_id),
    {
        match self.receipts.get(&receipt_id) {
            Some(found) => Ok(copy_of(found)),
            None => Err(ContractError::ReceiptNotFound),
        }
    }

    /// Whether `issuer` is certified, or `Unauthorized` when there is no
    /// issuer table.
    #[verifier::loop_isolation(false)]
    fn certification(&self, issuer: &Address) -> (r: Result<bool, ContractError>)
        ensures
            r == self@.certification(*issuer),
    {
        match &self.issuers {
            None => Err(ContractError::Unauthorized),
            Some(entries) => {
                let mut i: usize = entries.len();
                while i > 0
                    invariant
                        0 <= i <= entries@.len(),
                        forall|j: int| i <= j < entries@.len() ==> entries@[j].0 != *issuer,
                    decreases i,
                {
                    i = i - 1;
                    if entries[i].0.same_as(issuer) {
                        proof {
                            lemma_table_lookup(entries@, *issuer, i as int);
                        }
                        return Ok(entries[i].1);
                    }
                }
                proof {
                    lemma_table_lookup(entries@, *issuer, -1);
                }
                Ok(false)
            },
        }
    }

    /// Writes `flag` for `issuer` into the issuer table, which exists.
    fn set_issuer_flag(&mut self, issuer: Address, flag: bool)
        requires
            old(self).issuers is Some,
        ensures
            final(self)@ == (ReceiptState {
                issuers: Some(old(self)@.issuers.unwrap().insert(issuer, flag)),
                ..old(self)@
            }),
    {
        let mut entries = match self.issuers.take() {
            Some(e) => e,
            None => Vec::new(),
        };
        let ghost before = entries@;
        entries.push((issuer, flag));
        assert(entries@.drop_last() =~= before);
        self.issuers = Some(entries);
    }

    fn require_certified_issuer(&self, issuer: &Address) -> (r: Result<(), ContractError>)
        ensures
            r == match self@.certification(*issuer) {
                Err(e) => Err::<(), ContractError>(e),
                Ok(true) => Ok(()),
                Ok(false) => Err(ContractError::IssuerNotCertified),
            },
    {
        if !self.certification(issuer)? {
            return Err(ContractError::IssuerNotCertified);
        }
        Ok(())
    }

    /// Certifies `issuer`. The admin's authorization is demanded.
    pub fn add_issuer(&mut self, inv: &Invocation, issuer: Address) -> (r: Result<(), ContractError>)
        requires
            old(self)@.admin matches Some(admin) ==> inv.auth.authorizes(admin),
        ensures
            completes_as(old(self)@, final(self)@, r, old(self)@.after_add_issuer(issuer)),
    {
        let _admin = self.admin()?;
        if self.certification(&issuer)? {
            return Err(ContractError::IssuerAlreadyCertified);
        }
        self.set_issuer_flag(issuer, true);
        self.changed_keys.push(DataKey::Issuers);
        self.events.push(ReceiptEvent::IssuerAdded { issuer });
        Ok(())
    }

    /// Withdraws the certification of `issuer`. The admin's authorization is
    /// demanded.
    pub fn remove_issuer(&mut self, inv: &Invocation, issuer: Address) -> (r: Result<(), ContractError>)
        requires
            old(self)@.admin matches Some(admin) ==> inv.auth.authorizes(admin),
        ensures
            completes_as(old(self)@, final(self)@, r, old(self)@.after_remove_issuer(issuer)),
    {
        let _admin = self.admin()?;
        if !self.certification(&issuer)? {
            return Err(ContractError::IssuerNotCertified);
        }
        self.set_issuer_flag(issuer, false);
        self.changed_keys.push(DataKey::Issuers);
        self.events.push(ReceiptEvent::IssuerRemoved { issuer });
        Ok(())
    }

    /// Whether issuing from `input` would get past every check and then find
    /// the receipt counter at its maximum (the ledger aborts such an
    /// invocation when it increments the counter).
    pub fn issue_overflows(&self, inv: &Invocation, issuer: Address, input: &ReceiptInput) -> (r: bool)
        ensures
            r == (self@.after_issue(inv.timestamp, issuer, *input) is Ok && self@.next_receipt_id == Some(
                u64::MAX,
            )),
    {
        match self.certification(&issuer) {
            Ok(true) => {},
            _ => {
                return false;
            },
        }
        if input.quantity_kg <= 0 || input.owner.same_as(&issuer) {
            return false;
        }
        match self.next_receipt_id {
            Some(n) => n == u64::MAX,
            None => false,
        }
    }

    /// Issues a receipt from `input` and returns its id. The issuer's
    /// authorization is demanded.
    pub fn issue(&mut self, inv: &Invocation, issuer: Address, input: ReceiptInput) -> (r: Result<u64, ContractError>)
        requires
            inv.auth.authorizes(issuer),
            old(self)@.after_issue(inv.timestamp, issuer, input) is Ok
                ==> old(self)@.next_receipt_id != Some(u64::MAX),
        ensures
            match old(self)@.after_issue(inv.timestamp, issuer, input) {
                Ok((s, id)) => r == Ok::<u64, ContractError>(id) && final(self)@ == s,
                Err(e) => r == Err::<u64, ContractError>(e) && final(self)@ == old(self)@,
            },
    {
        self.require_certified_issuer(&issuer)?;
        if input.quantity_kg <= 0 {
            return Err(ContractError::InvalidAmount);
        }
        if input.owner.same_as(&issuer) {
            return Err(ContractError::InvalidOwner);
        }
        let receipt_id = self.next_receipt_id()?;
        let now = inv.timestamp;
        let owner = input.owner;
        let receipt = Receipt {
            receipt_id,
            issuer,
            owner,
            commodity: input.commodity,
            quantity_kg: input.quantity_kg,
            grade: input.grade,
            warehouse_name: input.warehouse_name,
            location: input.location,
            metadata_hash: input.metadata_hash,
            issued_at: now,
            expires_at: input.expires_at,
            status: ReceiptStatus::Active,
        };
        self.receipts.insert(receipt_id, receipt);
        self.changed_keys.push(DataKey::Receipt(receipt_id));
        self.next_receipt_id = Some(receipt_id + 1);
        self.changed_keys.push(DataKey::NextReceiptId);
        self.events.push(ReceiptEvent::Issued { receipt_id, issuer, owner });
        Ok(receipt_id)
    }

    /// `owner` hands receipt `receipt_id` to `new_owner`. The owner's
    /// authorization is demanded.
    pub fn transfer(&mut self, inv: &Invocation, owner: Address, receipt_id: u64, new_owner: Address) -> (r: Result<(), ContractError>)
        requires
            inv.auth.authorizes(owner),
        ensures
            completes_as(old(self)@, final(self)@, r, old(self)@.after_transfer(owner, receipt_id, new_owner)),
    {
        let mut receipt = self.receipt(receipt_id)?;
        if receipt.status != ReceiptStatus::Active {
            return Err(ContractError::InvalidState);
        }
        if !receipt.owner.same_as(&owner) {
            return Err(ContractError::Unauthorized);
        }
        if new_owner.same_as(&owner) {
            return Err(ContractError::InvalidOwner);
        }
        receipt.owner = new_owner;
        self.receipts.insert(receipt_id, receipt);
        self.changed_keys.push(DataKey::Receipt(receipt_id));
        self.events.push(ReceiptEvent::Transferred { receipt_id, from: owner, to: new_owner });
        Ok(())
    }

    /// `owner` and `issuer` together redeem receipt `receipt_id`, which is
    /// final from then on. The authorizations of both are demanded.
    pub fn redeem(&mut self, inv: &Invocation, owner: Address, issuer: Address, receipt_id: u64) -> (r: Result<(), ContractError>)
        requires
            inv.auth.authorizes(owner),
            inv.auth.authorizes(issuer),
        ensures
            completes_as(old(self)@, final(self)@, r, old(self)@.after_redeem(owner, issuer, receipt_id)),
    {
        let mut receipt = self.receipt(receipt_id)?;
        if receipt.status != ReceiptStatus::Active {
            return Err(ContractError::InvalidState);
        }
        if !receipt.owner.same_as(&owner) {
            return Err(ContractError::Unauthorized);
        }
        if !receipt.issuer.same_as(&issuer) {
            return Err(ContractError::Unauthorized);
        }
        receipt.status = ReceiptStatus::Redeemed;
        self.receipts.insert(receipt_id, receipt);
        self.changed_keys.push(DataKey::Receipt(receipt_id));
        self.events.push(ReceiptEvent::Redeemed { receipt_id, owner, issuer });
        Ok(())
    }

    /// The receipt stored under `receipt_id`.
    pub fn get_receipt(&self, receipt_id: u64) -> (r: Result<Receipt, ContractError>)
        ensures
            r == self@.receipt_or_error(receipt_id),
    {
        self.receipt(receipt_id)
    }

    /// The owner of receipt `receipt_id`.
    pub fn get_owner(&self, receipt_id: u64) -> (r: Result<Address, ContractError>)
        ensures
            r == match self@.receipt_or_error(receipt_id) {
                Ok(receipt) => Ok::<Address, ContractError>(receipt.owner),
                Err(e) => Err(e),
            },
    {
        let receipt = self.receipt(receipt_id)?;
        Ok(receipt.owner)
    }

    /// Whether `issuer` is certified.
    pub fn is_certified_issuer(&self, issuer: Address) -> (r: Result<bool, ContractError>)
        ensures
            r == self@.certification(issuer),
    {
        self.certification(&issuer)
    }

    /// The ids `lo .. hi` that listing at most `limit` ids from `from_id` on
    /// looks at (none when `hi <= lo`).
    pub fn listing_window(&self, from_id: u64, limit: u32) -> (r: Result<(u64, u64), ContractError>)
        ensures
            match self@.next_receipt_id {
                None => r == Err::<(u64, u64), ContractError>(ContractError::Unauthorized),
                Some(next) => r == Ok::<(u64, u64), ContractError>(
                    (from_id, if next < from_id + limit { next } else { (from_id + limit) as u64 }),
                ),
            },
    {
        let next = self.next_receipt_id()?;
        if next < from_id || next - from_id < limit as u64 {
            Ok((from_id, next))
        } else {
            Ok((from_id, from_id + limit as u64))
        }
    }

    /// The receipts that `owner` holds among the ids `from_id`,
    /// `from_id + 1`, ... below the next receipt id, looking at no more than
    /// `limit` ids, in increasing order of id.
    pub fn list_receipts_for_owner(&self, owner: Address, from_id: u64, limit: u32) -> (r: Result<Vec<Receipt>, ContractError>)
        ensures
            match self@.listing(owner, from_id, limit) {
                Ok(s) => r matches Ok(v) && v@ == s,
                Err(e) => r matches Err(f) && f == e,
            },
    {
        let mut out: Vec<Receipt> = Vec::new();
        let next = self.next_receipt_id()?;
        if next <= from_id || limit == 0 {
            return Ok(out);
        }
        let mut scanned: u32 = 0;
        let mut current: u64 = from_id;
        while current < next && scanned < limit
            invariant
                from_id < next,
                0 < limit,
                current == from_id + scanned,
                scanned <= limit,
                current <= next,
                self@.next_receipt_id == Some(next),
                out@ == owned_in_range(self@.receipts, owner, from_id as int, current as int),
            decreases next - current,
        {
            match self.receipts.get(&current) {
                Some(receipt) => {
                    if receipt.owner.same_as(&owner) {
                        out.push(copy_of(receipt));
                    }
                },
                None => {},
            }
            current = current + 1;
            scanned = scanned + 1;
        }
        Ok(out)
    }

    /// Puts `admin` into the admin slot, as read from storage.
    pub fn load_admin(&mut self, admin: Address)
        ensures
            final(self)@ == (ReceiptState { admin: Some(admin), ..old(self)@ }),
    {
        self.admin = Some(admin);
    }

    /// Puts `n` into the receipt counter slot, as read from storage.
    pub fn load_next_receipt_id(&mut self, n: u64)
        ensures
            final(self)@ == (ReceiptState { next_receipt_id: Some(n), ..old(self)@ }),
    {
        self.next_receipt_id = Some(n);
    }

    /// Puts the issuer table written as `entries` (later entries winning)
    /// into its slot, as read from storage.
    pub fn load_issuer_table(&mut self, entries: Vec<(Address, bool)>)
        ensures
            final(self)@ == (ReceiptState { issuers: Some(table_of(entries@)), ..old(self)@ }),
    {
        self.issuers = Some(entries);
    }

    /// Puts `receipt` into its slot, as read from storage.
    pub fn load_receipt(&mut self, receipt: Receipt)
        ensures
            final(self)@ == (ReceiptState {
                receipts: old(self)@.receipts.insert(receipt.receipt_id, receipt),
                ..old(self)@
            }),
    {
        self.receipts.insert(receipt.receipt_id, receipt);
    }

    /// The issuer table as a sequence of writes, later ones winning.
    pub fn issuer_entries(&self) -> (r: Option<&Vec<(Address, bool)>>)
        ensures
            match r {
                Some(entries) => self@.issuers == Some(table_of(entries@)),
                None => self@.issuers is None,
            },
    {
        match &self.issuers {
            Some(entries) => Some(entries),
            None => None,
        }
    }

    /// The admin, if set.
    pub fn stored_admin(&self) -> (r: Option<Address>)
        ensures
            r == self@.admin,
    {
        self.admin
    }

    /// The receipt counter.
    pub fn stored_next_receipt_id(&self) -> (r: Option<u64>)
        ensures
            r == self@.next_receipt_id,
    {
        self.next_receipt_id
    }

    /// The events published so far, oldest first.
    pub fn events(&self) -> (r: &Vec<ReceiptEvent>)
        ensures
            r@ == self@.events,
    {
        &self.events
    }

    /// The storage slots written so far, in order.
    pub fn changed_keys(&self) -> (r: &Vec<DataKey>)
        ensures
            r@ == self@.changed_keys,
    {
        &self.changed_keys
    }
}

} // verus!
