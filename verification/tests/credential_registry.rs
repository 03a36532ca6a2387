use registry_contracts::address::{Address, Authorization, Invocation};
use registry_contracts::credential_registry::{
    ContractError, CredentialEvent, CredentialRegistry, CredentialStatus, DataKey,
};

fn address(tag: u8) -> Address {
    let mut strkey = [b'C'; 56];
    strkey[54] = b'A' + (tag / 26);
    strkey[55] = b'A' + (tag % 26);
    Address::from_strkey(strkey)
}

fn at(timestamp: u64) -> Invocation {
    Invocation { timestamp, auth: Authorization::Everyone }
}

fn sample_hash() -> [u8; 32] {
    let mut bytes = [0u8; 32];
    for (i, b) in bytes.iter_mut().enumerate() {
        *b = (i % 256) as u8;
    }
    bytes
}

fn deployed(admin: Address) -> CredentialRegistry {
    let mut registry = CredentialRegistry::new();
    registry.__constructor(admin);
    registry
}

fn setup() -> (CredentialRegistry, Address, Address, Address) {
    let admin = address(1);
    let issuer = address(2);
    let recipient = address(3);
    let mut registry = deployed(admin);
    registry.register_issuer(&at(0), issuer).unwrap();
    (registry, admin, issuer, recipient)
}

#[test]
fn initialize_sets_admin() {
    let admin = address(1);
    let registry = deployed(admin);
    assert_eq!(registry.get_admin().unwrap(), admin);
}

#[test]
fn constructor_runs_only_once() {
    let admin = address(1);
    let registry = deployed(admin);
    assert_eq!(registry.get_admin().unwrap(), admin);
}

#[test]
fn admin_can_register_issuer() {
    let (registry, _admin, issuer, _recipient) = setup();
    assert!(registry.is_issuer(issuer));
}

#[test]
fn admin_can_remove_issuer() {
    let (mut registry, _admin, issuer, _recipient) = setup();
    registry.remove_issuer(&at(0), issuer).unwrap();
    assert!(!registry.is_issuer(issuer));
}

#[test]
fn cannot_register_issuer_twice() {
    let (mut registry, _admin, issuer, _recipient) = setup();
    let result = registry.register_issuer(&at(0), issuer);
    assert_eq!(result, Err(ContractError::IssuerAlreadyRegistered));
}

#[test]
fn non_registered_issuer_cannot_issue() {
    let (mut registry, _admin, _issuer, recipient) = setup();
    let unregistered = address(9);
    let hash = sample_hash();
    let result = registry.issue_credential(&at(0), unregistered, recipient, hash, None);
    assert_eq!(result, Err(ContractError::NotAnIssuer));
}

#[test]
fn issuer_can_issue_credential() {
    let (mut registry, _admin, issuer, recipient) = setup();
    let hash = sample_hash();
    let id = registry.issue_credential(&at(0), issuer, recipient, hash, None).unwrap();
    assert_eq!(id, 1);
    let credential = registry.get_credential(id).unwrap();
    assert_eq!(credential.issuer, issuer);
    assert_eq!(credential.recipient, recipient);
    assert_eq!(credential.metadata_hash, hash);
    assert!(credential.revoked_at.is_none());
}

#[test]
fn issued_credential_is_active() {
    let (mut registry, _admin, issuer, recipient) = setup();
    let hash = sample_hash();
    let id = registry.issue_credential(&at(0), issuer, recipient, hash, None).unwrap();
    let status = registry.verify_credential(&at(0), id);
    assert!(matches!(status, CredentialStatus::Active));
}

#[test]
fn verify_returns_not_found() {
    let (registry, _admin, _issuer, _recipient) = setup();
    let status = registry.verify_credential(&at(0), 999);
    assert!(matches!(status, CredentialStatus::NotFound));
}

#[test]
fn get_credential_returns_none_for_missing() {
    let (registry, _admin, _issuer, _recipient) = setup();
    let result = registry.get_credential(999);
    assert!(result.is_none());
}

#[test]
fn issuer_can_revoke_credential() {
    let (mut registry, _admin, issuer, recipient) = setup();
    let hash = sample_hash();
    let id = registry.issue_credential(&at(0), issuer, recipient, hash, None).unwrap();
    registry.revoke_credential(&at(0), issuer, id).unwrap();
    let status = registry.verify_credential(&at(0), id);
    assert!(matches!(status, CredentialStatus::Revoked));
}

#[test]
fn admin_can_admin_revoke() {
    let (mut registry, _admin, issuer, recipient) = setup();
    let hash = sample_hash();
    let id = registry.issue_credential(&at(0), issuer, recipient, hash, None).unwrap();
    registry.admin_revoke_credential(&at(0), id).unwrap();
    let status = registry.verify_credential(&at(0), id);
    assert!(matches!(status, CredentialStatus::Revoked));
}

#[test]
fn non_issuer_cannot_revoke() {
    let (mut registry, _admin, issuer, recipient) = setup();
    let hash = sample_hash();
    let id = registry.issue_credential(&at(0), issuer, recipient, hash, None).unwrap();
    let stranger = address(9);
    let result = registry.revoke_credential(&at(0), stranger, id);
    assert_eq!(result, Err(ContractError::Unauthorized));
}

#[test]
fn cannot_revoke_already_revoked() {
    let (mut registry, _admin, issuer, recipient) = setup();
    let hash = sample_hash();
    let id = registry.issue_credential(&at(0), issuer, recipient, hash, None).unwrap();
    registry.revoke_credential(&at(0), issuer, id).unwrap();
    let result = registry.revoke_credential(&at(0), issuer, id);
    assert_eq!(result, Err(ContractError::AlreadyRevoked));
}

#[test]
fn expired_credential_is_not_active() {
    let admin = address(1);
    let issuer = address(2);
    let recipient = address(3);
    let mut registry = deployed(admin);
    registry.register_issuer(&at(0), issuer).unwrap();
    let hash = sample_hash();
    let now = 0u64;
    let id = registry.issue_credential(&at(now), issuer, recipient, hash, Some(now + 3600)).unwrap();
    assert!(matches!(registry.verify_credential(&at(now), id), CredentialStatus::Active));
    assert!(matches!(registry.verify_credential(&at(now + 7200), id), CredentialStatus::Expired));
}

#[test]
fn cannot_issue_with_past_expiry() {
    let admin = address(1);
    let issuer = address(2);
    let recipient = address(3);
    let mut registry = deployed(admin);
    registry.register_issuer(&at(1_000_000), issuer).unwrap();
    let hash = sample_hash();
    let result = registry.issue_credential(&at(1_000_000), issuer, recipient, hash, Some(999_999));
    assert_eq!(result, Err(ContractError::InvalidExpiry));
}

#[test]
fn metadata_hash_is_immutable() {
    let (mut registry, _admin, issuer, recipient) = setup();
    let hash = sample_hash();
    let id = registry.issue_credential(&at(0), issuer, recipient, hash, None).unwrap();
    let credential = registry.get_credential(id).unwrap();
    assert_eq!(credential.metadata_hash, hash);
    registry.revoke_credential(&at(0), issuer, id).unwrap();
    let revoked = registry.get_credential(id).unwrap();
    assert_eq!(revoked.metadata_hash, hash);
}

#[test]
fn credential_ids_are_sequential() {
    let (mut registry, _admin, issuer, recipient) = setup();
    let hash = sample_hash();
    let recipient2 = address(4);
    let id1 = registry.issue_credential(&at(0), issuer, recipient, hash, None).unwrap();
    let id2 = registry.issue_credential(&at(0), issuer, recipient2, hash, None).unwrap();
    assert_eq!(id1, 1);
    assert_eq!(id2, 2);
}

#[test]
fn removed_issuer_cannot_issue() {
    let (mut registry, _admin, issuer, recipient) = setup();
    let hash = sample_hash();
    registry.remove_issuer(&at(0), issuer).unwrap();
    let result = registry.issue_credential(&at(0), issuer, recipient, hash, None);
    assert_eq!(result, Err(ContractError::NotAnIssuer));
}

#[test]
fn revoked_credential_stays_revoked() {
    let admin = address(1);
    let issuer = address(2);
    let recipient = address(3);
    let mut registry = deployed(admin);
    registry.register_issuer(&at(0), issuer).unwrap();
    let hash = sample_hash();
    let now = 0u64;
    let id = registry.issue_credential(&at(now), issuer, recipient, hash, Some(now + 3600)).unwrap();
    registry.revoke_credential(&at(now), issuer, id).unwrap();
    assert!(matches!(registry.verify_credential(&at(now + 7200), id), CredentialStatus::Revoked));
}

// ---- further cases ----

#[test]
fn operations_before_construction_are_not_initialized() {
    let mut registry = CredentialRegistry::new();
    let a = address(1);
    assert_eq!(registry.get_admin(), Err(ContractError::NotInitialized));
    assert_eq!(registry.register_issuer(&at(0), a), Err(ContractError::NotInitialized));
    assert_eq!(registry.remove_issuer(&at(0), a), Err(ContractError::NotInitialized));
    assert_eq!(registry.admin_revoke_credential(&at(0), 1), Err(ContractError::NotInitialized));
    assert!(registry.events().is_empty());
    assert!(registry.changed_keys().is_empty());
}

#[test]
fn removing_unknown_issuer_is_an_error() {
    let (mut registry, _admin, _issuer, _recipient) = setup();
    assert_eq!(registry.remove_issuer(&at(0), address(9)), Err(ContractError::IssuerNotFound));
}

#[test]
fn revoking_missing_credential_is_an_error() {
    let (mut registry, _admin, issuer, _recipient) = setup();
    assert_eq!(registry.revoke_credential(&at(0), issuer, 5), Err(ContractError::CredentialNotFound));
    assert_eq!(registry.admin_revoke_credential(&at(0), 5), Err(ContractError::CredentialNotFound));
}

#[test]
fn admin_cannot_revoke_twice() {
    let (mut registry, _admin, issuer, recipient) = setup();
    let id = registry.issue_credential(&at(0), issuer, recipient, sample_hash(), None).unwrap();
    registry.revoke_credential(&at(10), issuer, id).unwrap();
    assert_eq!(registry.admin_revoke_credential(&at(20), id), Err(ContractError::AlreadyRevoked));
    assert_eq!(registry.get_credential(id).unwrap().revoked_at, Some(10));
}

#[test]
fn issued_fields_and_expiry_boundary() {
    let (mut registry, _admin, issuer, recipient) = setup();
    let id = registry.issue_credential(&at(100), issuer, recipient, sample_hash(), Some(200)).unwrap();
    let c = registry.get_credential(id).unwrap();
    assert_eq!(c.id, id);
    assert_eq!(c.issued_at, 100);
    assert_eq!(c.expires_at, Some(200));
    assert_eq!(registry.verify_credential(&at(199), id), CredentialStatus::Active);
    assert_eq!(registry.verify_credential(&at(200), id), CredentialStatus::Expired);
    // an expiry equal to the current time is already past
    assert_eq!(
        registry.issue_credential(&at(200), issuer, recipient, sample_hash(), Some(200)),
        Err(ContractError::InvalidExpiry)
    );
}

#[test]
fn events_and_changed_keys_follow_the_operations() {
    let (mut registry, admin, issuer, recipient) = setup();
    let hash = sample_hash();
    let id = registry.issue_credential(&at(0), issuer, recipient, hash, None).unwrap();
    registry.admin_revoke_credential(&at(5), id).unwrap();
    registry.remove_issuer(&at(6), issuer).unwrap();
    assert_eq!(
        registry.events().clone(),
        vec![
            CredentialEvent::IssuerAdded { issuer },
            CredentialEvent::CredentialIssued { credential_id: id, issuer, recipient, metadata_hash: hash },
            CredentialEvent::CredentialRevoked { credential_id: id, revoker: admin },
            CredentialEvent::IssuerRemoved { issuer },
        ]
    );
    assert_eq!(
        registry.changed_keys().clone(),
        vec![
            DataKey::Admin,
            DataKey::NextCredentialId,
            DataKey::Issuer(issuer),
            DataKey::Credential(id),
            DataKey::NextCredentialId,
            DataKey::Credential(id),
            DataKey::Issuer(issuer),
        ]
    );
    let topics: Vec<&str> = registry.events().iter().map(|e| e.topic()).collect();
    assert_eq!(topics, vec!["iss_add", "cred_iss", "cred_rev", "iss_rm"]);
}

#[test]
fn failed_operations_change_nothing() {
    let (mut registry, _admin, issuer, recipient) = setup();
    let events_before = registry.events().len();
    let keys_before = registry.changed_keys().len();
    let _ = registry.register_issuer(&at(0), issuer);
    let _ = registry.issue_credential(&at(0), address(9), recipient, sample_hash(), None);
    assert_eq!(registry.events().len(), events_before);
    assert_eq!(registry.changed_keys().len(), keys_before);
    assert_eq!(registry.stored_next_credential_id(), Some(1));
}

#[test]
fn error_codes_match_the_ledger_numbers() {
    let all = [
        ContractError::AlreadyInitialized,
        ContractError::NotInitialized,
        ContractError::Unauthorized,
        ContractError::IssuerAlreadyRegistered,
        ContractError::IssuerNotFound,
        ContractError::CredentialNotFound,
        ContractError::NotAnIssuer,
        ContractError::NotIssuerOrAdmin,
        ContractError::AlreadyRevoked,
        ContractError::InvalidExpiry,
    ];
    for (i, e) in all.iter().enumerate() {
        assert_eq!(e.code() as usize, i + 1);
    }
}

#[test]
fn loaded_storage_answers_like_the_original() {
    let admin = address(1);
    let issuer = address(2);
    let mut registry = CredentialRegistry::new();
    registry.load_admin(admin);
    registry.load_next_credential_id(8);
    registry.load_issuer(issuer);
    registry.load_issuer(issuer);
    let id = registry.issue_credential(&at(3), issuer, address(3), sample_hash(), None).unwrap();
    assert_eq!(id, 8);
    assert_eq!(registry.stored_next_credential_id(), Some(9));
    registry.remove_issuer(&at(3), issuer).unwrap();
    assert!(!registry.is_issuer(issuer));
    let mut copy = CredentialRegistry::new();
    copy.load_credential(registry.get_credential(8).unwrap());
    assert_eq!(copy.get_credential(8), registry.get_credential(8));
}

#[test]
fn addresses_and_authorizations() {
    let a = address(1);
    let b = address(2);
    assert!(a.same_as(&a));
    assert!(!a.same_as(&b));
    let signers = Authorization::Signers(vec![b]);
    assert!(signers.permits(&b));
    assert!(!signers.permits(&a));
    assert!(Authorization::Everyone.permits(&a));
}

#[test]
fn counter_overflow_is_detected_before_issuing() {
    let admin = address(1);
    let issuer = address(2);
    let mut registry = CredentialRegistry::new();
    registry.load_admin(admin);
    registry.load_next_credential_id(u64::MAX);
    registry.load_issuer(issuer);
    assert!(registry.issue_credential_overflows(&at(0), issuer, address(3), sample_hash(), None));
    // a call that fails a check first does not reach the counter
    assert!(!registry.issue_credential_overflows(&at(0), address(9), address(3), sample_hash(), None));
    assert!(!registry.issue_credential_overflows(&at(5), issuer, address(3), sample_hash(), Some(5)));
    let (fresh, _admin, issuer, recipient) = setup();
    assert!(!fresh.issue_credential_overflows(&at(0), issuer, recipient, sample_hash(), None));
}
