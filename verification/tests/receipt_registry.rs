use registry_contracts::address::{Address, Authorization, Invocation};
use registry_contracts::receipt_registry::{
    ContractError, DataKey, ReceiptEvent, ReceiptInput, ReceiptRegistry, ReceiptStatus,
};

fn address(tag: u8) -> Address {
    let mut strkey = [b'G'; 56];
    strkey[54] = b'A' + (tag / 26);
    strkey[55] = b'A' + (tag % 26);
    Address::from_strkey(strkey)
}

fn at(timestamp: u64) -> Invocation {
    Invocation { timestamp, auth: Authorization::Everyone }
}

fn setup() -> (ReceiptRegistry, Address, Address, Address, Address) {
    let mut registry = ReceiptRegistry::new();
    let admin = address(1);
    let issuer = address(2);
    let farmer = address(3);
    let buyer = address(4);
    registry.init(&at(0), admin).unwrap();
    (registry, admin, issuer, farmer, buyer)
}

fn sample_input(now: u64, owner: &Address) -> ReceiptInput {
    ReceiptInput {
        owner: *owner,
        commodity: String::from("maize"),
        quantity_kg: 50,
        grade: String::from("A"),
        warehouse_name: String::from("AgriStore Ibadan"),
        location: String::from("Ibadan, NG"),
        metadata_hash: String::from("QmXyZ123"),
        expires_at: now + 86_400,
    }
}

#[test]
fn admin_can_manage_issuers() {
    let (mut registry, admin, issuer, _farmer, _buyer) = setup();

    registry.add_issuer(&at(0), issuer).unwrap();
    assert!(registry.is_certified_issuer(issuer).unwrap());

    registry.remove_issuer(&at(0), issuer).unwrap();
    assert!(!registry.is_certified_issuer(issuer).unwrap());

    let duplicate = registry.add_issuer(&at(0), issuer);
    assert!(duplicate.is_ok());

    let _ = admin;
}

#[test]
fn uncertified_issuer_cannot_issue() {
    let (mut registry, _admin, issuer, farmer, _buyer) = setup();
    let input = sample_input(0, &farmer);
    let result = registry.issue(&at(0), issuer, input);
    assert_eq!(result, Err(ContractError::IssuerNotCertified));
}

#[test]
fn issue_transfer_redeem_happy_path() {
    let (mut registry, _admin, issuer, farmer, buyer) = setup();
    registry.add_issuer(&at(0), issuer).unwrap();

    let input = sample_input(0, &farmer);
    let receipt_id = registry.issue(&at(0), issuer, input).unwrap();

    let receipt = registry.get_receipt(receipt_id).unwrap();
    assert_eq!(receipt.owner, farmer);
    assert_eq!(receipt.status, ReceiptStatus::Active);

    registry.transfer(&at(0), farmer, receipt_id, buyer).unwrap();
    let transferred = registry.get_receipt(receipt_id).unwrap();
    assert_eq!(transferred.owner, buyer);

    registry.redeem(&at(0), buyer, issuer, receipt_id).unwrap();
    let redeemed = registry.get_receipt(receipt_id).unwrap();
    assert_eq!(redeemed.status, ReceiptStatus::Redeemed);
}

#[test]
fn non_owner_cannot_transfer() {
    let (mut registry, _admin, issuer, farmer, buyer) = setup();
    registry.add_issuer(&at(0), issuer).unwrap();

    let input = sample_input(0, &farmer);
    let receipt_id = registry.issue(&at(0), issuer, input).unwrap();

    let result = registry.transfer(&at(0), buyer, receipt_id, issuer);
    assert_eq!(result, Err(ContractError::Unauthorized));
}

#[test]
fn redeemed_receipt_cannot_transfer_again() {
    let (mut registry, _admin, issuer, farmer, buyer) = setup();
    registry.add_issuer(&at(0), issuer).unwrap();

    let input = sample_input(0, &farmer);
    let receipt_id = registry.issue(&at(0), issuer, input).unwrap();
    registry.redeem(&at(0), farmer, issuer, receipt_id).unwrap();

    let transfer_after_redeem = registry.transfer(&at(0), farmer, receipt_id, buyer);
    assert_eq!(transfer_after_redeem, Err(ContractError::InvalidState));

    let redeem_twice = registry.redeem(&at(0), farmer, issuer, receipt_id);
    assert_eq!(redeem_twice, Err(ContractError::InvalidState));
}

// ---- further cases ----

#[test]
fn init_runs_once() {
    let (mut registry, admin, _issuer, _farmer, _buyer) = setup();
    assert_eq!(registry.init(&at(0), admin), Err(ContractError::AlreadyInitialized));
    assert_eq!(
        registry.changed_keys().clone(),
        vec![DataKey::Admin, DataKey::NextReceiptId, DataKey::Issuers]
    );
}

#[test]
fn uninitialized_registry_answers_unauthorized() {
    let mut registry = ReceiptRegistry::new();
    let a = address(1);
    assert_eq!(registry.add_issuer(&at(0), a), Err(ContractError::Unauthorized));
    assert_eq!(registry.remove_issuer(&at(0), a), Err(ContractError::Unauthorized));
    assert_eq!(registry.is_certified_issuer(a), Err(ContractError::Unauthorized));
    assert_eq!(registry.issue(&at(0), a, sample_input(0, &address(2))), Err(ContractError::Unauthorized));
    assert_eq!(registry.list_receipts_for_owner(a, 0, 10), Err(ContractError::Unauthorized));
    assert_eq!(registry.get_receipt(1), Err(ContractError::ReceiptNotFound));
    assert_eq!(registry.get_owner(1), Err(ContractError::ReceiptNotFound));
}

#[test]
fn issue_rejects_bad_amount_and_self_ownership() {
    let (mut registry, _admin, issuer, farmer, _buyer) = setup();
    registry.add_issuer(&at(0), issuer).unwrap();
    let mut zero = sample_input(0, &farmer);
    zero.quantity_kg = 0;
    assert_eq!(registry.issue(&at(0), issuer, zero), Err(ContractError::InvalidAmount));
    let mut negative = sample_input(0, &farmer);
    negative.quantity_kg = -5;
    assert_eq!(registry.issue(&at(0), issuer, negative), Err(ContractError::InvalidAmount));
    let own = sample_input(0, &issuer);
    assert_eq!(registry.issue(&at(0), issuer, own), Err(ContractError::InvalidOwner));
    assert_eq!(registry.stored_next_receipt_id(), Some(1));
}

#[test]
fn issued_receipt_records_its_terms() {
    let (mut registry, _admin, issuer, farmer, _buyer) = setup();
    registry.add_issuer(&at(0), issuer).unwrap();
    let id = registry.issue(&at(777), issuer, sample_input(777, &farmer)).unwrap();
    assert_eq!(id, 1);
    let r = registry.get_receipt(id).unwrap();
    assert_eq!(r.receipt_id, 1);
    assert_eq!(r.issuer, issuer);
    assert_eq!(r.commodity, "maize");
    assert_eq!(r.quantity_kg, 50);
    assert_eq!(r.grade, "A");
    assert_eq!(r.warehouse_name, "AgriStore Ibadan");
    assert_eq!(r.location, "Ibadan, NG");
    assert_eq!(r.metadata_hash, "QmXyZ123");
    assert_eq!(r.issued_at, 777);
    assert_eq!(r.expires_at, 777 + 86_400);
    assert_eq!(registry.get_owner(id), Ok(farmer));
    let second = registry.issue(&at(778), issuer, sample_input(778, &farmer)).unwrap();
    assert_eq!(second, 2);
}

#[test]
fn transfer_errors() {
    let (mut registry, _admin, issuer, farmer, buyer) = setup();
    registry.add_issuer(&at(0), issuer).unwrap();
    let id = registry.issue(&at(0), issuer, sample_input(0, &farmer)).unwrap();
    assert_eq!(registry.transfer(&at(0), farmer, 99, buyer), Err(ContractError::ReceiptNotFound));
    assert_eq!(registry.transfer(&at(0), farmer, id, farmer), Err(ContractError::InvalidOwner));
    assert_eq!(registry.redeem(&at(0), farmer, buyer, id), Err(ContractError::Unauthorized));
    assert_eq!(registry.redeem(&at(0), buyer, issuer, id), Err(ContractError::Unauthorized));
    assert_eq!(registry.get_owner(id), Ok(farmer));
}

#[test]
fn removing_uncertified_issuer_is_an_error() {
    let (mut registry, _admin, issuer, _farmer, _buyer) = setup();
    assert_eq!(registry.remove_issuer(&at(0), issuer), Err(ContractError::IssuerNotCertified));
    registry.add_issuer(&at(0), issuer).unwrap();
    assert_eq!(registry.add_issuer(&at(0), issuer), Err(ContractError::IssuerAlreadyCertified));
}

#[test]
fn listing_scans_a_window_of_ids() {
    let (mut registry, _admin, issuer, farmer, buyer) = setup();
    registry.add_issuer(&at(0), issuer).unwrap();
    for i in 0..6u64 {
        let owner = if i % 2 == 0 { farmer } else { buyer };
        registry.issue(&at(i), issuer, sample_input(i, &owner)).unwrap();
    }
    // ids 1..=6: farmer holds 1, 3, 5; buyer holds 2, 4, 6
    let ids = |v: Vec<registry_contracts::receipt_registry::Receipt>| -> Vec<u64> {
        v.iter().map(|r| r.receipt_id).collect()
    };
    assert_eq!(ids(registry.list_receipts_for_owner(farmer, 1, 10).unwrap()), vec![1, 3, 5]);
    assert_eq!(ids(registry.list_receipts_for_owner(buyer, 1, 10).unwrap()), vec![2, 4, 6]);
    assert_eq!(ids(registry.list_receipts_for_owner(farmer, 2, 3).unwrap()), vec![3]);
    assert_eq!(ids(registry.list_receipts_for_owner(buyer, 0, 3).unwrap()), vec![2]);
    assert_eq!(ids(registry.list_receipts_for_owner(farmer, 1, 0).unwrap()), Vec::<u64>::new());
    assert_eq!(ids(registry.list_receipts_for_owner(farmer, 7, 10).unwrap()), Vec::<u64>::new());
    assert_eq!(ids(registry.list_receipts_for_owner(farmer, u64::MAX, u32::MAX).unwrap()), Vec::<u64>::new());
}

#[test]
fn events_follow_the_lifecycle() {
    let (mut registry, _admin, issuer, farmer, buyer) = setup();
    registry.add_issuer(&at(0), issuer).unwrap();
    let id = registry.issue(&at(0), issuer, sample_input(0, &farmer)).unwrap();
    registry.transfer(&at(0), farmer, id, buyer).unwrap();
    registry.redeem(&at(0), buyer, issuer, id).unwrap();
    registry.remove_issuer(&at(0), issuer).unwrap();
    assert_eq!(
        registry.events().clone(),
        vec![
            ReceiptEvent::IssuerAdded { issuer },
            ReceiptEvent::Issued { receipt_id: id, issuer, owner: farmer },
            ReceiptEvent::Transferred { receipt_id: id, from: farmer, to: buyer },
            ReceiptEvent::Redeemed { receipt_id: id, owner: buyer, issuer },
            ReceiptEvent::IssuerRemoved { issuer },
        ]
    );
    let topics: Vec<&str> = registry.events().iter().map(|e| e.topic()).collect();
    assert_eq!(topics, vec!["issr_add", "issued", "transfer", "redeemed", "issuer_rm"]);
    assert_eq!(registry.issuer_entries().unwrap().clone(), vec![(issuer, true), (issuer, false)]);
}

#[test]
fn redeemed_receipt_is_unchanged_by_later_operations() {
    let (mut registry, _admin, issuer, farmer, buyer) = setup();
    registry.add_issuer(&at(0), issuer).unwrap();
    let id = registry.issue(&at(0), issuer, sample_input(0, &farmer)).unwrap();
    registry.redeem(&at(0), farmer, issuer, id).unwrap();
    let before = registry.get_receipt(id).unwrap();
    let _ = registry.transfer(&at(1), farmer, id, buyer);
    let _ = registry.redeem(&at(1), farmer, issuer, id);
    registry.remove_issuer(&at(1), issuer).unwrap();
    registry.add_issuer(&at(1), issuer).unwrap();
    assert_eq!(registry.get_receipt(id).unwrap(), before);
}

#[test]
fn loaded_receipt_storage_answers_like_the_original() {
    let (mut registry, admin, issuer, farmer, _buyer) = setup();
    registry.add_issuer(&at(0), issuer).unwrap();
    let id = registry.issue(&at(0), issuer, sample_input(0, &farmer)).unwrap();
    let mut copy = ReceiptRegistry::new();
    copy.load_admin(admin);
    copy.load_next_receipt_id(registry.stored_next_receipt_id().unwrap());
    copy.load_issuer_table(registry.issuer_entries().unwrap().clone());
    copy.load_receipt(registry.get_receipt(id).unwrap());
    assert_eq!(copy.get_receipt(id), registry.get_receipt(id));
    assert_eq!(copy.is_certified_issuer(issuer), Ok(true));
    assert_eq!(copy.is_certified_issuer(farmer), Ok(false));
}

#[test]
fn receipt_error_codes_match_the_ledger_numbers() {
    let all = [
        ContractError::AlreadyInitialized,
        ContractError::Unauthorized,
        ContractError::IssuerAlreadyCertified,
        ContractError::IssuerNotCertified,
        ContractError::ReceiptNotFound,
        ContractError::InvalidAmount,
        ContractError::InvalidOwner,
        ContractError::InvalidState,
    ];
    for (i, e) in all.iter().enumerate() {
        assert_eq!(e.code() as usize, i + 1);
    }
}

#[test]
fn listing_window_and_counter_overflow() {
    let (mut registry, admin, issuer, farmer, _buyer) = setup();
    assert_eq!(registry.stored_admin(), Some(admin));
    assert_eq!(registry.listing_window(5, 10), Ok((5, 1)));
    registry.add_issuer(&at(0), issuer).unwrap();
    for i in 0..4u64 {
        registry.issue(&at(i), issuer, sample_input(i, &farmer)).unwrap();
    }
    assert_eq!(registry.listing_window(2, 10), Ok((2, 5)));
    assert_eq!(registry.listing_window(2, 2), Ok((2, 4)));
    assert_eq!(ReceiptRegistry::new().listing_window(0, 1), Err(ContractError::Unauthorized));
    assert!(!registry.issue_overflows(&at(0), issuer, &sample_input(0, &farmer)));
    registry.load_next_receipt_id(u64::MAX);
    assert!(registry.issue_overflows(&at(0), issuer, &sample_input(0, &farmer)));
    assert!(!registry.issue_overflows(&at(0), issuer, &sample_input(0, &issuer)));
    assert!(!registry.issue_overflows(&at(0), farmer, &sample_input(0, &issuer)));
}
