use htlc_channel::engine::Engine;
use htlc_channel::errors::{EngineError, ErrorCode, StorageError};

fn ident(b: u8) -> Vec<u8> {
    vec![b; 32]
}

fn digest_of(secret: &str) -> Vec<u8> {
    anchor_lang::solana_program::hash::hash(secret.as_bytes())
        .to_bytes()
        .to_vec()
}

const TIMELOCK: u64 = 1_000_000;

/// Template "tpl" created by R (0xAA), channel "c1" of owner 0x01 with
/// counter-party 0x02, custody 1000, hashlock H("s1"), deadline TIMELOCK.
fn engine_with_open_channel() -> Engine {
    let mut e = Engine::new();
    e.create_template(
        ident(0xAA),
        b"tpl".to_vec(),
        b"name".to_vec(),
        b"calm".to_vec(),
    )
    .unwrap();
    let ev = e
        .open_channel(
            ident(0x01),
            b"c1".to_vec(),
            ident(0x02),
            1000,
            digest_of("s1"),
            TIMELOCK,
            &b"tpl".to_vec(),
            254,
        )
        .unwrap();
    assert_eq!(ev.channel_id, b"c1".to_vec());
    assert_eq!(ev.owner, ident(0x01));
    assert_eq!(ev.amount, 1000);
    assert_eq!(ev.hashlock, digest_of("s1"));
    assert_eq!(ev.timelock, TIMELOCK);
    assert_eq!(ev.template_creator, ident(0xAA));
    e
}

#[test]
fn open_records_custody() {
    let e = engine_with_open_channel();
    let c = e.get_channel(&ident(0x01), &b"c1".to_vec()).unwrap();
    assert_eq!(c.balance, 1000);
    assert_eq!(c.owner, ident(0x01));
    assert_eq!(c.counter_party, ident(0x02));
    assert_eq!(c.hashlock, digest_of("s1"));
    assert_eq!(c.timelock, TIMELOCK);
    assert_eq!(c.template_creator, ident(0xAA));
    assert_eq!(c.bump, 254);
}

#[test]
fn close_with_correct_secret_disburses() {
    let mut e = engine_with_open_channel();
    let ev = e
        .close_channel(
            &ident(0x01),
            b"c1".to_vec(),
            &b"s1".to_vec(),
            500,
            TIMELOCK - 1,
            &ident(0x01),
            &ident(0x02),
            &ident(0xAA),
        )
        .unwrap();
    assert_eq!(ev.royalty, 100);
    assert_eq!(ev.fee, 400);
    assert_eq!(ev.refund, 500);
    assert_eq!(ev.owner, ident(0x01));
    assert_eq!(ev.template_creator, ident(0xAA));
    assert_eq!(ev.channel_id, b"c1".to_vec());
    assert!(e.get_channel(&ident(0x01), &b"c1".to_vec()).is_none());
}

#[test]
fn close_with_wrong_secret_fails_invalid_secret() {
    let mut e = engine_with_open_channel();
    let r = e.close_channel(
        &ident(0x01),
        b"c1".to_vec(),
        &b"wrong".to_vec(),
        500,
        TIMELOCK - 1,
        &ident(0x01),
        &ident(0x02),
        &ident(0xAA),
    );
    assert_eq!(r, Err(EngineError::Domain(ErrorCode::InvalidSecret)));
    let c = e.get_channel(&ident(0x01), &b"c1".to_vec()).unwrap();
    assert_eq!(c.balance, 1000);
}

#[test]
fn refund_before_deadline_fails() {
    let mut e = engine_with_open_channel();
    let r = e.claim_refund(&ident(0x01), b"c1".to_vec(), &ident(0x02), TIMELOCK - 1);
    assert_eq!(r, Err(EngineError::Domain(ErrorCode::TimelockNotExpired)));
    assert!(e.get_channel(&ident(0x01), &b"c1".to_vec()).is_some());
}

#[test]
fn refund_after_deadline_pays_counter_party_in_full() {
    let mut e = engine_with_open_channel();
    let ev = e
        .claim_refund(&ident(0x01), b"c1".to_vec(), &ident(0x02), TIMELOCK + 5)
        .unwrap();
    assert_eq!(ev.amount, 1000);
    assert_eq!(ev.owner, ident(0x01));
    assert_eq!(ev.channel_id, b"c1".to_vec());
    assert!(e.get_channel(&ident(0x01), &b"c1".to_vec()).is_none());
}

#[test]
fn refund_at_exact_deadline_succeeds_and_close_fails() {
    let mut e = engine_with_open_channel();
    let r = e.close_channel(
        &ident(0x01),
        b"c1".to_vec(),
        &b"s1".to_vec(),
        500,
        TIMELOCK,
        &ident(0x01),
        &ident(0x02),
        &ident(0xAA),
    );
    assert_eq!(r, Err(EngineError::Domain(ErrorCode::TimelockExpired)));
    let ev = e
        .claim_refund(&ident(0x01), b"c1".to_vec(), &ident(0x02), TIMELOCK)
        .unwrap();
    assert_eq!(ev.amount, 1000);
}

#[test]
fn open_with_zero_amount_is_rejected() {
    let mut e = Engine::new();
    e.create_template(ident(0xAA), b"tpl".to_vec(), b"n".to_vec(), b"b".to_vec())
        .unwrap();
    let r = e.open_channel(
        ident(0x01),
        b"c1".to_vec(),
        ident(0x02),
        0,
        digest_of("s1"),
        TIMELOCK,
        &b"tpl".to_vec(),
        254,
    );
    assert_eq!(r, Err(EngineError::Domain(ErrorCode::InsufficientFunds)));
    assert!(e.get_channel(&ident(0x01), &b"c1".to_vec()).is_none());
}

#[test]
fn close_claiming_more_than_custody_fails() {
    let mut e = engine_with_open_channel();
    let r = e.close_channel(
        &ident(0x01),
        b"c1".to_vec(),
        &b"s1".to_vec(),
        1001,
        TIMELOCK - 1,
        &ident(0x01),
        &ident(0x02),
        &ident(0xAA),
    );
    assert_eq!(r, Err(EngineError::Domain(ErrorCode::InsufficientFunds)));
    let c = e.get_channel(&ident(0x01), &b"c1".to_vec()).unwrap();
    assert_eq!(c.balance, 1000);
}

#[test]
fn second_settlement_finds_no_record() {
    let mut e = engine_with_open_channel();
    e.close_channel(
        &ident(0x01),
        b"c1".to_vec(),
        &b"s1".to_vec(),
        500,
        TIMELOCK - 1,
        &ident(0x01),
        &ident(0x02),
        &ident(0xAA),
    )
    .unwrap();
    let again = e.close_channel(
        &ident(0x01),
        b"c1".to_vec(),
        &b"s1".to_vec(),
        500,
        TIMELOCK - 1,
        &ident(0x01),
        &ident(0x02),
        &ident(0xAA),
    );
    assert_eq!(again, Err(EngineError::Storage(StorageError::NotFound)));
    let refund = e.claim_refund(&ident(0x01), b"c1".to_vec(), &ident(0x02), TIMELOCK);
    assert_eq!(refund, Err(EngineError::Storage(StorageError::NotFound)));
}

#[test]
fn close_after_refund_finds_no_record() {
    let mut e = engine_with_open_channel();
    e.claim_refund(&ident(0x01), b"c1".to_vec(), &ident(0x02), TIMELOCK)
        .unwrap();
    let r = e.close_channel(
        &ident(0x01),
        b"c1".to_vec(),
        &b"s1".to_vec(),
        500,
        TIMELOCK - 1,
        &ident(0x01),
        &ident(0x02),
        &ident(0xAA),
    );
    assert_eq!(r, Err(EngineError::Storage(StorageError::NotFound)));
    let again = e.claim_refund(&ident(0x01), b"c1".to_vec(), &ident(0x02), TIMELOCK);
    assert_eq!(again, Err(EngineError::Storage(StorageError::NotFound)));
}

#[test]
fn refund_by_non_counter_party_fails() {
    let mut e = engine_with_open_channel();
    let by_owner = e.claim_refund(&ident(0x01), b"c1".to_vec(), &ident(0x01), TIMELOCK + 1);
    assert_eq!(
        by_owner,
        Err(EngineError::Domain(ErrorCode::WrongChannelCounterParty))
    );
    let by_stranger = e.claim_refund(&ident(0x01), b"c1".to_vec(), &ident(0x77), TIMELOCK + 1);
    assert_eq!(
        by_stranger,
        Err(EngineError::Domain(ErrorCode::WrongChannelCounterParty))
    );
    assert!(e.get_channel(&ident(0x01), &b"c1".to_vec()).is_some());
}

#[test]
fn close_with_wrong_parties_fails_each_check() {
    let mut e = engine_with_open_channel();
    let wrong_owner = e.close_channel(
        &ident(0x01),
        b"c1".to_vec(),
        &b"s1".to_vec(),
        500,
        TIMELOCK - 1,
        &ident(0x99),
        &ident(0x02),
        &ident(0xAA),
    );
    assert_eq!(
        wrong_owner,
        Err(EngineError::Domain(ErrorCode::WrongChannelOwner))
    );
    let wrong_cp = e.close_channel(
        &ident(0x01),
        b"c1".to_vec(),
        &b"s1".to_vec(),
        500,
        TIMELOCK - 1,
        &ident(0x01),
        &ident(0x99),
        &ident(0xAA),
    );
    assert_eq!(
        wrong_cp,
        Err(EngineError::Domain(ErrorCode::WrongChannelCounterParty))
    );
    let wrong_tc = e.close_channel(
        &ident(0x01),
        b"c1".to_vec(),
        &b"s1".to_vec(),
        500,
        TIMELOCK - 1,
        &ident(0x01),
        &ident(0x02),
        &ident(0x99),
    );
    assert_eq!(
        wrong_tc,
        Err(EngineError::Domain(ErrorCode::WrongTemplateCreator))
    );
    assert!(e.get_channel(&ident(0x01), &b"c1".to_vec()).is_some());
}

#[test]
fn royalty_rounds_down_and_custody_is_conserved() {
    let mut e = Engine::new();
    e.create_template(ident(0xAA), b"tpl".to_vec(), b"n".to_vec(), b"b".to_vec())
        .unwrap();
    e.open_channel(
        ident(0x01),
        b"c7".to_vec(),
        ident(0x02),
        10,
        digest_of("s1"),
        TIMELOCK,
        &b"tpl".to_vec(),
        255,
    )
    .unwrap();
    let ev = e
        .close_channel(
            &ident(0x01),
            b"c7".to_vec(),
            &b"s1".to_vec(),
            7,
            1,
            &ident(0x01),
            &ident(0x02),
            &ident(0xAA),
        )
        .unwrap();
    assert_eq!(ev.royalty, 1);
    assert_eq!(ev.fee, 6);
    assert_eq!(ev.refund, 3);
    assert_eq!(ev.royalty + ev.fee + ev.refund, 10);
}

#[test]
fn close_with_zero_final_balance_refunds_everything() {
    let mut e = engine_with_open_channel();
    let ev = e
        .close_channel(
            &ident(0x01),
            b"c1".to_vec(),
            &b"s1".to_vec(),
            0,
            1,
            &ident(0x01),
            &ident(0x02),
            &ident(0xAA),
        )
        .unwrap();
    assert_eq!(ev.royalty, 0);
    assert_eq!(ev.fee, 0);
    assert_eq!(ev.refund, 1000);
}

#[test]
fn duplicate_channel_id_is_rejected_per_owner() {
    let mut e = engine_with_open_channel();
    let dup = e.open_channel(
        ident(0x01),
        b"c1".to_vec(),
        ident(0x03),
        77,
        digest_of("s2"),
        TIMELOCK,
        &b"tpl".to_vec(),
        254,
    );
    assert_eq!(dup, Err(EngineError::Storage(StorageError::AlreadyExists)));
    // Another owner may reuse the identifier: the address differs.
    let other = e.open_channel(
        ident(0x09),
        b"c1".to_vec(),
        ident(0x03),
        77,
        digest_of("s2"),
        TIMELOCK,
        &b"tpl".to_vec(),
        254,
    );
    assert!(other.is_ok());
    assert_eq!(e.get_channel(&ident(0x09), &b"c1".to_vec()).unwrap().balance, 77);
    assert_eq!(e.get_channel(&ident(0x01), &b"c1".to_vec()).unwrap().balance, 1000);
}

#[test]
fn open_against_unknown_template_fails() {
    let mut e = Engine::new();
    let r = e.open_channel(
        ident(0x01),
        b"c1".to_vec(),
        ident(0x02),
        1000,
        digest_of("s1"),
        TIMELOCK,
        &b"missing".to_vec(),
        254,
    );
    assert_eq!(r, Err(EngineError::Storage(StorageError::NotFound)));
}

#[test]
fn create_template_is_create_once() {
    let mut e = Engine::new();
    let ev = e
        .create_template(
            ident(0xAA),
            b"tpl".to_vec(),
            b"name".to_vec(),
            b"calm".to_vec(),
        )
        .unwrap();
    assert_eq!(ev.template_id, b"tpl".to_vec());
    assert_eq!(ev.creator, ident(0xAA));
    assert_eq!(ev.name, b"name".to_vec());
    assert_eq!(ev.base_behavior, b"calm".to_vec());
    let again = e.create_template(
        ident(0xBB),
        b"tpl".to_vec(),
        b"other".to_vec(),
        b"wild".to_vec(),
    );
    assert_eq!(again, Err(EngineError::Storage(StorageError::AlreadyExists)));
    // The first creation stands untouched.
    let t = e.get_template(&b"tpl".to_vec()).unwrap();
    assert_eq!(t.creator, ident(0xAA));
    assert_eq!(t.base_behavior, b"calm".to_vec());
}

#[test]
fn royalty_recipient_is_captured_at_open_time() {
    let mut e = Engine::new();
    e.create_template(ident(0xAA), b"tpl".to_vec(), b"n".to_vec(), b"b".to_vec())
        .unwrap();
    e.open_channel(
        ident(0x01),
        b"c1".to_vec(),
        ident(0x02),
        1000,
        digest_of("s1"),
        TIMELOCK,
        &b"tpl".to_vec(),
        254,
    )
    .unwrap();
    // The close pays the creator recorded on the channel, and checks the
    // caller's claim against that snapshot.
    let ev = e
        .close_channel(
            &ident(0x01),
            b"c1".to_vec(),
            &b"s1".to_vec(),
            500,
            1,
            &ident(0x01),
            &ident(0x02),
            &ident(0xAA),
        )
        .unwrap();
    assert_eq!(ev.template_creator, ident(0xAA));
}
