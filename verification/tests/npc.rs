use htlc_channel::engine::Engine;
use htlc_channel::errors::{EngineError, ErrorCode, StorageError};

fn ident(b: u8) -> Vec<u8> {
    vec![b; 32]
}

fn engine_with_npc() -> Engine {
    let mut e = Engine::new();
    e.create_template(
        ident(0xAA),
        b"tpl".to_vec(),
        b"guard".to_vec(),
        b"patrol".to_vec(),
    )
    .unwrap();
    let ev = e
        .init_npc(
            ident(0x01),
            b"npc1".to_vec(),
            b"game1".to_vec(),
            &b"tpl".to_vec(),
        )
        .unwrap();
    assert_eq!(ev.npc_id, b"npc1".to_vec());
    assert_eq!(ev.game_id, b"game1".to_vec());
    assert_eq!(ev.creator, ident(0x01));
    assert_eq!(ev.template_id, b"tpl".to_vec());
    e
}

#[test]
fn init_npc_seeds_behavior_from_template() {
    let e = engine_with_npc();
    let n = e
        .get_npc(&ident(0x01), &b"npc1".to_vec(), &b"game1".to_vec())
        .unwrap();
    assert_eq!(n.state.behavior, b"patrol".to_vec());
    assert_eq!(n.state.dialogue, Vec::<u8>::new());
    assert_eq!(n.state.creator, ident(0x01));
    assert_eq!(n.memory.data, Vec::<u8>::new());
}

#[test]
fn init_npc_twice_fails() {
    let mut e = engine_with_npc();
    let again = e.init_npc(
        ident(0x01),
        b"npc1".to_vec(),
        b"game1".to_vec(),
        &b"tpl".to_vec(),
    );
    assert_eq!(again, Err(EngineError::Storage(StorageError::AlreadyExists)));
}

#[test]
fn init_npc_unknown_template_fails() {
    let mut e = Engine::new();
    let r = e.init_npc(
        ident(0x01),
        b"npc1".to_vec(),
        b"game1".to_vec(),
        &b"missing".to_vec(),
    );
    assert_eq!(r, Err(EngineError::Storage(StorageError::NotFound)));
}

#[test]
fn update_npc_logs_action_with_timestamp() {
    let mut e = engine_with_npc();
    let ev = e
        .update_npc(
            &ident(0x01),
            &ident(0x01),
            &b"npc1".to_vec(),
            &b"game1".to_vec(),
            b"wave".to_vec(),
            b"hello".to_vec(),
            b"friendly".to_vec(),
            1234567890,
        )
        .unwrap();
    assert_eq!(ev.npc_id, b"npc1".to_vec());
    assert_eq!(ev.game_id, b"game1".to_vec());
    assert_eq!(ev.creator, ident(0x01));
    assert_eq!(ev.action, b"wave".to_vec());
    let n = e
        .get_npc(&ident(0x01), &b"npc1".to_vec(), &b"game1".to_vec())
        .unwrap();
    assert_eq!(n.memory.data, b",wave@1234567890".to_vec());
    assert_eq!(n.state.dialogue, b"hello".to_vec());
    assert_eq!(n.state.behavior, b"friendly".to_vec());
}

#[test]
fn update_npc_appends_entries_in_order() {
    let mut e = engine_with_npc();
    e.update_npc(
        &ident(0x01),
        &ident(0x01),
        &b"npc1".to_vec(),
        &b"game1".to_vec(),
        b"wave".to_vec(),
        b"hi".to_vec(),
        b"calm".to_vec(),
        7,
    )
    .unwrap();
    e.update_npc(
        &ident(0x01),
        &ident(0x01),
        &b"npc1".to_vec(),
        &b"game1".to_vec(),
        b"run".to_vec(),
        b"bye".to_vec(),
        b"fast".to_vec(),
        40,
    )
    .unwrap();
    let n = e
        .get_npc(&ident(0x01), &b"npc1".to_vec(), &b"game1".to_vec())
        .unwrap();
    assert_eq!(n.memory.data, b",wave@7,run@40".to_vec());
}

#[test]
fn update_npc_truncates_overlong_log_to_new_entry() {
    let mut e = engine_with_npc();
    let long_action = vec![b'x'; 1020];
    e.update_npc(
        &ident(0x01),
        &ident(0x01),
        &b"npc1".to_vec(),
        &b"game1".to_vec(),
        long_action.clone(),
        b"d".to_vec(),
        b"b".to_vec(),
        5,
    )
    .unwrap();
    // Log is now 1 + 1020 + 1 + 1 = 1023 bytes: ",xxx...x@5".
    let n = e
        .get_npc(&ident(0x01), &b"npc1".to_vec(), &b"game1".to_vec())
        .unwrap();
    assert_eq!(n.memory.data.len(), 1023);
    // The next entry would push the log past 1024 bytes, so the log is
    // replaced by that entry alone.
    e.update_npc(
        &ident(0x01),
        &ident(0x01),
        &b"npc1".to_vec(),
        &b"game1".to_vec(),
        b"reset".to_vec(),
        b"d".to_vec(),
        b"b".to_vec(),
        6,
    )
    .unwrap();
    let n = e
        .get_npc(&ident(0x01), &b"npc1".to_vec(), &b"game1".to_vec())
        .unwrap();
    assert_eq!(n.memory.data, b"reset@6".to_vec());
}

#[test]
fn update_npc_by_non_creator_fails() {
    let mut e = engine_with_npc();
    let r = e.update_npc(
        &ident(0x02),
        &ident(0x01),
        &b"npc1".to_vec(),
        &b"game1".to_vec(),
        b"wave".to_vec(),
        b"hi".to_vec(),
        b"calm".to_vec(),
        7,
    );
    assert_eq!(r, Err(EngineError::Domain(ErrorCode::NotCreator)));
    let n = e
        .get_npc(&ident(0x01), &b"npc1".to_vec(), &b"game1".to_vec())
        .unwrap();
    assert_eq!(n.memory.data, Vec::<u8>::new());
}

#[test]
fn update_unknown_npc_fails() {
    let mut e = Engine::new();
    let r = e.update_npc(
        &ident(0x01),
        &ident(0x01),
        &b"npc1".to_vec(),
        &b"game1".to_vec(),
        b"wave".to_vec(),
        b"hi".to_vec(),
        b"calm".to_vec(),
        7,
    );
    assert_eq!(r, Err(EngineError::Storage(StorageError::NotFound)));
}
