use stellar_xdr::curr::{Int128Parts, Limits, ReadXdr, ScVal, TimePoint, WriteXdr};
use verdant_backend::config::parse_contracts;
use verdant_backend::ids::{counter_id, parse_counter_id};
use verdant_backend::indexer::chain::{ChainEventsError, StubEventSource};
use verdant_backend::indexer::model::{ChainEvent, Cursor};
use verdant_backend::indexer::projections::{
    decode_escrow_created, decode_escrow_deposited, decode_escrow_refunded,
    decode_escrow_released, decode_verification_created, decode_verification_revoked,
    plan_event, render_uuid7_ref, ProjectionWrite, ESCROW_PREFIX, VERIFICATION_PREFIX,
};
use verdant_backend::indexer::rows::{
    apply_escrow_event, apply_escrow_write, apply_financing_event, apply_identity_event,
    apply_verification_event, apply_verification_write, IdentityRow, STATUS_OPEN,
};
use verdant_backend::indexer::rpc::{
    contract_name_for, decode_rpc_event, event_from_values, i128_json, next_page, parse_cursor, scval_to_json,
    select_events, start_ledger, symbol_to_string, RpcEvent, ScAddressValue, ScValue,
    RPC_PAGE_LIMIT,
};
use verdant_backend::indexer::service::{
    finality_floor, is_finalized, needs_head, plan_ingest, TRUSTED_CUTOFF,
};
use verdant_backend::json::{JsonNumber, JsonValue};

fn num(n: u64) -> JsonValue {
    JsonValue::Number(JsonNumber::PosInt(n))
}

fn text(s: &str) -> JsonValue {
    JsonValue::String(s.to_string())
}

fn arr(items: Vec<JsonValue>) -> JsonValue {
    JsonValue::Array(items)
}

fn as_u64(v: &JsonValue) -> Option<u64> {
    match v {
        JsonValue::Number(JsonNumber::PosInt(n)) => Some(*n),
        _ => None,
    }
}

fn ev(ledger: i64, op: i32, index: i32, name: &str) -> ChainEvent {
    ChainEvent {
        contract_id: "C1".into(),
        contract_name: "verification".into(),
        event_name: name.into(),
        ledger_sequence: ledger,
        operation_index: op,
        event_index: index,
        topics: arr(vec![num(1)]),
        data: arr(vec![]),
    }
}

fn event(name: &str, data: JsonValue) -> ChainEvent {
    ChainEvent {
        contract_id: "C1".into(),
        contract_name: "verification".into(),
        event_name: name.into(),
        ledger_sequence: 100,
        operation_index: 0,
        event_index: 0,
        topics: arr(vec![num(42)]),
        data,
    }
}

#[test]
fn cursor_ordering() {
    let a = Cursor { ledger_sequence: 100, operation_index: 0, event_index: 0 };
    let b = Cursor { ledger_sequence: 100, operation_index: 0, event_index: 1 };
    let c = Cursor { ledger_sequence: 101, operation_index: 0, event_index: 0 };
    assert!(!a.is_after(&a));
    assert!(b.is_after(&a));
    assert!(c.is_after(&b));
    assert!(!a.is_after(&c));
}

#[test]
fn start_cursor_precedes_every_event() {
    let start = Cursor::start();
    assert_eq!(start, Cursor { ledger_sequence: 0, operation_index: -1, event_index: -1 });
    assert!(Cursor { ledger_sequence: 0, operation_index: 0, event_index: 0 }.is_after(&start));
}

#[test]
fn returns_events_after_cursor() {
    let mut source = StubEventSource::new();
    source.push(ev(100, 0, 0, "VerificationCreated"));
    source.push(ev(100, 0, 1, "VerificationCreated"));
    source.push(ev(101, 0, 0, "VerificationCreated"));

    let all = source.events_after("C1", Cursor::start()).ok().unwrap();
    assert_eq!(all.len(), 3);

    let after_first = source
        .events_after("C1", Cursor { ledger_sequence: 100, operation_index: 0, event_index: 0 })
        .ok()
        .unwrap();
    assert_eq!(after_first.len(), 2);

    let head = source.head_ledger().ok().unwrap();
    assert_eq!(head, 0);
    source.set_head(200);
    assert_eq!(source.head_ledger().ok().unwrap(), 200);
}

#[test]
fn filters_by_contract() {
    let mut source = StubEventSource::new();
    let mut other = ev(100, 0, 0, "VerificationCreated");
    other.contract_id = "C2".into();
    source.push(ev(100, 0, 1, "VerificationCreated"));
    source.push(other);

    let events = source.events_after("C1", Cursor::start()).ok().unwrap();
    assert_eq!(events.len(), 1);
    assert_eq!(events[0].contract_id, "C1");
}

#[test]
fn stub_orders_by_position_and_replaces_same_position() {
    let mut source = StubEventSource::new();
    source.push(ev(101, 0, 0, "B"));
    source.push(ev(100, 0, 0, "A"));
    source.push(ev(101, 0, 0, "C"));
    let events = source.events_after("C1", Cursor::start()).ok().unwrap();
    let names: Vec<&str> = events.iter().map(|e| e.event_name.as_str()).collect();
    assert_eq!(names, vec!["A", "C"]);
}

#[test]
fn stub_source_compatibility() {
    let source = StubEventSource::new();
    let events = source.events_after("C1", Cursor::start()).ok().unwrap();
    assert!(events.is_empty());
}

#[test]
fn re_reading_from_resume_cursor_yields_nothing() {
    let mut source = StubEventSource::new();
    source.push(ev(100, 0, 0, "A"));
    source.push(ev(105, 2, 1, "B"));
    source.set_head(120);
    let start = Cursor::start();
    let pulled = source.events_after("C1", start).ok().unwrap();
    let plan = plan_ingest(&pulled, start, source.head_ledger().ok().unwrap());
    assert_eq!(plan.pulled, 2);
    assert_eq!(plan.resume, Cursor { ledger_sequence: 105, operation_index: 2, event_index: 1 });
    assert_eq!(plan.finality_floor, 110);
    assert!(source.events_after("C1", plan.resume).ok().unwrap().is_empty());
    let empty: Vec<ChainEvent> = Vec::new();
    assert_eq!(plan_ingest(&empty, plan.resume, 130).resume, plan.resume);
}

#[test]
fn finality_gates_projection_writes() {
    assert_eq!(TRUSTED_CUTOFF, 10);
    assert_eq!(finality_floor(200), 190);
    let e = ev(190, 0, 0, "A");
    assert!(is_finalized(&e, finality_floor(200)));
    assert!(!is_finalized(&e, finality_floor(199)));
}

#[test]
fn decodes_verification_created() {
    let ev = event(
        "VerificationCreated",
        arr(vec![
            num(42),
            text("018f0c2a"),
            text("GSUBJECT"),
            text("0f1e2d3c"),
            text("GISSUER"),
            num(100_000),
            JsonValue::Bool(false),
            num(0),
        ]),
    );
    let decoded = decode_verification_created(&ev).unwrap();
    assert_eq!(decoded.verification_id, 42);
    assert_eq!(decoded.subject, "GSUBJECT");
    assert_eq!(decoded.issuer, "GISSUER");
    assert_eq!(decoded.issued_ledger, 100_000);
    assert_eq!(
        counter_id(VERIFICATION_PREFIX, decoded.verification_id),
        "va:verification:000000000042"
    );
}

#[test]
fn decodes_verification_revoked() {
    let ev = event(
        "VerificationRevoked",
        arr(vec![num(42), text(""), JsonValue::Bool(true), num(100_120)]),
    );
    let decoded = decode_verification_revoked(&ev).unwrap();
    assert_eq!(decoded.verification_id, 42);
    assert_eq!(decoded.revoked_ledger, 100_120);
}

#[test]
fn decodes_escrow_created() {
    let ev = event(
        "EscrowCreated",
        arr(vec![
            num(11),
            text("GDEPOSITOR"),
            text("GBENEFICIARY"),
            num(10_000_000_000),
            num(1),
            text("GRELEASER"),
            num(0),
            text("018f0c2a"),
            num(100_000),
            num(100_000),
        ]),
    );
    let decoded = decode_escrow_created(&ev).unwrap();
    assert_eq!(decoded.escrow_id, 11);
    assert_eq!(decoded.depositor, "GDEPOSITOR");
    assert_eq!(decoded.condition_kind, 1);
    assert_eq!(decoded.booking_ref_hex, "018f0c2a");
    assert_eq!(counter_id(ESCROW_PREFIX, decoded.escrow_id), "va:escrow:000000000011");
}

#[test]
fn decodes_escrow_mutations() {
    let deposited = event(
        "EscrowDeposited",
        arr(vec![num(11), text("GDEPOSITOR"), num(5_000), num(100_010)]),
    );
    assert_eq!(decode_escrow_deposited(&deposited).unwrap().amount, 5_000);

    let released = event(
        "EscrowReleased",
        arr(vec![num(11), text("GRELEASER"), num(3_000), num(100_020)]),
    );
    assert_eq!(decode_escrow_released(&released).unwrap().released_amount, 3_000);

    let refunded = event(
        "EscrowRefunded",
        arr(vec![num(11), text("GDEPOSITOR"), num(2_000), num(100_030)]),
    );
    assert_eq!(decode_escrow_refunded(&refunded).unwrap().updated_ledger, 100_030);
}

#[test]
fn malformed_payloads_do_not_decode() {
    let short = event("EscrowDeposited", arr(vec![num(11), text("G")]));
    assert!(decode_escrow_deposited(&short).is_none());
    let wrong_type = event("VerificationRevoked", arr(vec![text("42"), text(""), num(1), num(2)]));
    assert!(decode_verification_revoked(&wrong_type).is_none());
    let not_array = event("VerificationRevoked", text("x"));
    assert!(decode_verification_revoked(&not_array).is_none());
}

#[test]
fn renders_counter_ids_and_references() {
    assert_eq!(counter_id("va:verification", 7), "va:verification:000000000007");
    assert_eq!(parse_counter_id("va:escrow:000000000011", "va:escrow"), Some(11));
    assert_eq!(render_uuid7_ref("batch", "not-a-uuid"), "va:batch:not-a-uuid");
    let uuid = "018f0c2a-0000-7000-8000-000000000000";
    assert_eq!(render_uuid7_ref("booking", uuid), format!("va:booking:{uuid}"));
    assert_eq!(
        render_uuid7_ref("batch", "018F0C2A000070008000000000000000"),
        "va:batch:018f0c2a-0000-7000-8000-000000000000"
    );
}

#[test]
fn plans_projection_writes() {
    let created = event(
        "VerificationCreated",
        arr(vec![
            num(42),
            text("018f0c2a"),
            text("GSUBJECT"),
            text("0f1e2d3c"),
            text("GISSUER"),
            num(100_000),
        ]),
    );
    match plan_event(&created) {
        Ok(Some(ProjectionWrite::UpsertVerification { id, batch_id, issued_ledger, .. })) => {
            assert_eq!(id, "va:verification:000000000042");
            assert_eq!(batch_id, "va:batch:018f0c2a");
            assert_eq!(issued_ledger, 100_000);
        },
        _ => panic!("expected a verification upsert"),
    }
    let bad = event("VerificationCreated", arr(vec![num(42)]));
    assert_eq!(plan_event(&bad).err(), Some("bad VerificationCreated payload".to_string()));
    let mut unknown = event("SomethingElse", arr(vec![]));
    unknown.contract_name = "financing".into();
    assert!(matches!(plan_event(&unknown), Ok(None)));
}

#[test]
fn escrow_rows_accumulate_and_replay_idempotently() {
    let mut created = event(
        "EscrowCreated",
        arr(vec![
            num(11),
            text("GDEPOSITOR"),
            text("GBENEFICIARY"),
            num(10_000),
            num(1),
            text("GRELEASER"),
            num(0),
            text("018f0c2a"),
            num(100_000),
            num(100_000),
        ]),
    );
    created.contract_name = "escrow".into();
    let mut deposit = event(
        "EscrowDeposited",
        arr(vec![num(11), text("GDEPOSITOR"), num(5_000), num(100_010)]),
    );
    deposit.contract_name = "escrow".into();
    let mut release = event(
        "EscrowReleased",
        arr(vec![num(11), text("GRELEASER"), num(3_000), num(100_020)]),
    );
    release.contract_name = "escrow".into();

    let w = plan_event(&created).ok().unwrap().unwrap();
    let row = apply_escrow_write(None, &w).ok().unwrap().unwrap();
    assert_eq!(row.amount, 10_000);
    assert_eq!(row.released_amount, 0);
    assert_eq!(row.status, STATUS_OPEN);
    let w = plan_event(&deposit).ok().unwrap().unwrap();
    let row = apply_escrow_write(Some(row), &w).ok().unwrap().unwrap();
    assert_eq!(row.amount, 15_000);
    assert_eq!(row.updated_ledger, 100_010);
    let w = plan_event(&release).ok().unwrap().unwrap();
    let row = apply_escrow_write(Some(row), &w).ok().unwrap().unwrap();
    assert_eq!(row.released_amount, 3_000);
    assert_eq!(row.status, "open");
    let mut rest = event(
        "EscrowReleased",
        arr(vec![num(11), text("GRELEASER"), num(12_000), num(100_030)]),
    );
    rest.contract_name = "escrow".into();
    let w = plan_event(&rest).ok().unwrap().unwrap();
    let row = apply_escrow_write(Some(row), &w).ok().unwrap().unwrap();
    assert_eq!(row.released_amount, 15_000);
    assert_eq!(row.status, "released");
    let w = plan_event(&created).ok().unwrap().unwrap();
    let replayed = apply_escrow_write(Some(row), &w).ok().unwrap().unwrap();
    assert_eq!(replayed.amount, 10_000);
    assert_eq!(replayed.id, "va:escrow:000000000011");
}

#[test]
fn verification_rows_revoke() {
    let created = event(
        "VerificationCreated",
        arr(vec![
            num(42),
            text("b"),
            text("GSUBJECT"),
            text("p"),
            text("GISSUER"),
            num(100_000),
        ]),
    );
    let revoked = event(
        "VerificationRevoked",
        arr(vec![num(42), text(""), JsonValue::Bool(true), num(100_120)]),
    );
    let w = plan_event(&created).ok().unwrap().unwrap();
    let row = apply_verification_write(None, &w).unwrap();
    assert!(!row.revoked);
    let w = plan_event(&revoked).ok().unwrap().unwrap();
    let row = apply_verification_write(Some(row), &w).unwrap();
    assert!(row.revoked);
    assert_eq!(row.revoked_ledger, Some(100_120));
    assert!(apply_verification_write(None, &w).is_none());
}

#[test]
fn decodes_scval_to_json() {
    assert_eq!(as_u64(&scval_to_json(&ScValue::U32(42)).ok().unwrap()), Some(42));
    assert_eq!(
        as_u64(&scval_to_json(&ScValue::U64(1_000_000)).ok().unwrap()),
        Some(1_000_000)
    );
    assert!(matches!(scval_to_json(&ScValue::Bool(true)), Ok(JsonValue::Bool(true))));
    assert!(matches!(scval_to_json(&ScValue::Void), Ok(JsonValue::Null)));

    let symbol = ScValue::Symbol("VerificationCreated".into());
    assert_eq!(symbol_to_string(&symbol), Some("VerificationCreated".into()));
}

#[test]
fn wide_integers_keep_precision() {
    match i128_json(0, 5_000_000_000) {
        JsonValue::Number(JsonNumber::PosInt(n)) => assert_eq!(n, 5_000_000_000),
        _ => panic!("expected a number"),
    }
    match i128_json(-1, u64::MAX) {
        JsonValue::Number(JsonNumber::NegInt(n)) => assert_eq!(n, -1),
        _ => panic!("expected a negative number"),
    }
    match i128_json(1, 0) {
        JsonValue::String(s) => assert_eq!(s, "18446744073709551616"),
        _ => panic!("expected text"),
    }
    match i128_json(i64::MIN, 0) {
        JsonValue::String(s) => assert_eq!(s, i128::MIN.to_string()),
        _ => panic!("expected text"),
    }
    match scval_to_json(&ScValue::U128 { hi: 1, lo: 1 }).ok().unwrap() {
        JsonValue::String(s) => assert_eq!(s, "18446744073709551617"),
        _ => panic!("expected text"),
    }
    match scval_to_json(&ScValue::Bytes(vec![0xde, 0xad])).ok().unwrap() {
        JsonValue::String(s) => assert_eq!(s, "dead"),
        _ => panic!("expected hex"),
    }
}

#[test]
fn maps_need_text_keys() {
    let good = ScValue::ScMap(Some(vec![
        (ScValue::Symbol("a".into()), ScValue::U32(1)),
        (ScValue::String("b".into()), ScValue::U32(2)),
        (ScValue::Symbol("a".into()), ScValue::U32(3)),
    ]));
    match scval_to_json(&good).ok().unwrap() {
        JsonValue::Object(entries) => {
            assert_eq!(entries.len(), 2);
            assert_eq!(entries[0].0, "a");
            assert_eq!(as_u64(&entries[0].1), Some(3));
            assert_eq!(entries[1].0, "b");
        },
        _ => panic!("expected an object"),
    }
    let bad = ScValue::ScVec(Some(vec![ScValue::ScMap(Some(vec![(
        ScValue::U32(1),
        ScValue::Void,
    )]))]));
    assert!(scval_to_json(&bad).is_err());
}

#[test]
fn addresses_render_as_strkeys() {
    let account = ScValue::Address(ScAddressValue::Account([0u8; 32]));
    match scval_to_json(&account).ok().unwrap() {
        JsonValue::String(s) => {
            assert_eq!(s, "GAAAAAAAAAAAAAAAAAAAAAAAAAAAAAAAAAAAAAAAAAAAAAAAAAAAAWHF")
        },
        _ => panic!("expected a strkey"),
    }
    let muxed = ScValue::Address(ScAddressValue::MuxedAccount { ed25519: [0u8; 32], id: 7 });
    match scval_to_json(&muxed).ok().unwrap() {
        JsonValue::String(s) => assert!(s.starts_with('M') && s.len() == 69),
        _ => panic!("expected a strkey"),
    }
    let other = ScValue::Address(ScAddressValue::Other("PoolId(..)".into()));
    match scval_to_json(&other).ok().unwrap() {
        JsonValue::String(s) => assert_eq!(s, "PoolId(..)"),
        _ => panic!("expected the debug text"),
    }
    let contract = ScValue::Address(ScAddressValue::Contract([0u8; 32]));
    match scval_to_json(&contract).ok().unwrap() {
        JsonValue::String(s) => assert!(s.starts_with('C') && s.len() == 56),
        _ => panic!("expected a strkey"),
    }
}

#[test]
fn parses_rpc_cursors() {
    assert_eq!(parse_cursor("429496729600-0"), Some((429496729600, 0)));
    assert_eq!(parse_cursor("12-+3"), Some((12, 3)));
    assert_eq!(parse_cursor("12"), None);
    assert_eq!(parse_cursor("12-3-4"), None);
    assert_eq!(parse_cursor("12--3"), None);
    assert_eq!(parse_cursor("x-1"), None);
    assert_eq!(parse_cursor("1-2147483648"), None);
}

fn b64(v: &ScVal) -> String {
    v.to_xdr_base64(Limits::none()).unwrap()
}

fn sym(name: &str) -> ScVal {
    ScVal::Symbol(name.try_into().unwrap())
}

fn rpc_event(id: &str, topic: Vec<String>, value: String) -> RpcEvent {
    RpcEvent { contract_id: "CDEBUG".into(), id: id.into(), topic, value }
}

#[test]
fn decodes_rpc_event_to_chain_event() {
    // FinancingCreated: topics = [Symbol("FinancingCreated"), U64(7)];
    // value = [U64(7), I128(5e9), Bool(false)].
    let event = rpc_event(
        &format!("{}-0", 100u64 << 32),
        vec![b64(&sym("FinancingCreated")), b64(&ScVal::U64(7))],
        b64(&ScVal::Vec(Some(
            vec![
                ScVal::U64(7),
                ScVal::I128(Int128Parts { hi: 0, lo: 5_000_000_000 }),
                ScVal::Bool(false),
            ]
            .try_into()
            .unwrap(),
        ))),
    );
    let chain = decode_rpc_event(&event, "financing").unwrap();
    assert_eq!(chain.contract_id, "CDEBUG");
    assert_eq!(chain.contract_name, "financing");
    assert_eq!(chain.event_name, "FinancingCreated");
    assert_eq!(chain.ledger_sequence, 100);
    assert_eq!(chain.operation_index, 0);
    assert_eq!(chain.event_index, 0);
    match &chain.topics {
        JsonValue::Array(t) => {
            assert_eq!(t.len(), 1);
            assert_eq!(as_u64(&t[0]), Some(7));
        },
        _ => panic!("expected topics array"),
    }
    match &chain.data {
        JsonValue::Array(d) => {
            assert_eq!(d.len(), 3);
            assert_eq!(as_u64(&d[0]), Some(7));
            assert_eq!(as_u64(&d[1]), Some(5_000_000_000));
            assert!(matches!(d[2], JsonValue::Bool(false)));
        },
        _ => panic!("expected data array"),
    }
}

#[test]
fn rpc_events_with_bad_layout_are_skipped() {
    let void = b64(&ScVal::Void);
    let no_name = rpc_event("5-0", vec![b64(&ScVal::U32(1))], void.clone());
    assert!(decode_rpc_event(&no_name, "x").is_none());
    let undecodable = rpc_event("5-0", vec!["not xdr".into()], void.clone());
    assert!(decode_rpc_event(&undecodable, "x").is_none());
    let no_topic = rpc_event("5-0", vec![], void.clone());
    assert!(decode_rpc_event(&no_topic, "x").is_none());
    let bad_value = rpc_event("5-0", vec![b64(&sym("E"))], "***".into());
    assert!(decode_rpc_event(&bad_value, "x").is_none());
    let bad_id = rpc_event("5", vec![b64(&sym("E"))], void.clone());
    assert!(decode_rpc_event(&bad_id, "x").is_none());
    let op = rpc_event(&format!("{}-2", (7u64 << 32) | 0xFFFF_FFFF), vec![b64(&sym("E"))], void.clone());
    let decoded = decode_rpc_event(&op, "x").unwrap();
    assert_eq!(decoded.ledger_sequence, 7);
    assert_eq!(decoded.operation_index, -1);
    assert_eq!(decoded.event_index, 2);

    let page = vec![
        rpc_event(&format!("{}-0", 10u64 << 32), vec![b64(&sym("A"))], void.clone()),
        no_name,
        rpc_event(&format!("{}-1", 10u64 << 32), vec![b64(&sym("B"))], void),
    ];
    let cursor = Cursor { ledger_sequence: 10, operation_index: 0, event_index: 0 };
    let kept = select_events(&page, "x", cursor);
    assert_eq!(kept.len(), 1);
    assert_eq!(kept[0].event_name, "B");
}

#[test]
fn rpc_event_values_decode_maps_and_addresses() {
    let map = ScVal::Map(Some(
        vec![stellar_xdr::curr::ScMapEntry { key: sym("amount"), val: ScVal::U32(5) }]
            .try_into()
            .unwrap(),
    ));
    let ev = rpc_event("5-0", vec![b64(&sym("E"))], b64(&map));
    match decode_rpc_event(&ev, "x").unwrap().data {
        JsonValue::Object(entries) => {
            assert_eq!(entries.len(), 1);
            assert_eq!(entries[0].0, "amount");
            assert_eq!(as_u64(&entries[0].1), Some(5));
        },
        _ => panic!("expected an object"),
    }
    let bad_key = ScVal::Map(Some(
        vec![stellar_xdr::curr::ScMapEntry { key: ScVal::U32(1), val: ScVal::Void }]
            .try_into()
            .unwrap(),
    ));
    assert!(decode_rpc_event(&rpc_event("5-0", vec![b64(&sym("E"))], b64(&bad_key)), "x").is_none());
}

#[test]
fn rpc_start_and_contract_names() {
    assert_eq!(start_ledger(&Cursor::start()), 1);
    assert_eq!(start_ledger(&Cursor { ledger_sequence: 55, operation_index: 0, event_index: 0 }), 55);
    let contracts = parse_contracts("escrow:C2");
    assert_eq!(contract_name_for(&contracts, "C2"), "escrow");
    assert_eq!(contract_name_for(&contracts, "C9"), "unknown");
}

fn escrow_event(name: &str, ledger: i64, data: JsonValue) -> ChainEvent {
    let mut e = event(name, data);
    e.contract_name = "escrow".into();
    e.ledger_sequence = ledger;
    e
}

#[test]
fn escrow_rows_follow_create_deposit_release_refund() {
    let events = vec![
        escrow_event(
            "EscrowCreated",
            100_000,
            arr(vec![
                num(11),
                text("GDEPOSITOR"),
                text("GBENEFICIARY"),
                num(10_000_000_000),
                num(1),
                text("GRELEASER"),
                num(0),
                text("018f0c2a-0000-7000-8000-000000000000"),
                num(100_000),
                num(100_000),
            ]),
        ),
        escrow_event(
            "EscrowDeposited",
            100_010,
            arr(vec![num(11), text("GDEPOSITOR"), num(5_000_000_000), num(100_010)]),
        ),
        escrow_event(
            "EscrowReleased",
            100_020,
            arr(vec![num(11), text("GRELEASER"), num(3_000_000_000), num(100_020)]),
        ),
        escrow_event(
            "EscrowRefunded",
            100_030,
            arr(vec![num(11), text("GDEPOSITOR"), num(12_000_000_000), num(100_030)]),
        ),
    ];
    let mut row = None;
    for e in &events {
        let w = plan_event(e).ok().unwrap().unwrap();
        row = apply_escrow_write(row, &w).ok().unwrap();
    }
    let row = row.unwrap();
    assert_eq!(row.depositor, "GDEPOSITOR");
    assert_eq!(row.beneficiary, "GBENEFICIARY");
    assert_eq!(row.amount, 15_000_000_000);
    assert_eq!(row.released_amount, 15_000_000_000);
    assert_eq!(row.status, "refunded");
    assert_eq!(
        row.booking_ref,
        Some("va:booking:018f0c2a-0000-7000-8000-000000000000".to_string())
    );
    assert_eq!(row.updated_ledger, 100_030);
}

#[test]
fn identity_events_plan_farmer_writes() {
    let addr = "GAAAAAAAAAAAAAAAAAAAAAAAAAAAAAAAAAAAAAAAAAAAAAAAAAAAAWHF";
    let mut registered = event(
        "FarmerRegistered",
        JsonValue::Object(vec![
            ("address".to_string(), text(addr)),
            ("verification_markers".to_string(), arr(vec![])),
            ("created_ledger".to_string(), num(100_000)),
            ("updated_ledger".to_string(), num(100_001)),
        ]),
    );
    registered.contract_name = "identity".into();
    registered.topics = arr(vec![text(addr)]);
    match plan_event(&registered) {
        Ok(Some(ProjectionWrite::UpsertIdentityFarmer { address, id, created_ledger, updated_ledger, .. })) => {
            assert_eq!(address, addr);
            assert_eq!(id, format!("va:farmer:{addr}"));
            assert_eq!(created_ledger, Some(100_000));
            assert_eq!(updated_ledger, Some(100_001));
        },
        _ => panic!("expected a farmer upsert"),
    }
    let mut marker = event("VerificationMarkerSet", JsonValue::Object(vec![]));
    marker.contract_name = "identity".into();
    marker.topics = arr(vec![num(1)]);
    assert_eq!(
        plan_event(&marker).err(),
        Some("bad VerificationMarkerSet payload".to_string())
    );
}

fn at(ledger: i64, event: i32) -> Cursor {
    Cursor { ledger_sequence: ledger, operation_index: 0, event_index: event }
}

fn positioned(name: &str, contract: &str, ledger: i64, data: JsonValue) -> ChainEvent {
    let mut e = event(name, data);
    e.contract_name = contract.into();
    e.ledger_sequence = ledger;
    e
}

#[test]
fn replayed_escrow_events_take_effect_once() {
    let created = positioned(
        "EscrowCreated",
        "escrow",
        100_000,
        arr(vec![
            num(11),
            text("GDEPOSITOR"),
            text("GBENEFICIARY"),
            num(10_000),
            num(1),
            text("GRELEASER"),
            num(0),
            text("b"),
            num(100_000),
            num(100_000),
        ]),
    );
    let deposit = positioned(
        "EscrowDeposited",
        "escrow",
        100_010,
        arr(vec![num(11), text("GDEPOSITOR"), num(5_000), num(100_010)]),
    );
    let release = positioned(
        "EscrowReleased",
        "escrow",
        100_020,
        arr(vec![num(11), text("GRELEASER"), num(1_000), num(100_020)]),
    );
    let events = vec![created, deposit, release];
    let mut row = None;
    // A first ingest applies the first two events, a second one all three.
    for e in &events[..2] {
        let w = plan_event(e).ok().unwrap().unwrap();
        row = apply_escrow_event(row, &w, e.position()).ok().unwrap();
    }
    for e in &events {
        let w = plan_event(e).ok().unwrap().unwrap();
        row = apply_escrow_event(row, &w, e.position()).ok().unwrap();
    }
    let (escrow, last) = row.unwrap();
    assert_eq!(escrow.amount, 15_000);
    assert_eq!(escrow.released_amount, 1_000);
    assert_eq!(last, at(100_020, 0));
    // Replaying the deposit once more changes nothing.
    let w = plan_event(&events[1]).ok().unwrap().unwrap();
    let again = apply_escrow_event(Some((escrow, last)), &w, events[1].position()).ok().unwrap();
    assert_eq!(again.unwrap().0.amount, 15_000);
}

#[test]
fn replayed_verification_events_take_effect_once() {
    let created = event(
        "VerificationCreated",
        arr(vec![num(42), text("b"), text("GS"), text("p"), text("GI"), num(100_000)]),
    );
    let w = plan_event(&created).ok().unwrap().unwrap();
    let once = apply_verification_event(None, &w, at(100, 0));
    let twice = apply_verification_event(once, &w, at(100, 0)).unwrap();
    assert_eq!(twice.1, at(100, 0));
    assert_eq!(twice.0.issued_ledger, 100_000);
}

#[test]
fn financing_events_build_the_financing_row() {
    let created = positioned(
        "FinancingCreated",
        "financing",
        100_000,
        arr(vec![
            num(7),
            text("GFUNDER"),
            text("GBENEFICIARY"),
            num(50_000),
            num(2),
            arr(vec![JsonValue::Object(vec![("index".to_string(), num(1))])]),
            num(100_000),
        ]),
    );
    let drawn = positioned("FinancingDrawn", "financing", 100_010, arr(vec![num(7), num(10_000), num(100_010)]));
    let repaid = positioned("FinancingRepaid", "financing", 100_020, arr(vec![num(7), num(50_000), num(100_020)]));
    let mut row = None;
    for e in [&created, &drawn, &repaid, &drawn] {
        let w = plan_event(e).ok().unwrap().unwrap();
        row = apply_financing_event(row, &w, e.position()).ok().unwrap();
    }
    let (f, _) = row.unwrap();
    assert_eq!(f.id, "va:financing:000000000007");
    assert_eq!(f.funder, "GFUNDER");
    assert_eq!(f.total_amount, 50_000);
    assert_eq!(f.milestone_count, 2);
    assert_eq!(f.drawn_amount, 10_000);
    assert_eq!(f.drawn_ledger, Some(100_010));
    assert_eq!(f.repaid_amount, 50_000);
    assert_eq!(f.status, "repaid");

    let defaulted = positioned("FinancingDefaulted", "financing", 100_030, arr(vec![num(7), num(100_030)]));
    let w = plan_event(&defaulted).ok().unwrap().unwrap();
    let (f, _) = apply_financing_event(Some((f, at(100_020, 0))), &w, defaulted.position())
        .ok()
        .unwrap()
        .unwrap();
    assert!(f.defaulted);
    assert_eq!(f.defaulted_ledger, Some(100_030));
    assert_eq!(f.status, "defaulted");

    let bad = positioned("FinancingDrawn", "financing", 1, arr(vec![num(7)]));
    assert!(matches!(plan_event(&bad), Ok(None)));
    // The simplified payload of the RPC sample is not a financing layout:
    // nothing is projected from it.
    let sample = positioned(
        "FinancingCreated",
        "financing",
        100,
        arr(vec![num(7), num(5_000_000_000), JsonValue::Bool(false)]),
    );
    assert!(matches!(plan_event(&sample), Ok(None)));
}

#[test]
fn identity_events_build_the_farmer_row_once() {
    let addr = "GAAAAAAAAAAAAAAAAAAAAAAAAAAAAAAAAAAAAAAAAAAAAAAAAAAAAWHF";
    let mut registered = positioned(
        "FarmerRegistered",
        "identity",
        100_000,
        JsonValue::Object(vec![
            ("verification_markers".to_string(), arr(vec![])),
            ("created_ledger".to_string(), num(100_000)),
            ("updated_ledger".to_string(), num(100_000)),
        ]),
    );
    registered.topics = arr(vec![text(addr)]);
    let mut marker = positioned(
        "VerificationMarkerSet",
        "identity",
        100_050,
        JsonValue::Object(vec![("kind".to_string(), text("organic"))]),
    );
    marker.topics = arr(vec![text(addr)]);
    let mut row: Option<(IdentityRow, Cursor)> = None;
    for e in [&registered, &marker, &registered, &marker] {
        let w = plan_event(e).ok().unwrap().unwrap();
        row = apply_identity_event(row, &w, e.position());
    }
    let (farmer, last) = row.unwrap();
    assert_eq!(farmer.id, format!("va:farmer:{addr}"));
    assert!(farmer.registered);
    assert_eq!(farmer.created_ledger, Some(100_000));
    match &farmer.verification_markers {
        JsonValue::Array(m) => assert_eq!(m.len(), 1),
        _ => panic!("expected a marker array"),
    }
    assert_eq!(last, at(100_050, 0));
}

#[test]
fn rpc_pages_continue_only_when_full() {
    assert!(next_page(RPC_PAGE_LIMIT));
    assert!(!next_page(RPC_PAGE_LIMIT - 1));
    assert!(!next_page(0));
    let empty: Vec<ChainEvent> = Vec::new();
    assert!(!needs_head(&empty));
    assert!(needs_head(&vec![ev(1, 0, 0, "A")]));
}

#[test]
fn roundtrips_base64_xdr_scval() {
    // U64 42 as base64 XDR ScVal.
    let encoded = "AAAABQAAAAAAAAAq";
    let decoded = ScVal::from_xdr_base64(encoded, Limits::none()).unwrap();
    assert_eq!(decoded, ScVal::U64(42));
    let ev = rpc_event("5-0", vec![b64(&sym("E"))], encoded.to_string());
    assert_eq!(as_u64(&decode_rpc_event(&ev, "x").unwrap().data), Some(42));
}

fn map_key_error(key: ScValue) -> String {
    let v = ScValue::ScMap(Some(vec![(key, ScValue::Void)]));
    match scval_to_json(&v) {
        Err(ChainEventsError::Internal(m)) => m,
        _ => panic!("expected an internal error"),
    }
}

#[test]
fn map_key_error_names_the_key() {
    assert_eq!(map_key_error(ScValue::U32(7)), format!("unexpected map key {:?}", ScVal::U32(7)));
    assert_eq!(map_key_error(ScValue::I64(-42)), format!("unexpected map key {:?}", ScVal::I64(-42)));
    assert_eq!(map_key_error(ScValue::Bool(true)), format!("unexpected map key {:?}", ScVal::Bool(true)));
    assert_eq!(map_key_error(ScValue::Void), format!("unexpected map key {:?}", ScVal::Void));
    assert_eq!(
        map_key_error(ScValue::Timepoint(5)),
        format!("unexpected map key {:?}", ScVal::Timepoint(TimePoint(5)))
    );
    assert_eq!(
        map_key_error(ScValue::I128 { hi: -1, lo: 5 }),
        format!("unexpected map key {:?}", ScVal::I128(Int128Parts { hi: -1, lo: 5 }))
    );
    assert_eq!(map_key_error(ScValue::ScVec(None)), "unexpected map key Vec");
}

#[test]
fn map_key_error_names_the_first_bad_key() {
    let v = ScValue::ScVec(Some(vec![
        ScValue::ScMap(Some(vec![(ScValue::Symbol("ok".into()), ScValue::U32(1))])),
        ScValue::ScMap(Some(vec![
            (ScValue::Symbol("a".into()), ScValue::ScMap(Some(vec![(ScValue::U64(9), ScValue::Void)]))),
            (ScValue::U32(3), ScValue::Void),
        ])),
    ]));
    match scval_to_json(&v) {
        Err(ChainEventsError::Internal(m)) => assert_eq!(m, "unexpected map key U64(9)"),
        _ => panic!("expected an internal error"),
    }
}

#[test]
fn decoded_values_make_the_event() {
    let id = format!("{}-3", (9u64 << 32) | 1);
    let topic = vec![Some(ScValue::Symbol("EscrowCreated".into())), Some(ScValue::U64(4))];
    let value = Some(ScValue::ScVec(Some(vec![ScValue::U32(1), ScValue::Bool(true)])));
    let e = event_from_values(&"CESCROW".to_string(), &id, &topic, &value, "escrow").unwrap();
    assert_eq!(e.contract_id, "CESCROW");
    assert_eq!(e.contract_name, "escrow");
    assert_eq!(e.event_name, "EscrowCreated");
    assert_eq!(e.ledger_sequence, 9);
    assert_eq!(e.operation_index, 1);
    assert_eq!(e.event_index, 3);
    match &e.topics {
        JsonValue::Array(t) => {
            assert_eq!(t.len(), 1);
            assert_eq!(as_u64(&t[0]), Some(4));
        },
        _ => panic!("expected topics array"),
    }
    match &e.data {
        JsonValue::Array(d) => {
            assert_eq!(d.len(), 2);
            assert_eq!(as_u64(&d[0]), Some(1));
            assert!(matches!(d[1], JsonValue::Bool(true)));
        },
        _ => panic!("expected data array"),
    }
    assert!(event_from_values(&"C".to_string(), &id, &topic, &None, "escrow").is_none());
    let undecoded_topic = vec![Some(ScValue::Symbol("E".into())), None];
    assert!(event_from_values(&"C".to_string(), &id, &undecoded_topic, &value, "escrow").is_none());
}
