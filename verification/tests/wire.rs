use serde_json::Value;
use tgp_escrow::tgp::{
    encode_message, parse_message, EconomicEnvelope, Phase, SettleSource, TgpError, TgpMessage,
    ZkProfile,
};
use tgp_escrow::json::{FaultKind, JsonFault};
use tgp_escrow::wire::{decode_value, encode_value, JsonError, WireField};

fn query() -> TgpMessage {
    TgpMessage::Query {
        id: "q-1".into(),
        from: "buyer://alice".into(),
        to: "seller://bob".into(),
        asset: "USDC".into(),
        amount: 42,
        escrow_from_402: true,
        escrow_contract_from_402: Some("0xCoreProver".into()),
        zk_profile: ZkProfile::Required,
    }
}

fn offer(expiry: Option<&str>) -> TgpMessage {
    TgpMessage::Offer {
        id: "offer-q-1".into(),
        query_id: "q-1".into(),
        asset: "USDC".into(),
        amount: u64::MAX,
        coreprover_contract: None,
        session_id: Some("sess-q-1".into()),
        zk_required: true,
        economic_envelope: EconomicEnvelope {
            max_fees_bps: 50,
            expiry: expiry.map(|e| e.to_string()),
        },
    }
}

fn settle(source: SettleSource) -> TgpMessage {
    TgpMessage::Settle {
        id: "s-1".into(),
        query_or_offer_id: "offer-q-1".into(),
        success: false,
        source,
        layer8_tx: Some("0xabc".into()),
        session_id: None,
    }
}

fn error() -> TgpMessage {
    TgpMessage::Error {
        id: "e-1".into(),
        code: "wrong_phase".into(),
        message: "he said \"no\"\n\t\\ \u{1F355} \u{0} caf\u{e9}".into(),
        correlation_id: Some("q-1".into()),
    }
}

fn object(members: Vec<(&str, Value)>) -> Value {
    let mut map = serde_json::Map::new();
    for (key, value) in members {
        map.insert(key.to_string(), value);
    }
    Value::Object(map)
}

fn text(s: &str) -> Value {
    Value::String(s.to_string())
}

fn query_object() -> Vec<(&'static str, Value)> {
    vec![
        ("phase", text("QUERY")),
        ("id", text("q-1")),
        ("from", text("buyer://alice")),
        ("to", text("seller://bob")),
        ("asset", text("USDC")),
        ("amount", Value::from(42u64)),
        ("escrow_from_402", Value::Bool(true)),
        ("escrow_contract_from_402", text("0xCoreProver")),
        ("zk_profile", text("REQUIRED")),
    ]
}

fn without(members: Vec<(&'static str, Value)>, key: &str) -> Value {
    object(members.into_iter().filter(|(k, _)| *k != key).collect())
}

fn replaced(members: Vec<(&'static str, Value)>, key: &'static str, value: Value) -> Value {
    let mut members: Vec<(&'static str, Value)> =
        members.into_iter().filter(|(k, _)| *k != key).collect();
    members.push((key, value));
    object(members)
}

fn parse_text(s: &str) -> Result<TgpMessage, TgpError> {
    parse_message(s.as_bytes())
}

#[test]
fn roundtrip_query_message() {
    let msg = TgpMessage::Query {
        id: "q-1".into(),
        from: "buyer://alice".into(),
        to: "seller://bob".into(),
        asset: "USDC".into(),
        amount: 42,
        escrow_from_402: true,
        escrow_contract_from_402: Some("0xCoreProver".into()),
        zk_profile: ZkProfile::Required,
    };

    let bytes = encode_message(&msg).expect("encode should succeed");
    let parsed = parse_message(&bytes).expect("parse should succeed");

    assert_eq!(msg, parsed);
}

#[test]
fn every_kind_of_message_round_trips() {
    let mut messages = vec![query(), offer(None), offer(Some("2030-01-01T00:00:00Z")), error()];
    for source in [
        SettleSource::BuyerNotify,
        SettleSource::ControllerWatcher,
        SettleSource::CoreproverIndexer,
    ] {
        messages.push(settle(source));
    }
    for profile in [ZkProfile::NoProof, ZkProfile::Optional, ZkProfile::Required] {
        let mut q = query();
        if let TgpMessage::Query { zk_profile, escrow_contract_from_402, amount, .. } = &mut q {
            *zk_profile = profile;
            *escrow_contract_from_402 = None;
            *amount = 0;
        }
        messages.push(q);
    }
    for msg in messages {
        let bytes = encode_message(&msg).unwrap();
        assert_eq!(parse_message(&bytes), Ok(msg.clone()));
        // Encoding what was decoded gives the same bytes again.
        assert_eq!(encode_message(&parse_message(&bytes).unwrap()), Ok(bytes));
        assert_eq!(decode_value(&encode_value(&msg)), Ok(msg));
    }
}

#[test]
fn a_query_is_written_with_its_tag_and_all_its_members() {
    assert_eq!(encode_value(&query()), object(query_object()));
    let bytes = encode_message(&query()).unwrap();
    assert_eq!(serde_json::from_slice::<Value>(&bytes).unwrap(), object(query_object()));
    assert_eq!(
        String::from_utf8(bytes).unwrap(),
        "{\"phase\":\"QUERY\",\"id\":\"q-1\",\"from\":\"buyer://alice\",\"to\":\"seller://bob\",\
         \"asset\":\"USDC\",\"amount\":42,\"escrow_from_402\":true,\
         \"escrow_contract_from_402\":\"0xCoreProver\",\"zk_profile\":\"REQUIRED\"}"
    );
}

#[test]
fn an_offer_is_written_with_its_envelope_and_nulls() {
    let expected = object(vec![
        ("phase", text("OFFER")),
        ("id", text("offer-q-1")),
        ("query_id", text("q-1")),
        ("asset", text("USDC")),
        ("amount", Value::from(u64::MAX)),
        ("coreprover_contract", Value::Null),
        ("session_id", text("sess-q-1")),
        ("zk_required", Value::Bool(true)),
        (
            "economic_envelope",
            object(vec![("max_fees_bps", Value::from(50u64)), ("expiry", Value::Null)]),
        ),
    ]);
    assert_eq!(encode_value(&offer(None)), expected);
}

#[test]
fn a_settle_and_an_error_are_written_with_their_members() {
    let expected = object(vec![
        ("phase", text("SETTLE")),
        ("id", text("s-1")),
        ("query_or_offer_id", text("offer-q-1")),
        ("success", Value::Bool(false)),
        ("source", text("coreprover-indexer")),
        ("layer8_tx", text("0xabc")),
        ("session_id", Value::Null),
    ]);
    assert_eq!(encode_value(&settle(SettleSource::CoreproverIndexer)), expected);
    let names = [
        (SettleSource::BuyerNotify, "buyer-notify"),
        (SettleSource::ControllerWatcher, "controller-watcher"),
    ];
    for (source, name) in names {
        assert_eq!(encode_value(&settle(source)).get("source"), Some(&text(name)));
    }
    let expected = object(vec![
        ("phase", text("ERROR")),
        ("id", text("e-1")),
        ("code", text("wrong_phase")),
        ("message", text("he said \"no\"\n\t\\ \u{1F355} \u{0} caf\u{e9}")),
        ("correlation_id", text("q-1")),
    ]);
    assert_eq!(encode_value(&error()), expected);
}

#[test]
fn profiles_are_written_in_upper_case() {
    for (profile, name) in [
        (ZkProfile::NoProof, "NONE"),
        (ZkProfile::Optional, "OPTIONAL"),
        (ZkProfile::Required, "REQUIRED"),
    ] {
        let mut q = query();
        if let TgpMessage::Query { zk_profile, .. } = &mut q {
            *zk_profile = profile;
        }
        assert_eq!(encode_value(&q).get("zk_profile"), Some(&text(name)));
    }
}

#[test]
fn a_payload_in_any_layout_is_read() {
    let payload = " {\n \"zk_profile\" : \"OPTIONAL\", \"amount\":7,\r\n\t\"phase\":\"QUERY\",
        \"to\":\"t\", \"from\":\"f\\u0041\\n\", \"id\":\"\", \"asset\":\"caf\u{e9}\",
        \"escrow_from_402\":false } ";
    assert_eq!(
        parse_text(payload),
        Ok(TgpMessage::Query {
            id: "".into(),
            from: "fA\n".into(),
            to: "t".into(),
            asset: "caf\u{e9}".into(),
            amount: 7,
            escrow_from_402: false,
            escrow_contract_from_402: None,
            zk_profile: ZkProfile::Optional,
        })
    );
}

#[test]
fn malformed_utf8_is_rejected_with_the_length_of_its_sound_beginning() {
    assert_eq!(parse_message(&[0xff, 0xfe, 0xfd]), Err(TgpError::Utf8 { valid_up_to: 0 }));
    let mut bytes = encode_message(&query()).unwrap();
    let sound = bytes.len();
    bytes.push(0x80);
    assert_eq!(parse_message(&bytes), Err(TgpError::Utf8 { valid_up_to: sound }));
    assert_eq!(parse_message(&[0xc3]), Err(TgpError::Utf8 { valid_up_to: 0 }));
    // A character cut short at the end, and one broken in the middle.
    assert_eq!(parse_message(&[b'{', 0xe2, 0x82]), Err(TgpError::Utf8 { valid_up_to: 1 }));
    assert_eq!(
        parse_message(&[b'a', 0xc3, 0xa9, 0xe2, 0x28, 0xa1, b'b']),
        Err(TgpError::Utf8 { valid_up_to: 3 })
    );
}

fn syntax(kind: FaultKind, line: usize, column: usize) -> Result<TgpMessage, TgpError> {
    Err(TgpError::Json(JsonError::Syntax(JsonFault { kind, line, column })))
}

#[test]
fn text_that_is_not_json_is_rejected_with_place_and_cause() {
    assert_eq!(parse_text(""), syntax(FaultKind::Eof, 1, 0));
    assert_eq!(parse_text("   "), syntax(FaultKind::Eof, 1, 3));
    assert_eq!(parse_text("{"), syntax(FaultKind::Eof, 1, 1));
    assert_eq!(parse_text("not json"), syntax(FaultKind::Syntax, 1, 2));
    assert_eq!(parse_text("{\"phase\":\"QUERY\",}"), syntax(FaultKind::Syntax, 1, 18));
    assert_eq!(parse_text("{} {}"), syntax(FaultKind::Syntax, 1, 4));
    assert_eq!(parse_text("{'phase':1}"), syntax(FaultKind::Syntax, 1, 2));
    assert_eq!(parse_text("{\n\"phase\": QUERY\n}"), syntax(FaultKind::Syntax, 2, 10));
    let mut bytes = encode_message(&query()).unwrap();
    bytes.pop();
    let column = bytes.len();
    assert_eq!(parse_message(&bytes), syntax(FaultKind::Eof, 1, column));
    // What is told is what the reader of JSON says of the same text.
    for payload in ["[1,", "{\"a\":tru}", "\"\\x\"", "1e999", "\n\n  ]"] {
        let e = serde_json::from_str::<Value>(payload).unwrap_err();
        let kind = match e.classify() {
            serde_json::error::Category::Io => FaultKind::Io,
            serde_json::error::Category::Syntax => FaultKind::Syntax,
            serde_json::error::Category::Data => FaultKind::Data,
            serde_json::error::Category::Eof => FaultKind::Eof,
        };
        assert_eq!(parse_text(payload), syntax(kind, e.line(), e.column()), "{}", payload);
    }
}

#[test]
fn json_that_is_no_object_is_rejected() {
    for payload in ["null", "true", "42", "\"QUERY\"", "[]", "[\"QUERY\",\"q-1\"]"] {
        assert_eq!(parse_text(payload), Err(TgpError::Json(JsonError::NotAnObject)), "{}", payload);
    }
}

#[test]
fn the_phase_tag_must_be_there_and_name_a_phase() {
    assert_eq!(parse_text("{}"), Err(TgpError::Json(JsonError::MissingField(WireField::Phase))));
    assert_eq!(
        decode_value(&without(query_object(), "phase")),
        Err(JsonError::MissingField(WireField::Phase))
    );
    for tag in [text("PING"), text("query"), text(""), text("QUERY "), Value::Null, Value::from(1u64)] {
        assert_eq!(
            decode_value(&replaced(query_object(), "phase", tag)),
            Err(JsonError::InvalidField(WireField::Phase))
        );
    }
}

#[test]
fn the_tag_decides_the_variant_and_the_members_must_agree() {
    // The members of a query under another tag are no message of that phase.
    let cases = [
        ("OFFER", WireField::QueryId),
        ("SETTLE", WireField::QueryOrOfferId),
        ("ERROR", WireField::Code),
    ];
    for (tag, missing) in cases {
        assert_eq!(
            decode_value(&replaced(query_object(), "phase", text(tag))),
            Err(JsonError::MissingField(missing))
        );
    }
    // The members of an offer under the tag of a query neither.
    let mut members = encode_value(&offer(None));
    members.as_object_mut().unwrap().insert("phase".to_string(), text("QUERY"));
    assert_eq!(decode_value(&members), Err(JsonError::MissingField(WireField::From)));
}

#[test]
fn every_required_member_of_a_query_is_asked_for() {
    let required = [
        ("id", WireField::Id),
        ("from", WireField::From),
        ("to", WireField::To),
        ("asset", WireField::Asset),
        ("amount", WireField::Amount),
        ("escrow_from_402", WireField::EscrowFrom402),
        ("zk_profile", WireField::ZkProfile),
    ];
    for (key, field) in required {
        assert_eq!(
            decode_value(&without(query_object(), key)),
            Err(JsonError::MissingField(field))
        );
        assert_eq!(
            decode_value(&replaced(query_object(), key, Value::Null)),
            Err(JsonError::InvalidField(field))
        );
    }
}

#[test]
fn the_first_member_that_is_wrong_decides_the_error() {
    // `from` comes before `amount`, so its absence is what is reported.
    let value = object(vec![("phase", text("QUERY")), ("id", text("q")), ("amount", text("x"))]);
    assert_eq!(decode_value(&value), Err(JsonError::MissingField(WireField::From)));
    // `amount` comes before `zk_profile`.
    let mut members: Vec<(&'static str, Value)> = query_object()
        .into_iter()
        .filter(|(key, _)| *key != "zk_profile" && *key != "amount")
        .collect();
    members.push(("amount", text("x")));
    assert_eq!(decode_value(&object(members)), Err(JsonError::InvalidField(WireField::Amount)));
}

#[test]
fn an_amount_must_be_a_non_negative_integer_within_64_bits() {
    let bad = ["\"42\"", "-1", "42.0", "4.2e1", "18446744073709551616", "true", "[42]", "{}"];
    for amount in bad {
        let payload = format!(
            "{{\"phase\":\"QUERY\",\"id\":\"a\",\"from\":\"b\",\"to\":\"c\",\"asset\":\"d\",\
             \"amount\":{},\"escrow_from_402\":true,\"zk_profile\":\"NONE\"}}",
            amount
        );
        assert_eq!(
            parse_text(&payload),
            Err(TgpError::Json(JsonError::InvalidField(WireField::Amount))),
            "{}",
            amount
        );
    }
    let payload = "{\"phase\":\"QUERY\",\"id\":\"a\",\"from\":\"b\",\"to\":\"c\",\"asset\":\"d\",\
        \"amount\":18446744073709551615,\"escrow_from_402\":true,\"zk_profile\":\"NONE\"}";
    match parse_text(payload).unwrap() {
        TgpMessage::Query { amount, zk_profile, .. } => {
            assert_eq!(amount, u64::MAX);
            assert_eq!(zk_profile, ZkProfile::NoProof);
        }
        other => panic!("expected QUERY message, got {:?}", other),
    }
}

#[test]
fn flags_profiles_and_sources_must_be_what_they_are() {
    for flag in [text("true"), Value::from(1u64)] {
        assert_eq!(
            decode_value(&replaced(query_object(), "escrow_from_402", flag)),
            Err(JsonError::InvalidField(WireField::EscrowFrom402))
        );
    }
    for profile in [text("required"), text("MAYBE"), text(""), Value::Bool(true)] {
        assert_eq!(
            decode_value(&replaced(query_object(), "zk_profile", profile)),
            Err(JsonError::InvalidField(WireField::ZkProfile))
        );
    }
    let settle_members = |source: Value| {
        object(vec![
            ("phase", text("SETTLE")),
            ("id", text("s")),
            ("query_or_offer_id", text("q")),
            ("success", Value::Bool(true)),
            ("source", source),
        ])
    };
    for source in [text("BuyerNotify"), text("buyer_notify"), text("indexer"), Value::Null] {
        assert_eq!(
            decode_value(&settle_members(source)),
            Err(JsonError::InvalidField(WireField::Source))
        );
    }
    assert_eq!(
        decode_value(&settle_members(text("controller-watcher"))),
        Ok(TgpMessage::Settle {
            id: "s".into(),
            query_or_offer_id: "q".into(),
            success: true,
            source: SettleSource::ControllerWatcher,
            layer8_tx: None,
            session_id: None,
        })
    );
    let mut no_success = settle_members(text("buyer-notify"));
    no_success.as_object_mut().unwrap().remove("success");
    assert_eq!(decode_value(&no_success), Err(JsonError::MissingField(WireField::Success)));
    let mut no_source = settle_members(text("buyer-notify"));
    no_source.as_object_mut().unwrap().remove("source");
    assert_eq!(decode_value(&no_source), Err(JsonError::MissingField(WireField::Source)));
}

#[test]
fn optional_members_may_be_missing_or_null_but_not_of_another_kind() {
    let expected = |contract: Option<&str>| {
        let mut q = query();
        if let TgpMessage::Query { escrow_contract_from_402, .. } = &mut q {
            *escrow_contract_from_402 = contract.map(|c| c.to_string());
        }
        q
    };
    let key = "escrow_contract_from_402";
    assert_eq!(decode_value(&without(query_object(), key)), Ok(expected(None)));
    assert_eq!(decode_value(&replaced(query_object(), key, Value::Null)), Ok(expected(None)));
    assert_eq!(decode_value(&replaced(query_object(), key, text(""))), Ok(expected(Some(""))));
    for bad in [Value::Bool(false), Value::from(0u64), object(vec![])] {
        assert_eq!(
            decode_value(&replaced(query_object(), key, bad)),
            Err(JsonError::InvalidField(WireField::EscrowContractFrom402))
        );
    }
    let error_members = vec![
        ("phase", text("ERROR")),
        ("id", text("e")),
        ("code", text("c")),
        ("message", text("m")),
    ];
    assert_eq!(
        decode_value(&object(error_members.clone())),
        Ok(TgpMessage::Error {
            id: "e".into(),
            code: "c".into(),
            message: "m".into(),
            correlation_id: None,
        })
    );
    assert_eq!(
        decode_value(&replaced(error_members.clone(), "correlation_id", Value::from(3u64))),
        Err(JsonError::InvalidField(WireField::CorrelationId))
    );
    assert_eq!(
        decode_value(&without(error_members, "message")),
        Err(JsonError::MissingField(WireField::Message))
    );
}

#[test]
fn members_that_a_phase_does_not_know_are_passed_over() {
    let mut members = query_object();
    members.push(("query_id", text("other")));
    members.push(("note", object(vec![("deep", Value::Array(vec![Value::Null]))])));
    assert_eq!(decode_value(&object(members)), Ok(query()));
}

fn offer_members(envelope: Option<Value>) -> Value {
    let mut members = vec![
        ("phase", text("OFFER")),
        ("id", text("o")),
        ("query_id", text("q")),
        ("asset", text("USDC")),
        ("amount", Value::from(1u64)),
        ("zk_required", Value::Bool(false)),
    ];
    if let Some(envelope) = envelope {
        members.push(("economic_envelope", envelope));
    }
    object(members)
}

#[test]
fn an_offer_needs_a_sound_envelope() {
    assert_eq!(
        decode_value(&offer_members(None)),
        Err(JsonError::MissingField(WireField::EconomicEnvelope))
    );
    for bad in [Value::Null, text("50"), Value::from(50u64), Value::Array(vec![])] {
        assert_eq!(
            decode_value(&offer_members(Some(bad))),
            Err(JsonError::InvalidField(WireField::EconomicEnvelope))
        );
    }
    assert_eq!(
        decode_value(&offer_members(Some(object(vec![])))),
        Err(JsonError::MissingField(WireField::MaxFeesBps))
    );
    for bad in [Value::from(1u64 << 32), Value::from(-1i64), text("5")] {
        assert_eq!(
            decode_value(&offer_members(Some(object(vec![("max_fees_bps", bad)])))),
            Err(JsonError::InvalidField(WireField::MaxFeesBps))
        );
    }
    let envelope = object(vec![("max_fees_bps", Value::from(5u64)), ("expiry", Value::from(5u64))]);
    assert_eq!(
        decode_value(&offer_members(Some(envelope))),
        Err(JsonError::InvalidField(WireField::Expiry))
    );
    let envelope = object(vec![
        ("max_fees_bps", Value::from(u32::MAX as u64)),
        ("expiry", text("2030-01-01T00:00:00Z")),
    ]);
    assert_eq!(
        decode_value(&offer_members(Some(envelope))),
        Ok(TgpMessage::Offer {
            id: "o".into(),
            query_id: "q".into(),
            asset: "USDC".into(),
            amount: 1,
            coreprover_contract: None,
            session_id: None,
            zk_required: false,
            economic_envelope: EconomicEnvelope {
                max_fees_bps: u32::MAX,
                expiry: Some("2030-01-01T00:00:00Z".into()),
            },
        })
    );
    let mut no_flag = offer_members(Some(object(vec![("max_fees_bps", Value::from(5u64))])));
    no_flag.as_object_mut().unwrap().remove("zk_required");
    assert_eq!(decode_value(&no_flag), Err(JsonError::MissingField(WireField::ZkRequired)));
}

#[test]
fn members_are_keyed_by_their_wire_names() {
    let names = [
        (WireField::Phase, "phase"),
        (WireField::Id, "id"),
        (WireField::From, "from"),
        (WireField::To, "to"),
        (WireField::Asset, "asset"),
        (WireField::Amount, "amount"),
        (WireField::EscrowFrom402, "escrow_from_402"),
        (WireField::EscrowContractFrom402, "escrow_contract_from_402"),
        (WireField::ZkProfile, "zk_profile"),
        (WireField::QueryId, "query_id"),
        (WireField::CoreproverContract, "coreprover_contract"),
        (WireField::SessionId, "session_id"),
        (WireField::ZkRequired, "zk_required"),
        (WireField::EconomicEnvelope, "economic_envelope"),
        (WireField::MaxFeesBps, "max_fees_bps"),
        (WireField::Expiry, "expiry"),
        (WireField::QueryOrOfferId, "query_or_offer_id"),
        (WireField::Success, "success"),
        (WireField::Source, "source"),
        (WireField::Layer8Tx, "layer8_tx"),
        (WireField::Code, "code"),
        (WireField::Message, "message"),
        (WireField::CorrelationId, "correlation_id"),
    ];
    for (field, name) in names {
        assert_eq!(field.name(), name);
    }
}

#[test]
fn every_message_knows_its_phase() {
    assert_eq!(query().phase(), Phase::Query);
    assert_eq!(offer(None).phase(), Phase::Offer);
    assert_eq!(settle(SettleSource::BuyerNotify).phase(), Phase::Settle);
    assert_eq!(error().phase(), Phase::Error);
}

fn encoded(msg: &TgpMessage) -> String {
    String::from_utf8(encode_message(msg).unwrap()).unwrap()
}

#[test]
fn members_are_written_tag_first_and_then_as_declared() {
    let msg = TgpMessage::Error {
        id: "e-1".into(),
        code: "WRONG_PHASE".into(),
        message: "bad".into(),
        correlation_id: None,
    };
    assert_eq!(
        encoded(&msg),
        "{\"phase\":\"ERROR\",\"id\":\"e-1\",\"code\":\"WRONG_PHASE\",\"message\":\"bad\",\
         \"correlation_id\":null}"
    );
    let msg = TgpMessage::Settle {
        id: "s-1".into(),
        query_or_offer_id: "offer-q-1".into(),
        success: false,
        source: SettleSource::ControllerWatcher,
        layer8_tx: Some("0xabc".into()),
        session_id: None,
    };
    assert_eq!(
        encoded(&msg),
        "{\"phase\":\"SETTLE\",\"id\":\"s-1\",\"query_or_offer_id\":\"offer-q-1\",\
         \"success\":false,\"source\":\"controller-watcher\",\"layer8_tx\":\"0xabc\",\
         \"session_id\":null}"
    );
    assert_eq!(
        encoded(&offer(Some("2030-01-01T00:00:00Z"))),
        "{\"phase\":\"OFFER\",\"id\":\"offer-q-1\",\"query_id\":\"q-1\",\"asset\":\"USDC\",\
         \"amount\":18446744073709551615,\"coreprover_contract\":null,\
         \"session_id\":\"sess-q-1\",\"zk_required\":true,\
         \"economic_envelope\":{\"max_fees_bps\":50,\"expiry\":\"2030-01-01T00:00:00Z\"}}"
    );
}

#[test]
fn encoding_succeeds_for_every_kind_of_message() {
    for msg in [query(), offer(None), settle(SettleSource::BuyerNotify), error()] {
        let bytes = encode_message(&msg).unwrap();
        assert!(std::str::from_utf8(&bytes).is_ok());
        let value = serde_json::from_slice::<Value>(&bytes).unwrap();
        let tag = match msg {
            TgpMessage::Query { .. } => "QUERY",
            TgpMessage::Offer { .. } => "OFFER",
            TgpMessage::Settle { .. } => "SETTLE",
            TgpMessage::Error { .. } => "ERROR",
        };
        assert_eq!(value.get("phase"), Some(&text(tag)));
        assert_eq!(value.as_object().unwrap().keys().next().map(|k| k.as_str()), Some("phase"));
    }
}

#[test]
fn a_repeated_member_counts_with_its_last_occurrence() {
    let payload = "{\"phase\":\"QUERY\",\"id\":\"first\",\"from\":\"f\",\"to\":\"t\",\
        \"asset\":\"a\",\"amount\":1,\"amount\":2,\"escrow_from_402\":true,\
        \"zk_profile\":\"NONE\",\"id\":\"second\"}";
    match parse_text(payload).unwrap() {
        TgpMessage::Query { id, amount, .. } => {
            assert_eq!(id, "second");
            assert_eq!(amount, 2);
        }
        other => panic!("expected QUERY message, got {:?}", other),
    }
    // The tag too: the last `phase` decides the variant.
    let payload = "{\"phase\":\"QUERY\",\"id\":\"e\",\"code\":\"c\",\"message\":\"m\",\
        \"phase\":\"ERROR\"}";
    assert_eq!(
        parse_text(payload),
        Ok(TgpMessage::Error {
            id: "e".into(),
            code: "c".into(),
            message: "m".into(),
            correlation_id: None,
        })
    );
    // A repeated member whose last occurrence is wrong is wrong.
    let payload = "{\"phase\":\"ERROR\",\"id\":\"e\",\"id\":7,\"code\":\"c\",\"message\":\"m\"}";
    assert_eq!(
        parse_text(payload),
        Err(TgpError::Json(JsonError::InvalidField(WireField::Id)))
    );
}

#[test]
fn giving_a_member_again_keeps_its_place() {
    // Decoding and encoding again writes the members in the order of the
    // schema, wherever the payload had them.
    let payload = "{\"message\":\"m\",\"code\":\"c\",\"id\":\"e\",\"phase\":\"ERROR\"}";
    let msg = parse_text(payload).unwrap();
    assert_eq!(
        encoded(&msg),
        "{\"phase\":\"ERROR\",\"id\":\"e\",\"code\":\"c\",\"message\":\"m\",\"correlation_id\":null}"
    );
}
