//! The wire format of TGP messages: JSON objects tagged by `phase`.
//!
//! Reading and writing JSON text is `serde_json`'s work. What is decided
//! here is the shape: which members a message of each phase is written
//! with, and which members a JSON value must have to be read as one.

use vstd::prelude::*;
use vstd::string::StringExecFns;
use vstd::utf8::{decode_utf8, valid_utf8};
use crate::json::{
    empty_object, fault_kind, flag_value, insert_member, is_valid_up_to, json_of, json_parse,
    json_text, member, member_index, member_of, null_value, read_value, text_value,
    unsigned_value, utf8_text, with_member, write_value, Json, JsonFault, JsonNumber,
};
use crate::tgp::{
    EconomicEnvelope, EnvelopeView, MessageView, Phase, SettleSource, TgpMessage, ZkProfile,
};

verus! {

/// The members that wire messages are made of.
#[derive(Debug, Clone, Copy, PartialEq, Eq, Structural)]
pub enum WireField {
    Phase,
    Id,
    From,
    To,
    Asset,
    Amount,
    EscrowFrom402,
    EscrowContractFrom402,
    ZkProfile,
    QueryId,
    CoreproverContract,
    SessionId,
    ZkRequired,
    EconomicEnvelope,
    MaxFeesBps,
    Expiry,
    QueryOrOfferId,
    Success,
    Source,
    Layer8Tx,
    Code,
    Message,
    CorrelationId,
}

impl WireField {
    /// The member's key in a JSON object.
    pub open spec fn spec_name(self) -> Seq<char> {
        match self {
            WireField::Phase => "phase"@,
            WireField::Id => "id"@,
            WireField::From => "from"@,
            WireField::To => "to"@,
            WireField::Asset => "asset"@,
            WireField::Amount => "amount"@,
            WireField::EscrowFrom402 => "escrow_from_402"@,
            WireField::EscrowContractFrom402 => "escrow_contract_from_402"@,
            WireField::ZkProfile => "zk_profile"@,
            WireField::QueryId => "query_id"@,
            WireField::CoreproverContract => "coreprover_contract"@,
            WireField::SessionId => "session_id"@,
            WireField::ZkRequired => "zk_required"@,
            WireField::EconomicEnvelope => "economic_envelope"@,
            WireField::MaxFeesBps => "max_fees_bps"@,
            WireField::Expiry => "expiry"@,
            WireField::QueryOrOfferId => "query_or_offer_id"@,
            WireField::Success => "success"@,
            WireField::Source => "source"@,
            WireField::Layer8Tx => "layer8_tx"@,
            WireField::Code => "code"@,
            WireField::Message => "message"@,
            WireField::CorrelationId => "correlation_id"@,
        }
    }

    /// The member's key in a JSON object.
    pub fn name(&self) -> (r: &'static str)
        ensures
            r@ == self.spec_name(),
    {
        match self {
            WireField::Phase => "phase",
            WireField::Id => "id",
            WireField::From => "from",
            WireField::To => "to",
            WireField::Asset => "asset",
            WireField::Amount => "amount",
            WireField::EscrowFrom402 => "escrow_from_402",
            WireField::EscrowContractFrom402 => "escrow_contract_from_402",
            WireField::ZkProfile => "zk_profile",
            WireField::QueryId => "query_id",
            WireField::CoreproverContract => "coreprover_contract",
            WireField::SessionId => "session_id",
            WireField::ZkRequired => "zk_required",
            WireField::EconomicEnvelope => "economic_envelope",
            WireField::MaxFeesBps => "max_fees_bps",
            WireField::Expiry => "expiry",
            WireField::QueryOrOfferId => "query_or_offer_id",
            WireField::Success => "success",
            WireField::Source => "source",
            WireField::Layer8Tx => "layer8_tx",
            WireField::Code => "code",
            WireField::Message => "message",
            WireField::CorrelationId => "correlation_id",
        }
    }
}

/// What is wrong with a payload that is well-formed UTF-8.
#[derive(Debug, Clone, Copy, PartialEq, Eq, Structural)]
pub enum JsonError {
    /// The text is not JSON: where and why reading it gave up.
    Syntax(JsonFault),
    /// The JSON value is not an object.
    NotAnObject,
    /// A member that the declared phase requires is missing.
    MissingField(WireField),
    /// A member holds a value of the wrong kind or out of range; for
    /// `phase`, a tag that names no phase.
    InvalidField(WireField),
    /// The message could not be written. No message brings this about:
    /// every message has a JSON form.
    Encode,
}

/// Why a payload could not be decoded, or a message not encoded.
#[derive(Debug, Clone, Copy, PartialEq, Eq, Structural)]
pub enum TgpError {
    /// The payload is not well-formed UTF-8: only its first `valid_up_to`
    /// bytes are.
    Utf8 { valid_up_to: usize },
    /// The payload is not the JSON form of a message.
    Json(JsonError),
}

/// The wire tag of a phase.
pub open spec fn phase_name(phase: Phase) -> Seq<char> {
    match phase {
        Phase::Query => "QUERY"@,
        Phase::Offer => "OFFER"@,
        Phase::Settle => "SETTLE"@,
        Phase::Error => "ERROR"@,
    }
}

/// The phase that a wire tag names, if it names one.
pub open spec fn phase_named(name: Seq<char>) -> Option<Phase> {
    if name == "QUERY"@ {
        Some(Phase::Query)
    } else if name == "OFFER"@ {
        Some(Phase::Offer)
    } else if name == "SETTLE"@ {
        Some(Phase::Settle)
    } else if name == "ERROR"@ {
        Some(Phase::Error)
    } else {
        None
    }
}

/// The wire name of a proof profile.
pub open spec fn profile_name(profile: ZkProfile) -> Seq<char> {
    match profile {
        ZkProfile::NoProof => "NONE"@,
        ZkProfile::Optional => "OPTIONAL"@,
        ZkProfile::Required => "REQUIRED"@,
    }
}

/// The proof profile that a wire name names, if it names one.
pub open spec fn profile_named(name: Seq<char>) -> Option<ZkProfile> {
    if name == "NONE"@ {
        Some(ZkProfile::NoProof)
    } else if name == "OPTIONAL"@ {
        Some(ZkProfile::Optional)
    } else if name == "REQUIRED"@ {
        Some(ZkProfile::Required)
    } else {
        None
    }
}

/// The wire name of a settlement source.
pub open spec fn source_name(source: SettleSource) -> Seq<char> {
    match source {
        SettleSource::BuyerNotify => "buyer-notify"@,
        SettleSource::ControllerWatcher => "controller-watcher"@,
        SettleSource::CoreproverIndexer => "coreprover-indexer"@,
    }
}

/// The settlement source that a wire name names, if it names one.
pub open spec fn source_named(name: Seq<char>) -> Option<SettleSource> {
    if name == "buyer-notify"@ {
        Some(SettleSource::BuyerNotify)
    } else if name == "controller-watcher"@ {
        Some(SettleSource::ControllerWatcher)
    } else if name == "coreprover-indexer"@ {
        Some(SettleSource::CoreproverIndexer)
    } else {
        None
    }
}

/// An object without members.
pub open spec fn object() -> Json {
    Json::Object(Seq::<(Seq<char>, Json)>::empty())
}

/// An object with one member set.
pub open spec fn with(object: Json, field: WireField, value: Json) -> Json
    recommends
        object is Object,
{
    Json::Object(with_member(object->Object_0, field.spec_name(), value))
}

/// The JSON form of a number.
pub open spec fn unsigned(number: u64) -> Json {
    Json::Number(JsonNumber::Unsigned(number))
}

/// The JSON form of an optional text: the text, or `null`.
pub open spec fn optional_text(text: Option<Seq<char>>) -> Json {
    match text {
        Some(t) => Json::Text(t),
        None => Json::Null,
    }
}

/// The JSON form of an economic envelope.
pub open spec fn envelope_json(envelope: EnvelopeView) -> Json {
    with(
        with(object(), WireField::MaxFeesBps, unsigned(envelope.max_fees_bps as u64)),
        WireField::Expiry,
        optional_text(envelope.expiry),
    )
}

/// The JSON form of a message: an object with the member `phase`, which
/// names the message's phase and comes first, and then one member for each
/// of its fields, in the order in which the message declares them. A field
/// without a value is written as `null`.
pub open spec fn message_json(message: MessageView) -> Json {
    let tagged = with(object(), WireField::Phase, Json::Text(phase_name(message.phase())));
    match message {
        MessageView::Query {
            id,
            from,
            to,
            asset,
            amount,
            escrow_from_402,
            escrow_contract_from_402,
            zk_profile,
        } => with(
            with(
                with(
                    with(
                        with(
                            with(
                                with(
                                    with(tagged, WireField::Id, Json::Text(id)),
                                    WireField::From,
                                    Json::Text(from),
                                ),
                                WireField::To,
                                Json::Text(to),
                            ),
                            WireField::Asset,
                            Json::Text(asset),
                        ),
                        WireField::Amount,
                        unsigned(amount),
                    ),
                    WireField::EscrowFrom402,
                    Json::Bool(escrow_from_402),
                ),
                WireField::EscrowContractFrom402,
                optional_text(escrow_contract_from_402),
            ),
            WireField::ZkProfile,
            Json::Text(profile_name(zk_profile)),
        ),
        MessageView::Offer {
            id,
            query_id,
            asset,
            amount,
            coreprover_contract,
            session_id,
            zk_required,
            economic_envelope,
        } => with(
            with(
                with(
                    with(
                        with(
                            with(
                                with(
                                    with(tagged, WireField::Id, Json::Text(id)),
                                    WireField::QueryId,
                                    Json::Text(query_id),
                                ),
                                WireField::Asset,
                                Json::Text(asset),
                            ),
                            WireField::Amount,
                            unsigned(amount),
                        ),
                        WireField::CoreproverContract,
                        optional_text(coreprover_contract),
                    ),
                    WireField::SessionId,
                    optional_text(session_id),
                ),
                WireField::ZkRequired,
                Json::Bool(zk_required),
            ),
            WireField::EconomicEnvelope,
            envelope_json(economic_envelope),
        ),
        MessageView::Settle { id, query_or_offer_id, success, source, layer8_tx, session_id } => with(
            with(
                with(
                    with(
                        with(
                            with(tagged, WireField::Id, Json::Text(id)),
                            WireField::QueryOrOfferId,
                            Json::Text(query_or_offer_id),
                        ),
                        WireField::Success,
                        Json::Bool(success),
                    ),
                    WireField::Source,
                    Json::Text(source_name(source)),
                ),
                WireField::Layer8Tx,
                optional_text(layer8_tx),
            ),
            WireField::SessionId,
            optional_text(session_id),
        ),
        MessageView::Error { id, code, message, correlation_id } => with(
            with(
                with(
                    with(tagged, WireField::Id, Json::Text(id)),
                    WireField::Code,
                    Json::Text(code),
                ),
                WireField::Message,
                Json::Text(message),
            ),
            WireField::CorrelationId,
            optional_text(correlation_id),
        ),
    }
}

/// The member of an object under a field's key, if the value is an object
/// and has one.
pub open spec fn field(value: Json, field: WireField) -> Option<Json> {
    match value {
        Json::Object(members) => member_of(members, field.spec_name()),
        _ => None,
    }
}

/// A member that must be there and be a string.
pub open spec fn text_field(value: Json, name: WireField) -> Result<Seq<char>, JsonError> {
    match field(value, name) {
        None => Err(JsonError::MissingField(name)),
        Some(Json::Text(text)) => Ok(text),
        Some(_) => Err(JsonError::InvalidField(name)),
    }
}

/// A member that may be missing or `null`, and is a string otherwise.
pub open spec fn optional_text_field(value: Json, name: WireField) -> Result<
    Option<Seq<char>>,
    JsonError,
> {
    match field(value, name) {
        None | Some(Json::Null) => Ok(None),
        Some(Json::Text(text)) => Ok(Some(text)),
        Some(_) => Err(JsonError::InvalidField(name)),
    }
}

/// A member that must be there and be a non-negative integer within 64
/// bits.
pub open spec fn unsigned_field(value: Json, name: WireField) -> Result<u64, JsonError> {
    match field(value, name) {
        None => Err(JsonError::MissingField(name)),
        Some(Json::Number(JsonNumber::Unsigned(number))) => Ok(number),
        Some(_) => Err(JsonError::InvalidField(name)),
    }
}

/// A member that must be there and be a boolean.
pub open spec fn flag_field(value: Json, name: WireField) -> Result<bool, JsonError> {
    match field(value, name) {
        None => Err(JsonError::MissingField(name)),
        Some(Json::Bool(flag)) => Ok(flag),
        Some(_) => Err(JsonError::InvalidField(name)),
    }
}

/// The member `zk_profile`: a string that names a proof profile.
pub open spec fn profile_field(value: Json) -> Result<ZkProfile, JsonError> {
    match text_field(value, WireField::ZkProfile) {
        Err(e) => Err(e),
        Ok(name) => match profile_named(name) {
            Some(profile) => Ok(profile),
            None => Err(JsonError::InvalidField(WireField::ZkProfile)),
        },
    }
}

/// The member `source`: a string that names a settlement source.
pub open spec fn source_field(value: Json) -> Result<SettleSource, JsonError> {
    match text_field(value, WireField::Source) {
        Err(e) => Err(e),
        Ok(name) => match source_named(name) {
            Some(source) => Ok(source),
            None => Err(JsonError::InvalidField(WireField::Source)),
        },
    }
}

/// The member `economic_envelope`: an object whose `max_fees_bps` is an
/// integer within 32 bits and whose `expiry` is a string, `null` or
/// missing.
pub open spec fn envelope_field(value: Json) -> Result<EnvelopeView, JsonError> {
    match field(value, WireField::EconomicEnvelope) {
        None => Err(JsonError::MissingField(WireField::EconomicEnvelope)),
        Some(envelope) => {
            let fees = unsigned_field(envelope, WireField::MaxFeesBps);
            let expiry = optional_text_field(envelope, WireField::Expiry);
            if !(envelope is Object) {
                Err(JsonError::InvalidField(WireField::EconomicEnvelope))
            } else if fees is Err {
                Err(fees->Err_0)
            } else if fees->Ok_0 > u32::MAX {
                Err(JsonError::InvalidField(WireField::MaxFeesBps))
            } else if expiry is Err {
                Err(expiry->Err_0)
            } else {
                Ok(EnvelopeView { max_fees_bps: fees->Ok_0 as u32, expiry: expiry->Ok_0 })
            }
        },
    }
}

/// The query that an object tagged `QUERY` holds. The members are looked
/// at in the order in which a query is written, and the first that is
/// missing or wrong decides the error.
pub open spec fn decode_query(value: Json) -> Result<MessageView, JsonError> {
    let id = text_field(value, WireField::Id);
    let from = text_field(value, WireField::From);
    let to = text_field(value, WireField::To);
    let asset = text_field(value, WireField::Asset);
    let amount = unsigned_field(value, WireField::Amount);
    let escrow = flag_field(value, WireField::EscrowFrom402);
    let contract = optional_text_field(value, WireField::EscrowContractFrom402);
    let profile = profile_field(value);
    if id is Err {
        Err(id->Err_0)
    } else if from is Err {
        Err(from->Err_0)
    } else if to is Err {
        Err(to->Err_0)
    } else if asset is Err {
        Err(asset->Err_0)
    } else if amount is Err {
        Err(amount->Err_0)
    } else if escrow is Err {
        Err(escrow->Err_0)
    } else if contract is Err {
        Err(contract->Err_0)
    } else if profile is Err {
        Err(profile->Err_0)
    } else {
        Ok(
            MessageView::Query {
                id: id->Ok_0,
                from: from->Ok_0,
                to: to->Ok_0,
                asset: asset->Ok_0,
                amount: amount->Ok_0,
                escrow_from_402: escrow->Ok_0,
                escrow_contract_from_402: contract->Ok_0,
                zk_profile: profile->Ok_0,
            },
        )
    }
}

/// The offer that an object tagged `OFFER` holds.
pub open spec fn decode_offer(value: Json) -> Result<MessageView, JsonError> {
    let id = text_field(value, WireField::Id);
    let query_id = text_field(value, WireField::QueryId);
    let asset = text_field(value, WireField::Asset);
    let amount = unsigned_field(value, WireField::Amount);
    let contract = optional_text_field(value, WireField::CoreproverContract);
    let session = optional_text_field(value, WireField::SessionId);
    let required = flag_field(value, WireField::ZkRequired);
    let envelope = envelope_field(value);
    if id is Err {
        Err(id->Err_0)
    } else if query_id is Err {
        Err(query_id->Err_0)
    } else if asset is Err {
        Err(asset->Err_0)
    } else if amount is Err {
        Err(amount->Err_0)
    } else if contract is Err {
        Err(contract->Err_0)
    } else if session is Err {
        Err(session->Err_0)
    } else if required is Err {
        Err(required->Err_0)
    } else if envelope is Err {
        Err(envelope->Err_0)
    } else {
        Ok(
            MessageView::Offer {
                id: id->Ok_0,
                query_id: query_id->Ok_0,
                asset: asset->Ok_0,
                amount: amount->Ok_0,
                coreprover_contract: contract->Ok_0,
                session_id: session->Ok_0,
                zk_required: required->Ok_0,
                economic_envelope: envelope->Ok_0,
            },
        )
    }
}

/// The settlement report that an object tagged `SETTLE` holds.
pub open spec fn decode_settle(value: Json) -> Result<MessageView, JsonError> {
    let id = text_field(value, WireField::Id);
    let correlation = text_field(value, WireField::QueryOrOfferId);
    let success = flag_field(value, WireField::Success);
    let source = source_field(value);
    let layer8_tx = optional_text_field(value, WireField::Layer8Tx);
    let session = optional_text_field(value, WireField::SessionId);
    if id is Err {
        Err(id->Err_0)
    } else if correlation is Err {
        Err(correlation->Err_0)
    } else if success is Err {
        Err(success->Err_0)
    } else if source is Err {
        Err(source->Err_0)
    } else if layer8_tx is Err {
        Err(layer8_tx->Err_0)
    } else if session is Err {
        Err(session->Err_0)
    } else {
        Ok(
            MessageView::Settle {
                id: id->Ok_0,
                query_or_offer_id: correlation->Ok_0,
                success: success->Ok_0,
                source: source->Ok_0,
                layer8_tx: layer8_tx->Ok_0,
                session_id: session->Ok_0,
            },
        )
    }
}

/// The failure notice that an object tagged `ERROR` holds.
pub open spec fn decode_error(value: Json) -> Result<MessageView, JsonError> {
    let id = text_field(value, WireField::Id);
    let code = text_field(value, WireField::Code);
    let message = text_field(value, WireField::Message);
    let correlation = optional_text_field(value, WireField::CorrelationId);
    if id is Err {
        Err(id->Err_0)
    } else if code is Err {
        Err(code->Err_0)
    } else if message is Err {
        Err(message->Err_0)
    } else if correlation is Err {
        Err(correlation->Err_0)
    } else {
        Ok(
            MessageView::Error {
                id: id->Ok_0,
                code: code->Ok_0,
                message: message->Ok_0,
                correlation_id: correlation->Ok_0,
            },
        )
    }
}

/// The message that a JSON value holds.
///
/// The value must be an object whose member `phase` names a phase, and it
/// must have what a message of that phase requires: the phase is taken
/// from the tag alone, never guessed from the members that happen to be
/// there. Members that the phase does not know are passed over.
pub open spec fn decode_json(value: Json) -> Result<MessageView, JsonError> {
    if !(value is Object) {
        Err(JsonError::NotAnObject)
    } else {
        match text_field(value, WireField::Phase) {
            Err(e) => Err(e),
            Ok(tag) => match phase_named(tag) {
                None => Err(JsonError::InvalidField(WireField::Phase)),
                Some(Phase::Query) => decode_query(value),
                Some(Phase::Offer) => decode_offer(value),
                Some(Phase::Settle) => decode_settle(value),
                Some(Phase::Error) => decode_error(value),
            },
        }
    }
}

/// The length of the longest beginning of `bytes` that is well-formed
/// UTF-8.
pub open spec fn valid_up_to(bytes: Seq<u8>) -> int {
    choose|n: int| is_valid_up_to(bytes, n)
}

/// What a payload decodes to: it must be well-formed UTF-8, its text must
/// be JSON, and the JSON value must hold a message.
///
/// The message is read from the value that the text denotes, and in a
/// value every key occurs once: where the text repeats a member, the value
/// holds what the last occurrence says, and that is what is read.
pub open spec fn parsed(raw: Seq<u8>) -> Result<MessageView, TgpError> {
    if !valid_utf8(raw) {
        Err(TgpError::Utf8 { valid_up_to: valid_up_to(raw) as usize })
    } else {
        match json_parse(decode_utf8(raw)) {
            Err(fault) => Err(TgpError::Json(JsonError::Syntax(fault))),
            Ok(value) => match decode_json(value) {
                Ok(message) => Ok(message),
                Err(e) => Err(TgpError::Json(e)),
            },
        }
    }
}

/// No two members share a key.
proof fn lemma_field_names_distinct()
    ensures
        forall|a: WireField, b: WireField| a != b ==> a.spec_name() != b.spec_name(),
{
    reveal_strlit("phase");
    reveal_strlit("id");
    reveal_strlit("from");
    reveal_strlit("to");
    reveal_strlit("asset");
    reveal_strlit("amount");
    reveal_strlit("escrow_from_402");
    reveal_strlit("escrow_contract_from_402");
    reveal_strlit("zk_profile");
    reveal_strlit("query_id");
    reveal_strlit("coreprover_contract");
    reveal_strlit("session_id");
    reveal_strlit("zk_required");
    reveal_strlit("economic_envelope");
    reveal_strlit("max_fees_bps");
    reveal_strlit("expiry");
    reveal_strlit("query_or_offer_id");
    reveal_strlit("success");
    reveal_strlit("source");
    reveal_strlit("layer8_tx");
    reveal_strlit("code");
    reveal_strlit("message");
    reveal_strlit("correlation_id");
    assert forall|a: WireField, b: WireField| a != b implies a.spec_name() != b.spec_name() by {
        let x = a.spec_name();
        let y = b.spec_name();
        if x.len() == y.len() {
            assert(x[0] != y[0] || x[1] != y[1] || x[2] != y[2]) by {
                assert(x.len() >= 2);
            }
        }
    }
}

/// Where `member_index` finds a member, it is one under the key; where it
/// finds none, no member is under the key.
proof fn lemma_member_index(members: Seq<(Seq<char>, Json)>, key: Seq<char>)
    ensures
        match member_index(members, key) {
            Some(i) => 0 <= i < members.len() && members[i].0 == key,
            None => forall|j: int| 0 <= j < members.len() ==> (#[trigger] members[j]).0 != key,
        },
    decreases members.len(),
{
    if members.len() > 0 {
        lemma_member_index(members.drop_last(), key);
        assert forall|j: int| 0 <= j < members.len() - 1 implies members[j]
            == members.drop_last()[j] by {}
        if member_index(members, key) is None {
            assert forall|j: int| 0 <= j < members.len() implies (#[trigger] members[j]).0
                != key by {
                if j < members.len() - 1 {
                    assert(members.drop_last()[j].0 != key);
                }
            }
        }
    }
}

/// Members with the same keys in the same places are found alike.
proof fn lemma_same_keys(
    before: Seq<(Seq<char>, Json)>,
    after: Seq<(Seq<char>, Json)>,
    key: Seq<char>,
)
    requires
        before.len() == after.len(),
        forall|j: int| 0 <= j < before.len() ==> (#[trigger] before[j]).0 == after[j].0,
    ensures
        member_index(before, key) == member_index(after, key),
    decreases before.len(),
{
    if before.len() > 0 {
        assert forall|j: int| 0 <= j < before.len() - 1 implies (
        #[trigger] before.drop_last()[j]).0 == after.drop_last()[j].0 by {
            assert(before[j].0 == after[j].0);
        }
        lemma_same_keys(before.drop_last(), after.drop_last(), key);
        assert(before.last().0 == after.last().0);
    }
}

/// Giving a member a value changes what is found under its key and
/// nothing else.
proof fn lemma_member_given(
    members: Seq<(Seq<char>, Json)>,
    key: Seq<char>,
    value: Json,
    other: Seq<char>,
)
    ensures
        member_of(with_member(members, key, value), other) == (if other == key {
            Some(value)
        } else {
            member_of(members, other)
        }),
{
    let after = with_member(members, key, value);
    lemma_member_index(members, key);
    lemma_member_index(members, other);
    lemma_member_index(after, other);
    match member_index(members, key) {
        Some(i) => {
            lemma_same_keys(members, after, other);
        },
        None => {
            assert(after.drop_last() =~= members);
        },
    }
}

/// Setting a member of an object changes what is found under that
/// member's key and nothing else, whatever the object, the members and the
/// value.
proof fn lemma_fields_given()
    ensures
        forall|object: Json, name: WireField, value: Json, other: WireField|
            object is Object ==> #[trigger] field(with(object, name, value), other) == (if other
                == name {
                Some(value)
            } else {
                field(object, other)
            }),
        forall|object: Json, name: WireField, value: Json| #[trigger]
            with(object, name, value) is Object,
{
    lemma_field_names_distinct();
    assert forall|object: Json, name: WireField, value: Json, other: WireField|
        object is Object implies #[trigger] field(with(object, name, value), other) == (if other
        == name {
        Some(value)
    } else {
        field(object, other)
    }) by {
        lemma_member_given(object->Object_0, name.spec_name(), value, other.spec_name());
    }
}

/// Every phase, proof profile and settlement source is named by its own
/// wire name and by no other.
proof fn lemma_names_name_their_values()
    ensures
        forall|phase: Phase| #[trigger] phase_named(phase_name(phase)) == Some(phase),
        forall|profile: ZkProfile| #[trigger] profile_named(profile_name(profile)) == Some(profile),
        forall|source: SettleSource| #[trigger] source_named(source_name(source)) == Some(source),
{
    reveal_strlit("QUERY");
    reveal_strlit("OFFER");
    reveal_strlit("SETTLE");
    reveal_strlit("ERROR");
    reveal_strlit("NONE");
    reveal_strlit("OPTIONAL");
    reveal_strlit("REQUIRED");
    reveal_strlit("buyer-notify");
    reveal_strlit("controller-watcher");
    reveal_strlit("coreprover-indexer");
    assert("QUERY"@[0] != "OFFER"@[0]);
    assert("QUERY"@[0] != "ERROR"@[0]);
    assert("OFFER"@[0] != "ERROR"@[0]);
    assert("QUERY"@.len() != "SETTLE"@.len());
    assert("NONE"@.len() != "OPTIONAL"@.len());
    assert("OPTIONAL"@[0] != "REQUIRED"@[0]);
    assert("buyer-notify"@.len() != "controller-watcher"@.len());
    assert("controller-watcher"@[2] != "coreprover-indexer"@[2]);
    assert forall|phase: Phase| #[trigger] phase_named(phase_name(phase)) == Some(phase) by {}
    assert forall|profile: ZkProfile| #[trigger]
        profile_named(profile_name(profile)) == Some(profile) by {}
    assert forall|source: SettleSource| #[trigger]
        source_named(source_name(source)) == Some(source) by {}
}

/// The envelope of an offer is read back from the offer's JSON form.
proof fn lemma_envelope_read_back(object: Json, envelope: EnvelopeView)
    requires
        object is Object,
    ensures
        envelope_field(with(object, WireField::EconomicEnvelope, envelope_json(envelope)))
            == Ok::<EnvelopeView, JsonError>(envelope),
{
    lemma_fields_given();
    let written = envelope_json(envelope);
    assert(field(written, WireField::MaxFeesBps) == Some(unsigned(envelope.max_fees_bps as u64)));
    assert(field(written, WireField::Expiry) == Some(optional_text(envelope.expiry)));
}

/// The tag of a message's JSON form names the message's phase.
proof fn lemma_tag_read_back(message: MessageView)
    ensures
        message_json(message) is Object,
        text_field(message_json(message), WireField::Phase) == Ok::<Seq<char>, JsonError>(
            phase_name(message.phase()),
        ),
        phase_named(phase_name(message.phase())) == Some(message.phase()),
{
    lemma_names_name_their_values();
    lemma_fields_given();
    let tagged = with(object(), WireField::Phase, Json::Text(phase_name(message.phase())));
    assert(field(tagged, WireField::Phase) == Some(Json::Text(phase_name(message.phase()))));
}

/// A query is read back from its JSON form.
proof fn lemma_query_read_back(message: MessageView)
    requires
        message is Query,
    ensures
        decode_query(message_json(message)) == Ok::<MessageView, JsonError>(message),
{
    lemma_names_name_their_values();
    lemma_fields_given();
    assert(profile_named(profile_name(message->zk_profile)) == Some(message->zk_profile));
}

/// An offer is read back from its JSON form.
proof fn lemma_offer_read_back(message: MessageView)
    requires
        message is Offer,
    ensures
        decode_offer(message_json(message)) == Ok::<MessageView, JsonError>(message),
{
    lemma_fields_given();
    let tagged = with(object(), WireField::Phase, Json::Text(phase_name(message.phase())));
    let before = with(
        with(
            with(
                with(
                    with(
                        with(
                            with(tagged, WireField::Id, Json::Text(message->Offer_id)),
                            WireField::QueryId,
                            Json::Text(message->query_id),
                        ),
                        WireField::Asset,
                        Json::Text(message->Offer_asset),
                    ),
                    WireField::Amount,
                    unsigned(message->Offer_amount),
                ),
                WireField::CoreproverContract,
                optional_text(message->coreprover_contract),
            ),
            WireField::SessionId,
            optional_text(message->Offer_session_id),
        ),
        WireField::ZkRequired,
        Json::Bool(message->zk_required),
    );
    lemma_envelope_read_back(before, message->economic_envelope);
}

/// A settlement report is read back from its JSON form.
proof fn lemma_settle_read_back(message: MessageView)
    requires
        message is Settle,
    ensures
        decode_settle(message_json(message)) == Ok::<MessageView, JsonError>(message),
{
    lemma_names_name_their_values();
    lemma_fields_given();
    assert(source_named(source_name(message->source)) == Some(message->source));
}

/// A failure notice is read back from its JSON form.
proof fn lemma_error_read_back(message: MessageView)
    requires
        message is Error,
    ensures
        decode_error(message_json(message)) == Ok::<MessageView, JsonError>(message),
{
    lemma_fields_given();
}

/// Decoding inverts encoding, value for value: the JSON form of any
/// message holds that very message.
pub proof fn law_decode_inverts_encode(message: MessageView)
    ensures
        decode_json(message_json(message)) == Ok::<MessageView, JsonError>(message),
{
    lemma_tag_read_back(message);
    match message {
        MessageView::Query { .. } => lemma_query_read_back(message),
        MessageView::Offer { .. } => lemma_offer_read_back(message),
        MessageView::Settle { .. } => lemma_settle_read_back(message),
        MessageView::Error { .. } => lemma_error_read_back(message),
    }
}

/// A payload decodes to the message it was encoded from, as far as this
/// library decides it: if `serde_json` reads back the value that it wrote
/// as these bytes, and wrote it as well-formed UTF-8, then the payload that
/// encodes a message decodes to that message.
pub proof fn law_round_trip(message: MessageView)
    requires
        valid_utf8(json_text(message_json(message))),
        json_parse(decode_utf8(json_text(message_json(message)))) == Ok::<Json, JsonFault>(
            message_json(message),
        ),
    ensures
        parsed(json_text(message_json(message))) == Ok::<MessageView, TgpError>(message),
{
    law_decode_inverts_encode(message);
}

/// Reads a member that must be there and be a string.
fn read_text(value: &serde_json::Value, name: WireField) -> (r: Result<String, JsonError>)
    ensures
        match text_field(json_of(*value), name) {
            Ok(text) => r matches Ok(found) && found@ == text,
            Err(e) => r == Err::<String, JsonError>(e),
        },
{
    match member(value, name.name()) {
        None => Err(JsonError::MissingField(name)),
        Some(found) => match found.as_str() {
            Some(text) => Ok(text.to_owned()),
            None => Err(JsonError::InvalidField(name)),
        },
    }
}

/// Reads a member that may be missing or `null`, and is a string
/// otherwise.
fn read_optional_text(value: &serde_json::Value, name: WireField) -> (r: Result<
    Option<String>,
    JsonError,
>)
    ensures
        match optional_text_field(json_of(*value), name) {
            Ok(text) => r matches Ok(found) && crate::tgp::text_view(found) == text,
            Err(e) => r == Err::<Option<String>, JsonError>(e),
        },
{
    match member(value, name.name()) {
        None => Ok(None),
        Some(found) => if found.is_null() {
            Ok(None)
        } else {
            match found.as_str() {
                Some(text) => Ok(Some(text.to_owned())),
                None => Err(JsonError::InvalidField(name)),
            }
        },
    }
}

/// Reads a member that must be there and be a non-negative integer.
fn read_unsigned(value: &serde_json::Value, name: WireField) -> (r: Result<u64, JsonError>)
    ensures
        r == unsigned_field(json_of(*value), name),
{
    match member(value, name.name()) {
        None => Err(JsonError::MissingField(name)),
        Some(found) => match found.as_u64() {
            Some(number) => Ok(number),
            None => Err(JsonError::InvalidField(name)),
        },
    }
}

/// Reads a member that must be there and be a boolean.
fn read_flag(value: &serde_json::Value, name: WireField) -> (r: Result<bool, JsonError>)
    ensures
        r == flag_field(json_of(*value), name),
{
    match member(value, name.name()) {
        None => Err(JsonError::MissingField(name)),
        Some(found) => match found.as_bool() {
            Some(flag) => Ok(flag),
            None => Err(JsonError::InvalidField(name)),
        },
    }
}

/// Whether a text is the given literal.
fn is_text(text: &String, literal: &str) -> (r: bool)
    ensures
        r == (text@ == literal@),
{
    *text == String::from_str(literal)
}

/// The phase that a wire tag names, if it names one.
fn phase_of(name: &String) -> (r: Option<Phase>)
    ensures
        r == phase_named(name@),
{
    if is_text(name, "QUERY") {
        Some(Phase::Query)
    } else if is_text(name, "OFFER") {
        Some(Phase::Offer)
    } else if is_text(name, "SETTLE") {
        Some(Phase::Settle)
    } else if is_text(name, "ERROR") {
        Some(Phase::Error)
    } else {
        None
    }
}

/// Reads the member `zk_profile`.
fn read_profile(value: &serde_json::Value) -> (r: Result<ZkProfile, JsonError>)
    ensures
        r == profile_field(json_of(*value)),
{
    let name = match read_text(value, WireField::ZkProfile) {
        Ok(name) => name,
        Err(e) => {
            return Err(e);
        },
    };
    if is_text(&name, "NONE") {
        Ok(ZkProfile::NoProof)
    } else if is_text(&name, "OPTIONAL") {
        Ok(ZkProfile::Optional)
    } else if is_text(&name, "REQUIRED") {
        Ok(ZkProfile::Required)
    } else {
        Err(JsonError::InvalidField(WireField::ZkProfile))
    }
}

/// Reads the member `source`.
fn read_source(value: &serde_json::Value) -> (r: Result<SettleSource, JsonError>)
    ensures
        r == source_field(json_of(*value)),
{
    let name = match read_text(value, WireField::Source) {
        Ok(name) => name,
        Err(e) => {
            return Err(e);
        },
    };
    if is_text(&name, "buyer-notify") {
        Ok(SettleSource::BuyerNotify)
    } else if is_text(&name, "controller-watcher") {
        Ok(SettleSource::ControllerWatcher)
    } else if is_text(&name, "coreprover-indexer") {
        Ok(SettleSource::CoreproverIndexer)
    } else {
        Err(JsonError::InvalidField(WireField::Source))
    }
}

/// Reads the member `economic_envelope`.
fn read_envelope(value: &serde_json::Value) -> (r: Result<EconomicEnvelope, JsonError>)
    ensures
        match envelope_field(json_of(*value)) {
            Ok(envelope) => r matches Ok(found) && found@ == envelope,
            Err(e) => r == Err::<EconomicEnvelope, JsonError>(e),
        },
{
    let envelope = match member(value, WireField::EconomicEnvelope.name()) {
        Some(envelope) => envelope,
        None => {
            return Err(JsonError::MissingField(WireField::EconomicEnvelope));
        },
    };
    if !envelope.is_object() {
        return Err(JsonError::InvalidField(WireField::EconomicEnvelope));
    }
    let fees = match read_unsigned(envelope, WireField::MaxFeesBps) {
        Ok(fees) => fees,
        Err(e) => {
            return Err(e);
        },
    };
    if fees > u32::MAX as u64 {
        return Err(JsonError::InvalidField(WireField::MaxFeesBps));
    }
    let expiry = match read_optional_text(envelope, WireField::Expiry) {
        Ok(expiry) => expiry,
        Err(e) => {
            return Err(e);
        },
    };
    Ok(EconomicEnvelope { max_fees_bps: fees as u32, expiry })
}

/// Reads the members of a query.
fn read_query(value: &serde_json::Value) -> (r: Result<TgpMessage, JsonError>)
    ensures
        match decode_query(json_of(*value)) {
            Ok(message) => r matches Ok(found) && found@ == message,
            Err(e) => r == Err::<TgpMessage, JsonError>(e),
        },
{
    let id = match read_text(value, WireField::Id) {
        Ok(x) => x,
        Err(e) => {
            return Err(e);
        },
    };
    let from = match read_text(value, WireField::From) {
        Ok(x) => x,
        Err(e) => {
            return Err(e);
        },
    };
    let to = match read_text(value, WireField::To) {
        Ok(x) => x,
        Err(e) => {
            return Err(e);
        },
    };
    let asset = match read_text(value, WireField::Asset) {
        Ok(x) => x,
        Err(e) => {
            return Err(e);
        },
    };
    let amount = match read_unsigned(value, WireField::Amount) {
        Ok(x) => x,
        Err(e) => {
            return Err(e);
        },
    };
    let escrow_from_402 = match read_flag(value, WireField::EscrowFrom402) {
        Ok(x) => x,
        Err(e) => {
            return Err(e);
        },
    };
    let escrow_contract_from_402 = match read_optional_text(
        value,
        WireField::EscrowContractFrom402,
    ) {
        Ok(x) => x,
        Err(e) => {
            return Err(e);
        },
    };
    let zk_profile = match read_profile(value) {
        Ok(x) => x,
        Err(e) => {
            return Err(e);
        },
    };
    Ok(
        TgpMessage::Query {
            id,
            from,
            to,
            asset,
            amount,
            escrow_from_402,
            escrow_contract_from_402,
            zk_profile,
        },
    )
}

/// Reads the members of an offer.
fn read_offer(value: &serde_json::Value) -> (r: Result<TgpMessage, JsonError>)
    ensures
        match decode_offer(json_of(*value)) {
            Ok(message) => r matches Ok(found) && found@ == message,
            Err(e) => r == Err::<TgpMessage, JsonError>(e),
        },
{
    let id = match read_text(value, WireField::Id) {
        Ok(x) => x,
        Err(e) => {
            return Err(e);
        },
    };
    let query_id = match read_text(value, WireField::QueryId) {
        Ok(x) => x,
        Err(e) => {
            return Err(e);
        },
    };
    let asset = match read_text(value, WireField::Asset) {
        Ok(x) => x,
        Err(e) => {
            return Err(e);
        },
    };
    let amount = match read_unsigned(value, WireField::Amount) {
        Ok(x) => x,
        Err(e) => {
            return Err(e);
        },
    };
    let coreprover_contract = match read_optional_text(value, WireField::CoreproverContract) {
        Ok(x) => x,
        Err(e) => {
            return Err(e);
        },
    };
    let session_id = match read_optional_text(value, WireField::SessionId) {
        Ok(x) => x,
        Err(e) => {
            return Err(e);
        },
    };
    let zk_required = match read_flag(value, WireField::ZkRequired) {
        Ok(x) => x,
        Err(e) => {
            return Err(e);
        },
    };
    let economic_envelope = match read_envelope(value) {
        Ok(x) => x,
        Err(e) => {
            return Err(e);
        },
    };
    Ok(
        TgpMessage::Offer {
            id,
            query_id,
            asset,
            amount,
            coreprover_contract,
            session_id,
            zk_required,
            economic_envelope,
        },
    )
}

/// Reads the members of a settlement report.
fn read_settle(value: &serde_json::Value) -> (r: Result<TgpMessage, JsonError>)
    ensures
        match decode_settle(json_of(*value)) {
            Ok(message) => r matches Ok(found) && found@ == message,
            Err(e) => r == Err::<TgpMessage, JsonError>(e),
        },
{
    let id = match read_text(value, WireField::Id) {
        Ok(x) => x,
        Err(e) => {
            return Err(e);
        },
    };
    let query_or_offer_id = match read_text(value, WireField::QueryOrOfferId) {
        Ok(x) => x,
        Err(e) => {
            return Err(e);
        },
    };
    let success = match read_flag(value, WireField::Success) {
        Ok(x) => x,
        Err(e) => {
            return Err(e);
        },
    };
    let source = match read_source(value) {
        Ok(x) => x,
        Err(e) => {
            return Err(e);
        },
    };
    let layer8_tx = match read_optional_text(value, WireField::Layer8Tx) {
        Ok(x) => x,
        Err(e) => {
            return Err(e);
        },
    };
    let session_id = match read_optional_text(value, WireField::SessionId) {
        Ok(x) => x,
        Err(e) => {
            return Err(e);
        },
    };
    Ok(TgpMessage::Settle { id, query_or_offer_id, success, source, layer8_tx, session_id })
}

/// Reads the members of a failure notice.
fn read_error(value: &serde_json::Value) -> (r: Result<TgpMessage, JsonError>)
    ensures
        match decode_error(json_of(*value)) {
            Ok(message) => r matches Ok(found) && found@ == message,
            Err(e) => r == Err::<TgpMessage, JsonError>(e),
        },
{
    let id = match read_text(value, WireField::Id) {
        Ok(x) => x,
        Err(e) => {
            return Err(e);
        },
    };
    let code = match read_text(value, WireField::Code) {
        Ok(x) => x,
        Err(e) => {
            return Err(e);
        },
    };
    let message = match read_text(value, WireField::Message) {
        Ok(x) => x,
        Err(e) => {
            return Err(e);
        },
    };
    let correlation_id = match read_optional_text(value, WireField::CorrelationId) {
        Ok(x) => x,
        Err(e) => {
            return Err(e);
        },
    };
    Ok(TgpMessage::Error { id, code, message, correlation_id })
}

/// Reads a message from a JSON value, as [`decode_json`] describes: the
/// value's `phase` decides the variant, and the value must have what that
/// variant requires.
pub fn decode_value(value: &serde_json::Value) -> (r: Result<TgpMessage, JsonError>)
    ensures
        match decode_json(json_of(*value)) {
            Ok(message) => r matches Ok(found) && found@ == message,
            Err(e) => r == Err::<TgpMessage, JsonError>(e),
        },
{
    if !value.is_object() {
        return Err(JsonError::NotAnObject);
    }
    let tag = match read_text(value, WireField::Phase) {
        Ok(tag) => tag,
        Err(e) => {
            return Err(e);
        },
    };
    match phase_of(&tag) {
        None => Err(JsonError::InvalidField(WireField::Phase)),
        Some(Phase::Query) => read_query(value),
        Some(Phase::Offer) => read_offer(value),
        Some(Phase::Settle) => read_settle(value),
        Some(Phase::Error) => read_error(value),
    }
}

/// Decodes a payload, as [`parsed`] describes. The payload is rejected
/// as a whole or decoded as a whole. A member that the payload repeats
/// counts with its last occurrence, the tag `phase` too.
pub fn parse_message(raw: &[u8]) -> (r: Result<TgpMessage, TgpError>)
    ensures
        match parsed(raw@) {
            Ok(message) => r matches Ok(found) && found@ == message,
            Err(e) => r == Err::<TgpMessage, TgpError>(e),
        },
{
    let text = match utf8_text(raw) {
        Ok(text) => text,
        Err(e) => {
            let found = e.valid_up_to();
            proof {
                let chosen = valid_up_to(raw@);
                assert(is_valid_up_to(raw@, chosen));
                if chosen < found {
                    assert(!valid_utf8(raw@.subrange(0, found as int)));
                } else if found < chosen {
                    assert(!valid_utf8(raw@.subrange(0, chosen)));
                }
            }
            return Err(TgpError::Utf8 { valid_up_to: found });
        },
    };
    proof {
        vstd::utf8::encode_utf8_decode_utf8(text@);
    }
    let value = match read_value(text) {
        Ok(value) => value,
        Err(e) => {
            let fault = JsonFault { kind: fault_kind(&e), line: e.line(), column: e.column() };
            return Err(TgpError::Json(JsonError::Syntax(fault)));
        },
    };
    match decode_value(&value) {
        Ok(message) => Ok(message),
        Err(e) => Err(TgpError::Json(e)),
    }
}

/// Sets a member of an object under construction.
fn put(object: &mut serde_json::Value, name: WireField, value: serde_json::Value)
    requires
        json_of(*old(object)) is Object,
    ensures
        json_of(*final(object)) == with(json_of(*old(object)), name, json_of(value)),
{
    insert_member(object, name.name(), value);
}

/// The JSON value of an optional text.
fn optional_text_value(text: &Option<String>) -> (r: serde_json::Value)
    ensures
        json_of(r) == optional_text(crate::tgp::text_view(*text)),
{
    match text {
        Some(t) => text_value(t.as_str()),
        None => null_value(),
    }
}

/// The wire tag of a phase.
fn phase_tag(phase: Phase) -> (r: &'static str)
    ensures
        r@ == phase_name(phase),
{
    match phase {
        Phase::Query => "QUERY",
        Phase::Offer => "OFFER",
        Phase::Settle => "SETTLE",
        Phase::Error => "ERROR",
    }
}

/// Writes a message as a JSON value: the one that [`message_json`]
/// describes.
pub fn encode_value(msg: &TgpMessage) -> (r: serde_json::Value)
    ensures
        json_of(r) == message_json(msg@),
{
    let mut object = empty_object();
    put(&mut object, WireField::Phase, text_value(phase_tag(msg.phase())));
    match msg {
        TgpMessage::Query {
            id,
            from,
            to,
            asset,
            amount,
            escrow_from_402,
            escrow_contract_from_402,
            zk_profile,
        } => {
            let profile = match zk_profile {
                ZkProfile::NoProof => "NONE",
                ZkProfile::Optional => "OPTIONAL",
                ZkProfile::Required => "REQUIRED",
            };
            put(&mut object, WireField::Id, text_value(id.as_str()));
            put(&mut object, WireField::From, text_value(from.as_str()));
            put(&mut object, WireField::To, text_value(to.as_str()));
            put(&mut object, WireField::Asset, text_value(asset.as_str()));
            put(&mut object, WireField::Amount, unsigned_value(*amount));
            put(&mut object, WireField::EscrowFrom402, flag_value(*escrow_from_402));
            put(
                &mut object,
                WireField::EscrowContractFrom402,
                optional_text_value(escrow_contract_from_402),
            );
            put(&mut object, WireField::ZkProfile, text_value(profile));
        },
        TgpMessage::Offer {
            id,
            query_id,
            asset,
            amount,
            coreprover_contract,
            session_id,
            zk_required,
            economic_envelope,
        } => {
            let mut envelope = empty_object();
            put(
                &mut envelope,
                WireField::MaxFeesBps,
                unsigned_value(economic_envelope.max_fees_bps as u64),
            );
            put(&mut envelope, WireField::Expiry, optional_text_value(&economic_envelope.expiry));
            put(&mut object, WireField::Id, text_value(id.as_str()));
            put(&mut object, WireField::QueryId, text_value(query_id.as_str()));
            put(&mut object, WireField::Asset, text_value(asset.as_str()));
            put(&mut object, WireField::Amount, unsigned_value(*amount));
            put(&mut object, WireField::CoreproverContract, optional_text_value(coreprover_contract));
            put(&mut object, WireField::SessionId, optional_text_value(session_id));
            put(&mut object, WireField::ZkRequired, flag_value(*zk_required));
            put(&mut object, WireField::EconomicEnvelope, envelope);
        },
        TgpMessage::Settle { id, query_or_offer_id, success, source, layer8_tx, session_id } => {
            let reporter = match source {
                SettleSource::BuyerNotify => "buyer-notify",
                SettleSource::ControllerWatcher => "controller-watcher",
                SettleSource::CoreproverIndexer => "coreprover-indexer",
            };
            put(&mut object, WireField::Id, text_value(id.as_str()));
            put(&mut object, WireField::QueryOrOfferId, text_value(query_or_offer_id.as_str()));
            put(&mut object, WireField::Success, flag_value(*success));
            put(&mut object, WireField::Source, text_value(reporter));
            put(&mut object, WireField::Layer8Tx, optional_text_value(layer8_tx));
            put(&mut object, WireField::SessionId, optional_text_value(session_id));
        },
        TgpMessage::Error { id, code, message, correlation_id } => {
            put(&mut object, WireField::Id, text_value(id.as_str()));
            put(&mut object, WireField::Code, text_value(code.as_str()));
            put(&mut object, WireField::Message, text_value(message.as_str()));
            put(&mut object, WireField::CorrelationId, optional_text_value(correlation_id));
        },
    }
    object
}

/// Encodes a message. Encoding always succeeds, and the bytes are the JSON
/// text of the value that [`message_json`] describes: `phase` first, then
/// the message's fields as declared. Equal messages encode to equal bytes.
pub fn encode_message(msg: &TgpMessage) -> (r: Result<Vec<u8>, TgpError>)
    ensures
        r is Ok,
        r matches Ok(bytes) ==> bytes@ == json_text(message_json(msg@)),
{
    let value = encode_value(msg);
    match write_value(&value) {
        Ok(bytes) => Ok(bytes),
        Err(_) => Err(TgpError::Json(JsonError::Encode)),
    }
}

} // verus!
