//! TGP control-plane messages: the typed schema and its mathematical view.

use vstd::prelude::*;
pub use crate::wire::{encode_message, parse_message, TgpError};

verus! {

/// Whether and how the buyer asks for zero-knowledge proof involvement.
#[derive(Debug, Clone, Copy, PartialEq, Eq, Structural)]
pub enum ZkProfile {
    /// No proof involvement (wire value `NONE`).
    NoProof,
    /// Proof involvement is welcome but not demanded (wire value `OPTIONAL`).
    Optional,
    /// Proof involvement is demanded (wire value `REQUIRED`).
    Required,
}

/// Who reports a settlement back to the controller.
#[derive(Debug, Clone, Copy, PartialEq, Eq, Structural)]
pub enum SettleSource {
    /// The buyer, or its local agent (wire value `buyer-notify`).
    BuyerNotify,
    /// The controller's own watcher (wire value `controller-watcher`).
    ControllerWatcher,
    /// An external indexer (wire value `coreprover-indexer`).
    CoreproverIndexer,
}

/// The four phases of the protocol, which tag every wire message.
#[derive(Debug, Clone, Copy, PartialEq, Eq, Structural)]
pub enum Phase {
    Query,
    Offer,
    Settle,
    Error,
}

/// Economic terms attached to an offer.
#[derive(Debug, Clone, PartialEq, Eq)]
pub struct EconomicEnvelope {
    /// Maximum total fees in basis points.
    pub max_fees_bps: u32,
    /// Optional absolute expiry time, as ISO-8601 text.
    pub expiry: Option<String>,
}

/// A TGP message: one variant per phase.
#[derive(Debug, Clone, PartialEq, Eq)]
pub enum TgpMessage {
    /// The buyer asks a controller for terms.
    Query {
        id: String,
        from: String,
        to: String,
        asset: String,
        amount: u64,
        /// Whether the upstream paywall asked for escrow.
        escrow_from_402: bool,
        /// Escrow contract advertised by the upstream paywall, if any.
        escrow_contract_from_402: Option<String>,
        zk_profile: ZkProfile,
    },
    /// The controller answers a query with terms.
    Offer {
        id: String,
        /// The id of the query that this offer answers.
        query_id: String,
        asset: String,
        amount: u64,
        coreprover_contract: Option<String>,
        session_id: Option<String>,
        zk_required: bool,
        economic_envelope: EconomicEnvelope,
    },
    /// A settlement report to the controller.
    Settle {
        id: String,
        /// The id of the query or offer that this report belongs to.
        query_or_offer_id: String,
        success: bool,
        source: SettleSource,
        layer8_tx: Option<String>,
        session_id: Option<String>,
    },
    /// A failure while processing another message.
    Error {
        id: String,
        code: String,
        message: String,
        correlation_id: Option<String>,
    },
}

/// The view of an optional text.
pub open spec fn text_view(text: Option<String>) -> Option<Seq<char>> {
    match text {
        Some(s) => Some(s@),
        None => None,
    }
}

/// The view of an [`EconomicEnvelope`].
pub struct EnvelopeView {
    pub max_fees_bps: u32,
    pub expiry: Option<Seq<char>>,
}

impl View for EconomicEnvelope {
    type V = EnvelopeView;

    open spec fn view(&self) -> EnvelopeView {
        EnvelopeView { max_fees_bps: self.max_fees_bps, expiry: text_view(self.expiry) }
    }
}

/// The view of a [`TgpMessage`]: the same fields, with texts as sequences
/// of characters.
pub enum MessageView {
    Query {
        id: Seq<char>,
        from: Seq<char>,
        to: Seq<char>,
        asset: Seq<char>,
        amount: u64,
        escrow_from_402: bool,
        escrow_contract_from_402: Option<Seq<char>>,
        zk_profile: ZkProfile,
    },
    Offer {
        id: Seq<char>,
        query_id: Seq<char>,
        asset: Seq<char>,
        amount: u64,
        coreprover_contract: Option<Seq<char>>,
        session_id: Option<Seq<char>>,
        zk_required: bool,
        economic_envelope: EnvelopeView,
    },
    Settle {
        id: Seq<char>,
        query_or_offer_id: Seq<char>,
        success: bool,
        source: SettleSource,
        layer8_tx: Option<Seq<char>>,
        session_id: Option<Seq<char>>,
    },
    Error {
        id: Seq<char>,
        code: Seq<char>,
        message: Seq<char>,
        correlation_id: Option<Seq<char>>,
    },
}

impl MessageView {
    /// The phase that the message belongs to.
    pub open spec fn phase(self) -> Phase {
        match self {
            MessageView::Query { .. } => Phase::Query,
            MessageView::Offer { .. } => Phase::Offer,
            MessageView::Settle { .. } => Phase::Settle,
            MessageView::Error { .. } => Phase::Error,
        }
    }
}

impl View for TgpMessage {
    type V = MessageView;

    open spec fn view(&self) -> MessageView {
        match *self {
            TgpMessage::Query {
                id,
                from,
                to,
                asset,
                amount,
                escrow_from_402,
                escrow_contract_from_402,
                zk_profile,
            } => MessageView::Query {
                id: id@,
                from: from@,
                to: to@,
                asset: asset@,
                amount,
                escrow_from_402,
                escrow_contract_from_402: text_view(escrow_contract_from_402),
                zk_profile,
            },
            TgpMessage::Offer {
                id,
                query_id,
                asset,
                amount,
                coreprover_contract,
                session_id,
                zk_required,
                economic_envelope,
            } => MessageView::Offer {
                id: id@,
                query_id: query_id@,
                asset: asset@,
                amount,
                coreprover_contract: text_view(coreprover_contract),
                session_id: text_view(session_id),
                zk_required,
                economic_envelope: economic_envelope@,
            },
            TgpMessage::Settle { id, query_or_offer_id, success, source, layer8_tx, session_id } => {
                MessageView::Settle {
                    id: id@,
                    query_or_offer_id: query_or_offer_id@,
                    success,
                    source,
                    layer8_tx: text_view(layer8_tx),
                    session_id: text_view(session_id),
                }
            },
            TgpMessage::Error { id, code, message, correlation_id } => MessageView::Error {
                id: id@,
                code: code@,
                message: message@,
                correlation_id: text_view(correlation_id),
            },
        }
    }
}

impl TgpMessage {
    /// The phase that the message belongs to.
    pub fn phase(&self) -> (r: Phase)
        ensures
            r == self@.phase(),
    {
        match self {
            TgpMessage::Query { .. } => Phase::Query,
            TgpMessage::Offer { .. } => Phase::Offer,
            TgpMessage::Settle { .. } => Phase::Settle,
            TgpMessage::Error { .. } => Phase::Error,
        }
    }
}

/// A copy of an optional text.
pub fn copy_text(text: &Option<String>) -> (r: Option<String>)
    ensures
        text_view(r) == text_view(*text),
{
    match text {
        Some(s) => Some(s.clone()),
        None => None,
    }
}

} // verus!
