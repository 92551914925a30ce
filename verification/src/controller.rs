//! The controller: answers queries with offers and reconciles settlement
//! reports against the escrow records it keeps.

use vstd::prelude::*;
use vstd::string::StringExecFns;
use crate::amount::Amount;
use crate::escrow::{Address, EscrowAction, EscrowState, EscrowTerms, OrderId};
use crate::gateway::{
    proof_type_none, proof_type_ownership, GatewayPolicy, GatewayPolicyView, PolicyError,
    SessionRequest, SessionRequestView, DEFAULT_FEES_BPS,
};
use crate::ledger::{EscrowLedger, LedgerError, LedgerView, Transition};
use crate::tgp::{
    copy_text, EconomicEnvelope, EnvelopeView, MessageView, TgpMessage, ZkProfile,
};
use crate::vault::Digest;

verus! {

/// What a controller is configured with.
#[derive(Debug, Clone)]
pub struct ControllerConfig {
    /// The address that the controller's transport listens on.
    pub listen_addr: String,
    /// The policy that every request has to pass.
    pub policy: GatewayPolicy,
    /// The fees that the controller's offers carry, in basis points.
    pub offer_fees_bps: u32,
}

impl Default for ControllerConfig {
    /// The default policy, offers at the default fees.
    fn default() -> (r: Self)
        ensures
            r.policy@ == (GatewayPolicyView {
                supported_proof_types: seq![proof_type_none(), proof_type_ownership()],
                max_fees_bps: crate::gateway::DEFAULT_POLICY_FEES_BPS,
                max_expiry_secs: crate::gateway::DEFAULT_POLICY_EXPIRY_SECS,
            }),
            r.offer_fees_bps == DEFAULT_FEES_BPS,
            r.listen_addr@ == "127.0.0.1:8080"@,
    {
        ControllerConfig {
            listen_addr: String::from_str("127.0.0.1:8080"),
            policy: GatewayPolicy::default(),
            offer_fees_bps: DEFAULT_FEES_BPS,
        }
    }
}

/// Why the controller turned a message down.
#[derive(Debug, Clone, PartialEq, Eq)]
pub enum ControllerError {
    /// The handler was given a message of another phase.
    WrongPhase(String),
    /// The policy rejected the request; the error names the field.
    PolicyRejected(PolicyError),
    /// No session is bound to the id that the message correlates to.
    NoSuchSession,
    /// A session is bound to the query's id or to its offer's id already.
    SessionExists,
    /// The ledger turned the call down: no such escrow, or a transition
    /// that the escrow's state does not admit.
    Ledger(LedgerError),
}

/// The request that a query with a given proof profile and fees stands for.
pub open spec fn request_for(profile: ZkProfile, fees_bps: u32) -> SessionRequestView {
    SessionRequestView {
        proof_type: if profile == ZkProfile::NoProof {
            proof_type_none()
        } else {
            proof_type_ownership()
        },
        max_fees_bps: fees_bps,
        expiry_secs: None,
    }
}

/// The id of the offer that answers the query with the given id.
pub open spec fn offer_id_for(query_id: Seq<char>) -> Seq<char> {
    "offer-"@ + query_id
}

/// The session id minted for the query with the given id.
pub open spec fn session_id_for(query_id: Seq<char>) -> Seq<char> {
    "sess-"@ + query_id
}

/// The offer that answers a query at the given fees. It correlates to the
/// query by `query_id`, echoes asset and amount, carries over the escrow
/// contract that the query brought, and requires a proof exactly when the
/// query's profile does.
pub open spec fn offer_for(query: MessageView, fees_bps: u32) -> MessageView
    recommends
        query is Query,
{
    MessageView::Offer {
        id: offer_id_for(query->Query_id),
        query_id: query->Query_id,
        asset: query->Query_asset,
        amount: query->Query_amount,
        coreprover_contract: query->escrow_contract_from_402,
        session_id: Some(session_id_for(query->Query_id)),
        zk_required: query->zk_profile == ZkProfile::Required,
        economic_envelope: EnvelopeView { max_fees_bps: fees_bps, expiry: None },
    }
}

/// The session request that stands for a proof profile at the given fees.
pub fn session_request(profile: ZkProfile, fees_bps: u32) -> (r: SessionRequest)
    ensures
        r@ == request_for(profile, fees_bps),
{
    let proof_type = match profile {
        ZkProfile::NoProof => String::from_str("none"),
        _ => String::from_str("ownership"),
    };
    SessionRequest { proof_type, max_fees_bps: fees_bps, expiry_secs: None }
}

/// A negotiation that is bound to an escrow: settlement reports that
/// correlate to the query or to its offer are reconciled against it.
#[derive(Debug, Clone)]
pub struct Session {
    /// The id of the query that opened the negotiation.
    pub query_id: String,
    /// The escrow that the negotiation is about.
    pub order_id: OrderId,
    /// The digest that binds the agreed terms; it goes into the receipt.
    pub terms_hash: Digest,
    /// The proof profile that the query asked for.
    pub zk_profile: ZkProfile,
}

/// The view of a [`Session`].
pub struct SessionView {
    pub query_id: Seq<char>,
    pub order_id: OrderId,
    pub terms_hash: Digest,
    pub zk_profile: ZkProfile,
}

impl View for Session {
    type V = SessionView;

    open spec fn view(&self) -> SessionView {
        SessionView {
            query_id: self.query_id@,
            order_id: self.order_id,
            terms_hash: self.terms_hash,
            zk_profile: self.zk_profile,
        }
    }
}

impl SessionView {
    /// Whether a correlation id points at this session: it is the id of the
    /// session's query or the id of the offer that answered it.
    pub open spec fn answers_to(self, correlation: Seq<char>) -> bool {
        self.query_id == correlation || offer_id_for(self.query_id) == correlation
    }
}

/// The position of the first session from `start` on that a correlation id
/// points at.
pub open spec fn session_from(sessions: Seq<SessionView>, correlation: Seq<char>, start: int)
    -> Option<int>
    decreases sessions.len() - start,
{
    if start < 0 || start >= sessions.len() {
        None
    } else if sessions[start].answers_to(correlation) {
        Some(start)
    } else {
        session_from(sessions, correlation, start + 1)
    }
}

/// The position of the session that a correlation id points at: the one
/// that was bound first, where several answer to it.
pub open spec fn session_for(sessions: Seq<SessionView>, correlation: Seq<char>) -> Option<int> {
    session_from(sessions, correlation, 0)
}

/// What a failure report calls for in a given state: the order is called
/// off while a commitment is still outstanding, and disputed after that.
pub open spec fn failure_action(state: EscrowState) -> EscrowAction {
    if state.is_before_both_committed() {
        EscrowAction::Cancel
    } else {
        EscrowAction::Dispute
    }
}

/// The mathematical picture of what a controller keeps: the ledger and the
/// sessions bound so far, oldest first.
pub struct ControllerView {
    pub ledger: LedgerView,
    pub sessions: Seq<SessionView>,
}

impl ControllerView {
    /// What a reconciliation that succeeded means for the ledger, spelled
    /// out: what [`LedgerView::led_to`] says of the step that it took.
    pub open spec fn led_to(
        self,
        correlation: Seq<char>,
        success: bool,
        now: u64,
        next: ControllerView,
        transition: Transition,
    ) -> bool {
        let session = self.sessions[session_for(self.sessions, correlation)->0];
        let action = if success {
            EscrowAction::Settle
        } else {
            failure_action(self.ledger.record(session.order_id).escrow.state)
        };
        self.ledger.led_to(
            session.order_id,
            action,
            session.terms_hash,
            now,
            next.ledger,
            transition,
        )
    }

    /// What binding a query to an escrow leads to.
    ///
    /// The policy is consulted first. Binding then fails where the escrow
    /// does not exist, and where a session answers to the query's id or to
    /// its offer's id already; otherwise the new session is appended.
    pub open spec fn bound(
        self,
        policy: GatewayPolicyView,
        fees_bps: u32,
        query_id: Seq<char>,
        zk_profile: ZkProfile,
        order_id: OrderId,
        terms_hash: Digest,
    ) -> Result<ControllerView, ControllerError> {
        if policy.objection(request_for(zk_profile, fees_bps)) is Some {
            Err(
                ControllerError::PolicyRejected(
                    PolicyError { field: policy.objection(request_for(zk_profile, fees_bps))->0 },
                ),
            )
        } else if !self.ledger.has_escrow(order_id) {
            Err(ControllerError::Ledger(LedgerError::UnknownEscrow(order_id)))
        } else if session_for(self.sessions, query_id) is Some || session_for(
            self.sessions,
            offer_id_for(query_id),
        ) is Some {
            Err(ControllerError::SessionExists)
        } else {
            Ok(
                ControllerView {
                    sessions: self.sessions.push(
                        SessionView { query_id, order_id, terms_hash, zk_profile },
                    ),
                    ..self
                },
            )
        }
    }

    /// What creating an escrow for a query leads to: the escrow is created
    /// on the ledger and the query is bound to it, or nothing happens at
    /// all.
    ///
    /// The policy is consulted first. Then the call fails where a session
    /// answers to the query's id or to its offer's id already, and where the
    /// ledger cannot create the escrow; otherwise the escrow is there, in
    /// `Created`, and the new session points at it.
    pub open spec fn escrowed(
        self,
        policy: GatewayPolicyView,
        fees_bps: u32,
        query_id: Seq<char>,
        zk_profile: ZkProfile,
        buyer: Address,
        seller: Address,
        amount: nat,
        terms: EscrowTerms,
        counter_escrow_needed: bool,
        terms_hash: Digest,
        now: u64,
    ) -> Result<(ControllerView, OrderId), ControllerError> {
        let objection = policy.objection(request_for(zk_profile, fees_bps));
        if objection is Some {
            Err(ControllerError::PolicyRejected(PolicyError { field: objection->0 }))
        } else if session_for(self.sessions, query_id) is Some || session_for(
            self.sessions,
            offer_id_for(query_id),
        ) is Some {
            Err(ControllerError::SessionExists)
        } else {
            match self.ledger.created(buyer, seller, amount, terms, counter_escrow_needed, now) {
                Err(e) => Err(ControllerError::Ledger(e)),
                Ok((ledger, order_id)) => Ok(
                    (
                        ControllerView {
                            ledger,
                            sessions: self.sessions.push(
                                SessionView { query_id, order_id, terms_hash, zk_profile },
                            ),
                        },
                        order_id,
                    ),
                ),
            }
        }
    }

    /// What a run of success reports leads to: each report brings its
    /// correlation id and its time, they are reconciled in their order, and
    /// one that is turned down leaves everything as it is.
    pub open spec fn reported(
        self,
        policy: GatewayPolicyView,
        fees_bps: u32,
        reports: Seq<(Seq<char>, u64)>,
    ) -> ControllerView
        decreases reports.len(),
    {
        if reports.len() == 0 {
            self
        } else {
            let before = self.reported(policy, fees_bps, reports.drop_last());
            match before.reconciled(policy, fees_bps, reports.last().0, true, reports.last().1) {
                Ok((next, _)) => next,
                Err(_) => before,
            }
        }
    }

    /// What a settlement report leads to.
    ///
    /// A report that no session answers to is turned down, and so is one
    /// whose session the policy no longer admits. A report of success
    /// attempts the settlement transition on the session's escrow; a report
    /// of failure attempts cancellation or dispute, whichever the escrow's
    /// state calls for. What the ledger says is passed on as it is.
    pub open spec fn reconciled(
        self,
        policy: GatewayPolicyView,
        fees_bps: u32,
        correlation: Seq<char>,
        success: bool,
        now: u64,
    ) -> Result<(ControllerView, Transition), ControllerError> {
        match session_for(self.sessions, correlation) {
            None => Err(ControllerError::NoSuchSession),
            Some(i) => {
                let session = self.sessions[i];
                let objection = policy.objection(request_for(session.zk_profile, fees_bps));
                if objection is Some {
                    Err(ControllerError::PolicyRejected(PolicyError { field: objection->0 }))
                } else if !self.ledger.has_escrow(session.order_id) {
                    Err(ControllerError::Ledger(LedgerError::UnknownEscrow(session.order_id)))
                } else {
                    let action = if success {
                        EscrowAction::Settle
                    } else {
                        failure_action(self.ledger.record(session.order_id).escrow.state)
                    };
                    match self.ledger.step(session.order_id, action, session.terms_hash, now) {
                        Err(e) => Err(ControllerError::Ledger(e)),
                        Ok((ledger, transition)) => Ok(
                            (ControllerView { ledger, ..self }, transition),
                        ),
                    }
                }
            },
        }
    }
}

/// Answers queries and reconciles settlements against the escrow records
/// on its ledger.
#[derive(Debug, Clone)]
pub struct Controller {
    pub config: ControllerConfig,
    /// The ledger with the escrow records that the controller answers for.
    pub ledger: EscrowLedger,
    /// The sessions bound so far, oldest first.
    pub sessions: Vec<Session>,
}

impl View for Controller {
    type V = ControllerView;

    open spec fn view(&self) -> ControllerView {
        ControllerView {
            ledger: self.ledger@,
            sessions: self.sessions@.map_values(|s: Session| s@),
        }
    }
}

impl Controller {
    /// The controller's invariant: that of its ledger.
    pub open spec fn wf(&self) -> bool {
        self.ledger.wf()
    }

    /// A controller with the given configuration, an empty ledger and no
    /// sessions.
    pub fn new(config: ControllerConfig) -> (r: Self)
        ensures
            r.config == config,
            r.wf(),
            r@.sessions == Seq::<SessionView>::empty(),
            r@.ledger == (LedgerView {
                accounts: Seq::<crate::ledger::AccountView>::empty(),
                escrows: Seq::<crate::ledger::RecordView>::empty(),
                receipts: Seq::<crate::vault::ReceiptView>::empty(),
            }),
    {
        let r = Controller { config, ledger: EscrowLedger::new(), sessions: Vec::new() };
        assert(r@.sessions =~= Seq::<SessionView>::empty());
        r
    }

    /// What the controller answers to a query: the rejection of the policy,
    /// which is consulted first, or else the offer that [`offer_for`]
    /// describes, at the configured fees. The answer depends on the query
    /// and the configuration alone.
    pub open spec fn answer(&self, query: MessageView) -> Result<MessageView, ControllerError>
        recommends
            query is Query,
    {
        match self.config.policy@.objection(
            request_for(query->zk_profile, self.config.offer_fees_bps),
        ) {
            Some(field) => Err(ControllerError::PolicyRejected(PolicyError { field })),
            None => Ok(offer_for(query, self.config.offer_fees_bps)),
        }
    }

    /// Answers a query with an offer, as [`Controller::answer`] describes.
    /// A message of another phase is turned down as a phase error. Nothing
    /// that the controller keeps is touched either way.
    pub fn handle_query(&self, msg: &TgpMessage) -> (r: Result<TgpMessage, ControllerError>)
        ensures
            match msg@ {
                MessageView::Query { .. } => match self.answer(msg@) {
                    Ok(offer) => r matches Ok(found) && found@ == offer,
                    Err(e) => r == Err::<TgpMessage, ControllerError>(e),
                },
                _ => r matches Err(ControllerError::WrongPhase(text)) && text@
                    == "expected QUERY message"@,
            },
    {
        match msg {
            TgpMessage::Query { id, asset, amount, escrow_contract_from_402, zk_profile, .. } => {
                let request = session_request(*zk_profile, self.config.offer_fees_bps);
                match self.config.policy.check(&request) {
                    Err(e) => Err(ControllerError::PolicyRejected(e)),
                    Ok(_) => {
                        let offer_id = String::from_str("offer-").concat(id.as_str());
                        let session_id = String::from_str("sess-").concat(id.as_str());
                        Ok(
                            TgpMessage::Offer {
                                id: offer_id,
                                query_id: id.clone(),
                                asset: asset.clone(),
                                amount: *amount,
                                coreprover_contract: copy_text(escrow_contract_from_402),
                                session_id: Some(session_id),
                                zk_required: *zk_profile == ZkProfile::Required,
                                economic_envelope: EconomicEnvelope {
                                    max_fees_bps: self.config.offer_fees_bps,
                                    expiry: None,
                                },
                            },
                        )
                    },
                }
            },
            _ => Err(ControllerError::WrongPhase(String::from_str("expected QUERY message"))),
        }
    }
    /// The position of the session that a correlation id points at.
    fn find_session(&self, correlation: &String) -> (r: Option<usize>)
        ensures
            match r {
                Some(i) => session_for(self@.sessions, correlation@) == Some(i as int) && i
                    < self.sessions@.len(),
                None => session_for(self@.sessions, correlation@) is None,
            },
    {
        let ghost sessions = self@.sessions;
        let mut i: usize = 0;
        while i < self.sessions.len()
            invariant
                i <= self.sessions.len(),
                sessions == self@.sessions,
                sessions.len() == self.sessions@.len(),
                session_for(sessions, correlation@) == session_from(
                    sessions,
                    correlation@,
                    i as int,
                ),
            decreases self.sessions.len() - i,
        {
            let session = &self.sessions[i];
            assert(sessions[i as int] == session@);
            if session.query_id == *correlation {
                return Some(i);
            }
            let offer_id = String::from_str("offer-").concat(session.query_id.as_str());
            if offer_id == *correlation {
                return Some(i);
            }
            i += 1;
        }
        None
    }

    /// Binds a query to the escrow that was created for it, so that later
    /// settlement reports for the query or its offer find the escrow. The
    /// digest binds the agreed terms and goes into the escrow's receipt.
    ///
    /// A message of another phase is turned down as a phase error;
    /// otherwise the call does what [`ControllerView::bound`] describes.
    pub fn open_session(&mut self, query: &TgpMessage, order_id: OrderId, terms_hash: Digest) -> (r:
        Result<(), ControllerError>)
        requires
            old(self).wf(),
        ensures
            final(self).wf(),
            final(self).config == old(self).config,
            match query@ {
                MessageView::Query { id, zk_profile, .. } => match old(self)@.bound(
                    old(self).config.policy@,
                    old(self).config.offer_fees_bps,
                    id,
                    zk_profile,
                    order_id,
                    terms_hash,
                ) {
                    Ok(next) => final(self)@ == next && r is Ok,
                    Err(e) => final(self)@ == old(self)@ && r == Err::<(), ControllerError>(e),
                },
                _ => final(self)@ == old(self)@ && (r matches Err(
                    ControllerError::WrongPhase(text),
                ) && text@ == "expected QUERY message"@),
            },
    {
        match query {
            TgpMessage::Query { id, zk_profile, .. } => {
                let request = session_request(*zk_profile, self.config.offer_fees_bps);
                match self.config.policy.check(&request) {
                    Err(e) => {
                        return Err(ControllerError::PolicyRejected(e));
                    },
                    Ok(_) => {},
                }
                match self.ledger.get_escrow_state(order_id) {
                    Err(e) => {
                        return Err(ControllerError::Ledger(e));
                    },
                    Ok(_) => {},
                }
                if self.find_session(id).is_some() {
                    return Err(ControllerError::SessionExists);
                }
                let offer_id = String::from_str("offer-").concat(id.as_str());
                if self.find_session(&offer_id).is_some() {
                    return Err(ControllerError::SessionExists);
                }
                let session = Session {
                    query_id: id.clone(),
                    order_id,
                    terms_hash,
                    zk_profile: *zk_profile,
                };
                let ghost before = self@.sessions;
                self.sessions.push(session);
                assert(self@.sessions =~= before.push(session@));
                Ok(())
            },
            _ => Err(ControllerError::WrongPhase(String::from_str("expected QUERY message"))),
        }
    }

    /// Creates the escrow that a query was answered for and binds the query
    /// to it in one step, so that no escrow is left without its session.
    /// The digest binds the agreed terms and goes into the escrow's receipt.
    ///
    /// A message of another phase is turned down as a phase error;
    /// otherwise the call does what [`ControllerView::escrowed`] describes.
    pub fn open_escrow(
        &mut self,
        query: &TgpMessage,
        buyer: Address,
        seller: Address,
        amount: Amount,
        terms: EscrowTerms,
        counter_escrow_needed: bool,
        terms_hash: Digest,
        now: u64,
    ) -> (r: Result<OrderId, ControllerError>)
        requires
            old(self).wf(),
        ensures
            final(self).wf(),
            final(self).config == old(self).config,
            match query@ {
                MessageView::Query { id, zk_profile, .. } => match old(self)@.escrowed(
                    old(self).config.policy@,
                    old(self).config.offer_fees_bps,
                    id,
                    zk_profile,
                    buyer,
                    seller,
                    amount@,
                    terms,
                    counter_escrow_needed,
                    terms_hash,
                    now,
                ) {
                    Ok((next, order_id)) => final(self)@ == next && r == Ok::<
                        OrderId,
                        ControllerError,
                    >(order_id),
                    Err(e) => final(self)@ == old(self)@ && r == Err::<OrderId, ControllerError>(
                        e,
                    ),
                },
                _ => final(self)@ == old(self)@ && (r matches Err(
                    ControllerError::WrongPhase(text),
                ) && text@ == "expected QUERY message"@),
            },
    {
        match query {
            TgpMessage::Query { id, zk_profile, .. } => {
                let request = session_request(*zk_profile, self.config.offer_fees_bps);
                match self.config.policy.check(&request) {
                    Err(e) => {
                        return Err(ControllerError::PolicyRejected(e));
                    },
                    Ok(_) => {},
                }
                if self.find_session(id).is_some() {
                    return Err(ControllerError::SessionExists);
                }
                let offer_id = String::from_str("offer-").concat(id.as_str());
                if self.find_session(&offer_id).is_some() {
                    return Err(ControllerError::SessionExists);
                }
                let order_id = match self.ledger.create_escrow(
                    buyer,
                    seller,
                    amount,
                    terms.commitment_window,
                    terms.claim_window,
                    terms.timed_release_enabled,
                    terms.timed_release_window,
                    counter_escrow_needed,
                    now,
                ) {
                    Ok(order_id) => order_id,
                    Err(e) => {
                        return Err(ControllerError::Ledger(e));
                    },
                };
                let session = Session {
                    query_id: id.clone(),
                    order_id,
                    terms_hash,
                    zk_profile: *zk_profile,
                };
                let ghost before = self@.sessions;
                self.sessions.push(session);
                assert(self@.sessions =~= before.push(session@));
                Ok(order_id)
            },
            _ => Err(ControllerError::WrongPhase(String::from_str("expected QUERY message"))),
        }
    }

    /// Reconciles a settlement report against the escrow it correlates to.
    ///
    /// A message of another phase is turned down as a phase error, before
    /// anything is touched. Otherwise the call does what
    /// [`ControllerView::reconciled`] describes: on a report of success the
    /// result names the state `Settled` and the escrow's receipt, the same
    /// receipt however often and by whomever the success is reported.
    /// Whenever the call fails, nothing has changed.
    pub fn handle_settle(&mut self, msg: &TgpMessage, now: u64) -> (r: Result<
        Transition,
        ControllerError,
    >)
        requires
            old(self).wf(),
        ensures
            final(self).wf(),
            final(self).config == old(self).config,
            match msg@ {
                MessageView::Settle { query_or_offer_id, success, .. } => match old(
                    self,
                )@.reconciled(
                    old(self).config.policy@,
                    old(self).config.offer_fees_bps,
                    query_or_offer_id,
                    success,
                    now,
                ) {
                    Ok((next, transition)) => final(self)@ == next && r == Ok::<
                        Transition,
                        ControllerError,
                    >(transition) && old(self)@.led_to(
                        query_or_offer_id,
                        success,
                        now,
                        next,
                        transition,
                    ),
                    Err(e) => final(self)@ == old(self)@ && r == Err::<
                        Transition,
                        ControllerError,
                    >(e),
                },
                _ => final(self)@ == old(self)@ && (r matches Err(
                    ControllerError::WrongPhase(text),
                ) && text@ == "expected SETTLE message"@),
            },
    {
        match msg {
            TgpMessage::Settle { query_or_offer_id, success, .. } => {
                let i = match self.find_session(query_or_offer_id) {
                    Some(i) => i,
                    None => {
                        return Err(ControllerError::NoSuchSession);
                    },
                };
                let order_id = self.sessions[i].order_id;
                let terms_hash = self.sessions[i].terms_hash;
                let zk_profile = self.sessions[i].zk_profile;
                assert(self@.sessions[i as int] == self.sessions@[i as int]@);
                let request = session_request(zk_profile, self.config.offer_fees_bps);
                match self.config.policy.check(&request) {
                    Err(e) => {
                        return Err(ControllerError::PolicyRejected(e));
                    },
                    Ok(_) => {},
                }
                let state = match self.ledger.get_escrow_state(order_id) {
                    Ok(state) => state,
                    Err(e) => {
                        return Err(ControllerError::Ledger(e));
                    },
                };
                let action = if *success {
                    EscrowAction::Settle
                } else if state == EscrowState::Created || state == EscrowState::BuyerCommitted
                    || state == EscrowState::SellerCommitted {
                    EscrowAction::Cancel
                } else {
                    EscrowAction::Dispute
                };
                match self.ledger.transition(order_id, action, terms_hash, now) {
                    Ok(transition) => Ok(transition),
                    Err(e) => Err(ControllerError::Ledger(e)),
                }
            },
            _ => Err(ControllerError::WrongPhase(String::from_str("expected SETTLE message"))),
        }
    }
}

/// Every offer answers its query: it correlates to the query by id,
/// echoes asset and amount, requires a proof exactly when the query's
/// profile is `Required`, and carries fees within the basis-point scale.
/// The offer depends on the query and the configuration alone, so the same
/// query is answered alike every time.
pub proof fn law_offer_answers_its_query(controller: Controller, query: MessageView)
    requires
        query is Query,
        controller.answer(query) is Ok,
    ensures
        ({
            let offer = controller.answer(query)->Ok_0;
            &&& offer is Offer
            &&& offer->query_id == query->Query_id
            &&& offer->Offer_asset == query->Query_asset
            &&& offer->Offer_amount == query->Query_amount
            &&& offer->zk_required == (query->zk_profile == ZkProfile::Required)
            &&& offer->economic_envelope.max_fees_bps <= crate::gateway::BASIS_POINTS_MAX
        }),
{
}

/// Appending a session changes no earlier answer: a correlation id that
/// pointed at a session still points at it, and one that pointed at none
/// points at the new session exactly if that one answers to it.
proof fn lemma_session_appended(
    sessions: Seq<SessionView>,
    session: SessionView,
    correlation: Seq<char>,
    start: int,
)
    requires
        0 <= start <= sessions.len(),
    ensures
        session_from(sessions.push(session), correlation, start) == (match session_from(
            sessions,
            correlation,
            start,
        ) {
            Some(i) => Some(i),
            None => if session.answers_to(correlation) {
                Some(sessions.len() as int)
            } else {
                None
            },
        }),
    decreases sessions.len() - start,
{
    let appended = sessions.push(session);
    if start < sessions.len() {
        assert(appended[start] == sessions[start]);
        if !sessions[start].answers_to(correlation) {
            lemma_session_appended(sessions, session, correlation, start + 1);
        }
    } else {
        assert(appended[start] == session);
        assert(session_from(appended, correlation, start + 1) is None);
    }
}

/// A settlement report reaches the escrow of its own session and no other.
/// Once a query has been bound to an escrow, reports under the query's id
/// and reports under its offer's id both point at that session, and every
/// correlation id that pointed at an earlier session keeps pointing there.
pub proof fn law_reports_reach_their_session(
    pre: ControllerView,
    policy: GatewayPolicyView,
    fees_bps: u32,
    query_id: Seq<char>,
    zk_profile: ZkProfile,
    order_id: OrderId,
    terms_hash: Digest,
    other: Seq<char>,
)
    requires
        pre.bound(policy, fees_bps, query_id, zk_profile, order_id, terms_hash) is Ok,
    ensures
        ({
            let next = pre.bound(policy, fees_bps, query_id, zk_profile, order_id, terms_hash)->Ok_0;
            let bound = Some(pre.sessions.len() as int);
            &&& next.sessions[pre.sessions.len() as int].order_id == order_id
            &&& session_for(next.sessions, query_id) == bound
            &&& session_for(next.sessions, offer_id_for(query_id)) == bound
            &&& session_for(pre.sessions, other) is Some ==> session_for(next.sessions, other)
                == session_for(pre.sessions, other)
        }),
{
    let session = SessionView { query_id, order_id, terms_hash, zk_profile };
    lemma_session_appended(pre.sessions, session, query_id, 0);
    lemma_session_appended(pre.sessions, session, offer_id_for(query_id), 0);
    lemma_session_appended(pre.sessions, session, other, 0);
}

/// Success reports are idempotent. Once a report of success for a session
/// has been reconciled, every further report of success that points at the
/// same session, under its query's id or its offer's id, from whatever
/// source and at whatever time, succeeds with the same state and the same
/// receipt identifier and leaves ledger and sessions as they are.
pub proof fn law_success_reports_are_idempotent(
    pre: ControllerView,
    policy: GatewayPolicyView,
    fees_bps: u32,
    correlation: Seq<char>,
    now: u64,
    again: Seq<char>,
    later: u64,
)
    requires
        pre.ledger.wf(),
        pre.reconciled(policy, fees_bps, correlation, true, now) is Ok,
        session_for(pre.sessions, again) == session_for(pre.sessions, correlation),
    ensures
        ({
            let (settled, first) = pre.reconciled(policy, fees_bps, correlation, true, now)->Ok_0;
            &&& first.state == EscrowState::Settled
            &&& first.receipt is Some
            &&& settled.reconciled(policy, fees_bps, again, true, later) == Ok::<
                (ControllerView, Transition),
                ControllerError,
            >((settled, first))
        }),
{
    let session = pre.sessions[session_for(pre.sessions, correlation)->0];
    crate::ledger::law_settlement_is_idempotent(
        pre.ledger,
        session.order_id,
        session.terms_hash,
        now,
        session.terms_hash,
        later,
    );
    crate::ledger::law_step_keeps_invariant(
        pre.ledger,
        session.order_id,
        EscrowAction::Settle,
        session.terms_hash,
        now,
    );
}

/// However many success reports for one escrow compete, from buyer,
/// watcher and indexer alike, and in whatever order exclusive access lets
/// them in, the outcome is that of the report that came first: where that
/// one succeeds, ledger and sessions after all of them are what they were
/// after the first, and every later report succeeds with the first one's
/// state and receipt identifier. So one receipt is minted and one payout
/// made, by the first report alone.
pub proof fn law_competing_success_reports(
    pre: ControllerView,
    policy: GatewayPolicyView,
    fees_bps: u32,
    reports: Seq<(Seq<char>, u64)>,
)
    requires
        pre.ledger.wf(),
        reports.len() >= 1,
        pre.reconciled(policy, fees_bps, reports[0].0, true, reports[0].1) is Ok,
        forall|i: int|
            0 <= i < reports.len() ==> session_for(pre.sessions, (#[trigger] reports[i]).0)
                == session_for(pre.sessions, reports[0].0),
    ensures
        ({
            let (settled, first) = pre.reconciled(
                policy,
                fees_bps,
                reports[0].0,
                true,
                reports[0].1,
            )->Ok_0;
            &&& pre.reported(policy, fees_bps, reports) == settled
            &&& first.state == EscrowState::Settled
            &&& first.receipt is Some
            &&& forall|i: int|
                1 <= i < reports.len() ==> settled.reconciled(
                    policy,
                    fees_bps,
                    (#[trigger] reports[i]).0,
                    true,
                    reports[i].1,
                ) == Ok::<(ControllerView, Transition), ControllerError>((settled, first))
        }),
    decreases reports.len(),
{
    let (settled, first) = pre.reconciled(policy, fees_bps, reports[0].0, true, reports[0].1)->Ok_0;
    assert forall|i: int| 1 <= i < reports.len() implies settled.reconciled(
        policy,
        fees_bps,
        (#[trigger] reports[i]).0,
        true,
        reports[i].1,
    ) == Ok::<(ControllerView, Transition), ControllerError>((settled, first)) by {
        law_success_reports_are_idempotent(
            pre,
            policy,
            fees_bps,
            reports[0].0,
            reports[0].1,
            reports[i].0,
            reports[i].1,
        );
    }
    law_success_reports_are_idempotent(
        pre,
        policy,
        fees_bps,
        reports[0].0,
        reports[0].1,
        reports[0].0,
        reports[0].1,
    );
    if reports.len() == 1 {
        assert(reports.drop_last().len() == 0);
        assert(pre.reported(policy, fees_bps, reports.drop_last()) == pre);
    } else {
        let earlier = reports.drop_last();
        assert(earlier[0] == reports[0]);
        assert forall|i: int| 0 <= i < earlier.len() implies session_for(
            pre.sessions,
            (#[trigger] earlier[i]).0,
        ) == session_for(pre.sessions, earlier[0].0) by {
            assert(earlier[i] == reports[i]);
        }
        law_competing_success_reports(pre, policy, fees_bps, earlier);
        assert(reports.last() == reports[reports.len() - 1]);
    }
}

/// A report of failure never settles: whatever it leads to, the escrow
/// does not end up `Settled` through it and no receipt is minted.
pub proof fn law_failure_reports_never_settle(
    pre: ControllerView,
    policy: GatewayPolicyView,
    fees_bps: u32,
    correlation: Seq<char>,
    now: u64,
)
    requires
        pre.reconciled(policy, fees_bps, correlation, false, now) is Ok,
    ensures
        ({
            let (next, outcome) = pre.reconciled(policy, fees_bps, correlation, false, now)->Ok_0;
            &&& outcome.state == EscrowState::Cancelled || outcome.state == EscrowState::Disputed
            &&& outcome.receipt is None
            &&& next.ledger.receipts == pre.ledger.receipts
        }),
{
}

} // verus!
