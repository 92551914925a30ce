//! The gateway: its status, the trait that routes orders, and the policy
//! that every request has to pass before the controller acts on it.

use vstd::prelude::*;
use vstd::string::StringExecFns;

verus! {

/// Upper end of the basis-point scale: 100%.
pub const BASIS_POINTS_MAX: u32 = 10000;

/// Why a gateway could not serve a call.
#[derive(Debug, Clone, PartialEq, Eq)]
pub struct GatewayError {
    pub reason: String,
}

/// Routes orders through a gateway. Implemented by whoever runs one.
pub trait Gateway {
    /// Routes an order and returns the route taken.
    fn route_order(&self, order_id: &str) -> Result<String, GatewayError>;

    /// Reports how the gateway is doing.
    fn status(&self) -> Result<GatewayStatus, GatewayError>;
}

/// Gateway status information.
#[derive(Debug, Clone)]
pub struct GatewayStatus {
    pub online: bool,
    pub active_orders: usize,
    pub version: String,
}

impl Default for GatewayStatus {
    /// An online gateway with no active orders, at this library's version.
    fn default() -> (r: Self)
        ensures
            r.online,
            r.active_orders == 0,
            r.version@ == crate::VERSION@,
    {
        GatewayStatus { online: true, active_orders: 0, version: String::from_str(crate::VERSION) }
    }
}

/// The field of a request that a policy objected to.
#[derive(Debug, Clone, Copy, PartialEq, Eq, Structural)]
pub enum PolicyField {
    ProofType,
    MaxFeesBps,
    Expiry,
}

impl PolicyField {
    /// The field's name as it appears in a request.
    pub open spec fn spec_name(self) -> Seq<char> {
        match self {
            PolicyField::ProofType => "proof_type"@,
            PolicyField::MaxFeesBps => "max_fees_bps"@,
            PolicyField::Expiry => "expiry_secs"@,
        }
    }

    /// The field's name as it appears in a request.
    pub fn name(&self) -> (r: &'static str)
        ensures
            r@ == self.spec_name(),
    {
        match self {
            PolicyField::ProofType => "proof_type",
            PolicyField::MaxFeesBps => "max_fees_bps",
            PolicyField::Expiry => "expiry_secs",
        }
    }
}

/// A policy rejection, naming the offending field.
#[derive(Debug, Clone, Copy, PartialEq, Eq, Structural)]
pub struct PolicyError {
    pub field: PolicyField,
}

/// What an inbound query asks for: a kind of proof and economic terms.
#[derive(Debug, Clone, PartialEq, Eq)]
pub struct SessionRequest {
    /// The kind of proof requested.
    pub proof_type: String,
    /// The fees the requester is willing to bear, in basis points.
    pub max_fees_bps: u32,
    /// How long the terms are asked to stay valid, in seconds, if bounded.
    pub expiry_secs: Option<u64>,
}

/// The view of a [`SessionRequest`].
pub struct SessionRequestView {
    pub proof_type: Seq<char>,
    pub max_fees_bps: u32,
    pub expiry_secs: Option<u64>,
}

impl View for SessionRequest {
    type V = SessionRequestView;

    open spec fn view(&self) -> SessionRequestView {
        SessionRequestView {
            proof_type: self.proof_type@,
            max_fees_bps: self.max_fees_bps,
            expiry_secs: self.expiry_secs,
        }
    }
}

/// The proof type of a request that involves no proof.
pub open spec fn proof_type_none() -> Seq<char> {
    "none"@
}

/// The proof type of a request for a proof of ownership.
pub open spec fn proof_type_ownership() -> Seq<char> {
    "ownership"@
}

/// Fees that the default request asks for, in basis points.
pub const DEFAULT_FEES_BPS: u32 = 50;

impl Default for SessionRequest {
    /// A request for an ownership proof at the default fees, without expiry.
    fn default() -> (r: Self)
        ensures
            r@ == (SessionRequestView {
                proof_type: proof_type_ownership(),
                max_fees_bps: DEFAULT_FEES_BPS,
                expiry_secs: None,
            }),
    {
        SessionRequest {
            proof_type: String::from_str("ownership"),
            max_fees_bps: DEFAULT_FEES_BPS,
            expiry_secs: None,
        }
    }
}

/// The configured policy of a gateway.
#[derive(Debug, Clone, PartialEq, Eq)]
pub struct GatewayPolicy {
    /// The proof types that the gateway supports.
    pub supported_proof_types: Vec<String>,
    /// The highest fees that a request may ask for, in basis points.
    pub max_fees_bps: u32,
    /// The longest validity that a request may ask for, in seconds.
    pub max_expiry_secs: u64,
}

/// The view of a [`GatewayPolicy`].
pub struct GatewayPolicyView {
    pub supported_proof_types: Seq<Seq<char>>,
    pub max_fees_bps: u32,
    pub max_expiry_secs: u64,
}

impl GatewayPolicyView {
    /// The field that the policy objects to in a request, if any. The proof
    /// type is judged first, then the fees, then the expiry.
    pub open spec fn objection(self, request: SessionRequestView) -> Option<PolicyField> {
        if !self.supported_proof_types.contains(request.proof_type) {
            Some(PolicyField::ProofType)
        } else if request.max_fees_bps > self.max_fees_bps || request.max_fees_bps
            > BASIS_POINTS_MAX {
            Some(PolicyField::MaxFeesBps)
        } else if request.expiry_secs matches Some(e) && e > self.max_expiry_secs {
            Some(PolicyField::Expiry)
        } else {
            None
        }
    }
}

impl View for GatewayPolicy {
    type V = GatewayPolicyView;

    open spec fn view(&self) -> GatewayPolicyView {
        GatewayPolicyView {
            supported_proof_types: self.supported_proof_types@.map_values(|s: String| s@),
            max_fees_bps: self.max_fees_bps,
            max_expiry_secs: self.max_expiry_secs,
        }
    }
}

/// Highest fees that the default policy admits, in basis points.
pub const DEFAULT_POLICY_FEES_BPS: u32 = 1000;

/// Longest validity that the default policy admits: one day.
pub const DEFAULT_POLICY_EXPIRY_SECS: u64 = 86400;

impl Default for GatewayPolicy {
    /// The default policy: requests without proof and requests for an
    /// ownership proof, fees up to 10%, validity up to one day.
    fn default() -> (r: Self)
        ensures
            r@ == (GatewayPolicyView {
                supported_proof_types: seq![proof_type_none(), proof_type_ownership()],
                max_fees_bps: DEFAULT_POLICY_FEES_BPS,
                max_expiry_secs: DEFAULT_POLICY_EXPIRY_SECS,
            }),
    {
        let mut supported: Vec<String> = Vec::new();
        supported.push(String::from_str("none"));
        supported.push(String::from_str("ownership"));
        let r = GatewayPolicy {
            supported_proof_types: supported,
            max_fees_bps: DEFAULT_POLICY_FEES_BPS,
            max_expiry_secs: DEFAULT_POLICY_EXPIRY_SECS,
        };
        assert(r@.supported_proof_types =~= seq![proof_type_none(), proof_type_ownership()]);
        r
    }
}

impl GatewayPolicy {
    /// Whether the policy supports a proof type.
    pub fn supports(&self, proof_type: &String) -> (r: bool)
        ensures
            r == self@.supported_proof_types.contains(proof_type@),
    {
        let mut i: usize = 0;
        while i < self.supported_proof_types.len()
            invariant
                i <= self.supported_proof_types.len(),
                forall|j: int| 0 <= j < i ==> self@.supported_proof_types[j] != proof_type@,
            decreases self.supported_proof_types.len() - i,
        {
            if self.supported_proof_types[i] == *proof_type {
                assert(self@.supported_proof_types[i as int] == proof_type@);
                return true;
            }
            i += 1;
        }
        false
    }

    /// Judges a request: accepted when its proof type is supported, its
    /// fees are within the policy's bound and the basis-point scale, and its
    /// expiry, if any, is within the policy's bound. A rejection names the
    /// first offending field.
    pub fn check(&self, request: &SessionRequest) -> (r: Result<(), PolicyError>)
        ensures
            match self@.objection(request@) {
                Some(field) => r == Err::<(), PolicyError>(PolicyError { field }),
                None => r is Ok,
            },
    {
        if !self.supports(&request.proof_type) {
            return Err(PolicyError { field: PolicyField::ProofType });
        }
        if request.max_fees_bps > self.max_fees_bps || request.max_fees_bps > BASIS_POINTS_MAX {
            return Err(PolicyError { field: PolicyField::MaxFeesBps });
        }
        match request.expiry_secs {
            Some(e) => {
                if e > self.max_expiry_secs {
                    return Err(PolicyError { field: PolicyField::Expiry });
                }
            },
            None => {},
        }
        Ok(())
    }
}

/// A request whose proof type is not on the allow-list is rejected, and the
/// rejection names the proof type, whatever else the request asks for.
pub proof fn law_unlisted_proof_type_is_rejected(
    policy: GatewayPolicyView,
    request: SessionRequestView,
)
    requires
        !policy.supported_proof_types.contains(request.proof_type),
    ensures
        policy.objection(request) == Some(PolicyField::ProofType),
{
}

/// A request is accepted exactly when its proof type is on the allow-list,
/// its fees are within the policy's bound and the basis-point scale, and
/// its expiry, if it asks for one, is within the policy's bound.
pub proof fn law_acceptance(policy: GatewayPolicyView, request: SessionRequestView)
    ensures
        policy.objection(request) is None <==> policy.supported_proof_types.contains(
            request.proof_type,
        ) && request.max_fees_bps <= policy.max_fees_bps && request.max_fees_bps
            <= BASIS_POINTS_MAX && (request.expiry_secs matches Some(e) ==> e
            <= policy.max_expiry_secs),
{
}

} // verus!
