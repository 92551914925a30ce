use tgp_escrow::gateway::{
    Gateway, GatewayError, GatewayPolicy, GatewayStatus, PolicyError, PolicyField, SessionRequest,
    BASIS_POINTS_MAX,
};
use tgp_escrow::VERSION;

#[test]
fn test_version() {
    assert!(!VERSION.is_empty());
}

#[test]
fn test_default_policy_allows_default_request() {
    let policy = GatewayPolicy::default();
    let request = SessionRequest::default();
    let result = policy.check(&request);
    assert!(result.is_ok());
}

#[test]
fn test_rejects_invalid_proof_type() {
    let mut request = SessionRequest::default();
    request.proof_type = "unsupported_proof".into();
    let result = GatewayPolicy::default().check(&request);
    assert!(result.is_err());
}

#[test]
fn rejection_names_the_proof_type() {
    let mut request = SessionRequest::default();
    request.proof_type = "unsupported_proof".into();
    let result = GatewayPolicy::default().check(&request);
    assert_eq!(result, Err(PolicyError { field: PolicyField::ProofType }));
    assert_eq!(PolicyField::ProofType.name(), "proof_type");
}

#[test]
fn default_request_and_policy_have_the_documented_values() {
    let request = SessionRequest::default();
    assert_eq!(request.proof_type, "ownership");
    assert_eq!(request.max_fees_bps, 50);
    assert_eq!(request.expiry_secs, None);
    let policy = GatewayPolicy::default();
    assert_eq!(policy.supported_proof_types, vec!["none".to_string(), "ownership".to_string()]);
    assert_eq!(policy.max_fees_bps, 1000);
    assert_eq!(policy.max_expiry_secs, 86400);
}

#[test]
fn policy_supports_exactly_the_listed_proof_types() {
    let policy = GatewayPolicy::default();
    assert!(policy.supports(&"none".to_string()));
    assert!(policy.supports(&"ownership".to_string()));
    assert!(!policy.supports(&"".to_string()));
    assert!(!policy.supports(&"Ownership".to_string()));
    let empty = GatewayPolicy { supported_proof_types: vec![], max_fees_bps: 10, max_expiry_secs: 10 };
    assert!(!empty.supports(&"none".to_string()));
}

#[test]
fn policy_rejects_fees_over_its_bound() {
    let policy = GatewayPolicy::default();
    let mut request = SessionRequest::default();
    request.max_fees_bps = 1000;
    assert_eq!(policy.check(&request), Ok(()));
    request.max_fees_bps = 1001;
    assert_eq!(policy.check(&request), Err(PolicyError { field: PolicyField::MaxFeesBps }));
    assert_eq!(PolicyField::MaxFeesBps.name(), "max_fees_bps");
}

#[test]
fn policy_rejects_fees_over_the_basis_point_scale() {
    let policy = GatewayPolicy {
        supported_proof_types: vec!["ownership".to_string()],
        max_fees_bps: u32::MAX,
        max_expiry_secs: 0,
    };
    let mut request = SessionRequest::default();
    request.max_fees_bps = BASIS_POINTS_MAX;
    assert_eq!(policy.check(&request), Ok(()));
    request.max_fees_bps = BASIS_POINTS_MAX + 1;
    assert_eq!(policy.check(&request), Err(PolicyError { field: PolicyField::MaxFeesBps }));
}

#[test]
fn policy_rejects_expiry_over_its_bound() {
    let policy = GatewayPolicy::default();
    let mut request = SessionRequest::default();
    request.expiry_secs = Some(86400);
    assert_eq!(policy.check(&request), Ok(()));
    request.expiry_secs = Some(86401);
    assert_eq!(policy.check(&request), Err(PolicyError { field: PolicyField::Expiry }));
    assert_eq!(PolicyField::Expiry.name(), "expiry_secs");
}

#[test]
fn policy_names_the_first_offending_field() {
    let policy = GatewayPolicy::default();
    let request = SessionRequest {
        proof_type: "unsupported_proof".into(),
        max_fees_bps: 20000,
        expiry_secs: Some(u64::MAX),
    };
    assert_eq!(policy.check(&request), Err(PolicyError { field: PolicyField::ProofType }));
    let request = SessionRequest {
        proof_type: "none".into(),
        max_fees_bps: 20000,
        expiry_secs: Some(u64::MAX),
    };
    assert_eq!(policy.check(&request), Err(PolicyError { field: PolicyField::MaxFeesBps }));
}

#[test]
fn default_gateway_status_is_online_and_idle() {
    let status = GatewayStatus::default();
    assert!(status.online);
    assert_eq!(status.active_orders, 0);
    assert_eq!(status.version, VERSION);
}

struct Desk {
    open: bool,
}

impl Gateway for Desk {
    fn route_order(&self, order_id: &str) -> Result<String, GatewayError> {
        if self.open {
            Ok(format!("desk/{}", order_id))
        } else {
            Err(GatewayError { reason: "closed".to_string() })
        }
    }

    fn status(&self) -> Result<GatewayStatus, GatewayError> {
        Ok(GatewayStatus { online: self.open, ..GatewayStatus::default() })
    }
}

#[test]
fn a_gateway_can_be_implemented_and_called() {
    let desk = Desk { open: true };
    assert_eq!(desk.route_order("o-1"), Ok("desk/o-1".to_string()));
    assert!(desk.status().unwrap().online);
    let desk = Desk { open: false };
    assert_eq!(desk.route_order("o-1"), Err(GatewayError { reason: "closed".to_string() }));
    assert!(!desk.status().unwrap().online);
}
