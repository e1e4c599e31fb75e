//! Gateway role parsing and per-route authorization.

use data_fabric::gateway::{
    authorize, parse_role, tenant_from_headers, GatewayError, HttpMethod, TenantContext,
    TenantRole,
};

fn ctx(role: TenantRole) -> TenantContext {
    TenantContext { tenant_id: "tenant-42".to_string(), role, federation_allowed: false }
}

// ── parse_role ─────────────────────────────────────────────────

#[test]
fn parse_role_valid_values() {
    assert_eq!(parse_role("viewer").unwrap(), TenantRole::Viewer);
    assert_eq!(parse_role("builder").unwrap(), TenantRole::Builder);
    assert_eq!(parse_role("admin").unwrap(), TenantRole::Admin);
}

#[test]
fn parse_role_case_insensitive() {
    assert_eq!(parse_role("VIEWER").unwrap(), TenantRole::Viewer);
    assert_eq!(parse_role("Builder").unwrap(), TenantRole::Builder);
    assert_eq!(parse_role("ADMIN").unwrap(), TenantRole::Admin);
}

#[test]
fn parse_role_invalid_returns_error() {
    assert!(parse_role("superadmin").is_err());
    assert!(parse_role("").is_err());
    assert!(parse_role("root").is_err());
}

// ── TenantContext::r2_prefix ───────────────────────────────────

#[test]
fn r2_prefix_format() {
    let tc = ctx(TenantRole::Viewer);
    assert_eq!(tc.r2_prefix(), "tenants/tenant-42/");
}

#[test]
fn r2_prefix_different_tenant() {
    let tc = TenantContext {
        tenant_id: "org-abc".to_string(),
        role: TenantRole::Admin,
        federation_allowed: true,
    };
    assert_eq!(tc.r2_prefix(), "tenants/org-abc/");
}

// ── authorize: admin paths ─────────────────────────────────────

#[test]
fn admin_can_access_tenant_provisioning() {
    assert!(authorize(&ctx(TenantRole::Admin), HttpMethod::Post, "/v1/tenants/provision").is_ok());
}

#[test]
fn viewer_cannot_access_tenant_provisioning() {
    assert!(
        authorize(&ctx(TenantRole::Viewer), HttpMethod::Post, "/v1/tenants/provision").is_err()
    );
}

#[test]
fn viewer_cannot_get_admin_only_paths() {
    // Admin-only paths deny all non-admin roles regardless of the method.
    assert!(authorize(&ctx(TenantRole::Viewer), HttpMethod::Get, "/v1/tenants/list").is_err());
    assert!(
        authorize(&ctx(TenantRole::Viewer), HttpMethod::Get, "/v1/policies/activate/v1").is_err()
    );
}

#[test]
fn builder_cannot_get_admin_only_paths() {
    assert!(authorize(&ctx(TenantRole::Builder), HttpMethod::Get, "/v1/tenants/list").is_err());
    assert!(
        authorize(&ctx(TenantRole::Builder), HttpMethod::Get, "/v1/policies/activate/v1").is_err()
    );
}

#[test]
fn admin_can_get_admin_only_paths() {
    assert!(authorize(&ctx(TenantRole::Admin), HttpMethod::Get, "/v1/tenants/list").is_ok());
    assert!(
        authorize(&ctx(TenantRole::Admin), HttpMethod::Get, "/v1/policies/activate/v1").is_ok()
    );
}

#[test]
fn builder_cannot_access_tenant_provisioning() {
    assert!(
        authorize(&ctx(TenantRole::Builder), HttpMethod::Post, "/v1/tenants/provision").is_err()
    );
}

#[test]
fn admin_can_activate_policy() {
    assert!(
        authorize(&ctx(TenantRole::Admin), HttpMethod::Post, "/v1/policies/activate/v1").is_ok()
    );
}

#[test]
fn viewer_cannot_activate_policy() {
    assert!(
        authorize(&ctx(TenantRole::Viewer), HttpMethod::Post, "/v1/policies/activate/v1").is_err()
    );
}

// ── authorize: policy rules paths ──────────────────────────────

#[test]
fn admin_can_write_policy_rules() {
    assert!(authorize(&ctx(TenantRole::Admin), HttpMethod::Post, "/v1/policies/rules").is_ok());
}

#[test]
fn builder_cannot_write_policy_rules() {
    assert!(authorize(&ctx(TenantRole::Builder), HttpMethod::Post, "/v1/policies/rules").is_err());
}

#[test]
fn viewer_can_read_policy_rules() {
    assert!(authorize(&ctx(TenantRole::Viewer), HttpMethod::Get, "/v1/policies/rules").is_ok());
}

// ── authorize: viewer read-only ────────────────────────────────

#[test]
fn viewer_can_read_general_paths() {
    assert!(authorize(&ctx(TenantRole::Viewer), HttpMethod::Get, "/v1/artifacts").is_ok());
    assert!(authorize(&ctx(TenantRole::Viewer), HttpMethod::Head, "/v1/artifacts").is_ok());
    assert!(authorize(&ctx(TenantRole::Viewer), HttpMethod::Options, "/v1/anything").is_ok());
}

#[test]
fn viewer_cannot_write_general_paths() {
    assert!(authorize(&ctx(TenantRole::Viewer), HttpMethod::Post, "/v1/artifacts").is_err());
    assert!(authorize(&ctx(TenantRole::Viewer), HttpMethod::Put, "/v1/artifacts").is_err());
    assert!(authorize(&ctx(TenantRole::Viewer), HttpMethod::Delete, "/v1/artifacts").is_err());
    assert!(authorize(&ctx(TenantRole::Viewer), HttpMethod::Patch, "/v1/artifacts").is_err());
}

// ── authorize: builder can write ───────────────────────────────

#[test]
fn builder_can_write_general_paths() {
    assert!(authorize(&ctx(TenantRole::Builder), HttpMethod::Post, "/v1/artifacts").is_ok());
    assert!(authorize(&ctx(TenantRole::Builder), HttpMethod::Put, "/v1/artifacts").is_ok());
    assert!(authorize(&ctx(TenantRole::Builder), HttpMethod::Delete, "/v1/artifacts").is_ok());
}

#[test]
fn builder_can_read_general_paths() {
    assert!(authorize(&ctx(TenantRole::Builder), HttpMethod::Get, "/v1/artifacts").is_ok());
}

// ── tenant_from_headers ────────────────────────────────────────

#[test]
fn headers_missing_tenant_rejected() {
    assert_eq!(
        tenant_from_headers(None, None, None).unwrap_err(),
        GatewayError::MissingTenant
    );
    assert_eq!(
        tenant_from_headers(Some("".to_string()), None, None).unwrap_err(),
        GatewayError::MissingTenant
    );
}

#[test]
fn headers_role_defaults_to_viewer() {
    let ctx = tenant_from_headers(Some("t1".to_string()), None, None).unwrap();
    assert_eq!(ctx.tenant_id, "t1");
    assert_eq!(ctx.role, TenantRole::Viewer);
    assert!(!ctx.federation_allowed);
}

#[test]
fn headers_invalid_role_rejected() {
    assert_eq!(
        tenant_from_headers(Some("t1".to_string()), Some("root".to_string()), None).unwrap_err(),
        GatewayError::InvalidRole
    );
}

#[test]
fn headers_federation_flag_case_insensitive() {
    let ctx = tenant_from_headers(
        Some("t1".to_string()),
        Some("admin".to_string()),
        Some("TRUE".to_string()),
    )
    .unwrap();
    assert!(ctx.federation_allowed);
    let ctx2 = tenant_from_headers(
        Some("t1".to_string()),
        Some("admin".to_string()),
        Some("false".to_string()),
    )
    .unwrap();
    assert!(!ctx2.federation_allowed);
}
