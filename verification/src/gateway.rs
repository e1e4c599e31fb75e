//! Request-level tenant gateway: role extraction and per-route policy.
//!
//! Every inbound request carries a tenant ID and one of three roles.
//! Tenant provisioning and policy activation are admin-only; policy-rule
//! mutation is admin-only; a Viewer is read-only everywhere else and a
//! Builder may read and write the remaining routes.

use vstd::prelude::*;
use vstd::string::StringSliceAdditionalSpecFns;
use vstd::string::StringExecFns;
use crate::text::{bytes_eq, lower_bytes, lower_str_bytes, prefix_of, starts_with_bytes};

verus! {

/// The three gateway roles.
#[derive(Debug, Clone, Copy, PartialEq, Eq, Structural)]
pub enum TenantRole {
    Viewer,
    Builder,
    Admin,
}

/// The HTTP method of a request, as far as the route policy cares.
#[derive(Debug, Clone, Copy, PartialEq, Eq, Structural)]
pub enum HttpMethod {
    Get,
    Head,
    Post,
    Put,
    Patch,
    Delete,
    Options,
}

/// Tenant identity and role for one request; derived once, never persisted.
#[derive(Debug, Clone)]
pub struct TenantContext {
    pub tenant_id: String,
    pub role: TenantRole,
    pub federation_allowed: bool,
}

/// Why the gateway refused a request.
#[derive(Debug, Clone, Copy, PartialEq, Eq, Structural)]
pub enum GatewayError {
    /// The route is admin-only.
    AdminRequired,
    /// Policy-rule mutation is admin-only.
    PolicyRuleMutationRequiresAdmin,
    /// The viewer role is read-only.
    ViewerReadOnly,
    /// The role header names no known role.
    InvalidRole,
    /// The tenant ID header is missing or empty.
    MissingTenant,
}

impl TenantContext {
    /// The blob-store prefix that isolates this tenant's objects.
    pub fn r2_prefix(&self) -> (r: String)
        ensures
            r@ == "tenants/"@ + self.tenant_id@ + "/"@,
    {
        let mut out = String::new();
        out.append("tenants/");
        out.append(self.tenant_id.as_str());
        out.append("/");
        out
    }
}

/// Methods that only read.
pub open spec fn is_read_method(m: HttpMethod) -> bool {
    m == HttpMethod::Get || m == HttpMethod::Head || m == HttpMethod::Options
}

/// The route policy: admin-only routes first, then the rule-mutation rule,
/// then the viewer read-only rule.
pub open spec fn spec_authorize(role: TenantRole, method: HttpMethod, path: Seq<u8>) -> Result<
    (),
    GatewayError,
> {
    let read = is_read_method(method);
    let admin_path = prefix_of("/v1/tenants/".spec_bytes(), path) || prefix_of(
        "/v1/policies/activate".spec_bytes(),
        path,
    );
    let rules_path = prefix_of("/v1/policies/rules".spec_bytes(), path);
    if admin_path {
        if role != TenantRole::Admin {
            Err(GatewayError::AdminRequired)
        } else {
            Ok(())
        }
    } else if rules_path && !read && role != TenantRole::Admin {
        Err(GatewayError::PolicyRuleMutationRequiresAdmin)
    } else if role == TenantRole::Viewer && !read {
        Err(GatewayError::ViewerReadOnly)
    } else {
        Ok(())
    }
}

/// Check one request against the per-route role policy.
pub fn authorize(ctx: &TenantContext, method: HttpMethod, path: &str) -> (r: Result<
    (),
    GatewayError,
>)
    ensures
        r == spec_authorize(ctx.role, method, path.spec_bytes()),
{
    let p = path.as_bytes();
    let is_read = match method {
        HttpMethod::Get | HttpMethod::Head | HttpMethod::Options => true,
        _ => false,
    };

    // Tenant provisioning and policy activation are admin-only.
    if starts_with_bytes(p, "/v1/tenants/".as_bytes()) || starts_with_bytes(
        p,
        "/v1/policies/activate".as_bytes(),
    ) {
        if !matches!(ctx.role, TenantRole::Admin) {
            return Err(GatewayError::AdminRequired);
        }
        return Ok(());
    }

    // Policy-rule writes are admin-only.
    if starts_with_bytes(p, "/v1/policies/rules".as_bytes()) && !is_read && !matches!(
        ctx.role,
        TenantRole::Admin,
    ) {
        return Err(GatewayError::PolicyRuleMutationRequiresAdmin);
    }

    // Viewer is read-only everywhere else.
    if matches!(ctx.role, TenantRole::Viewer) && !is_read {
        return Err(GatewayError::ViewerReadOnly);
    }

    Ok(())
}

/// Which role a header value names, case-insensitively.
pub open spec fn spec_parse_role(v: Seq<u8>) -> Result<TenantRole, GatewayError> {
    let l = lower_bytes(v);
    if l == "viewer".spec_bytes() {
        Ok(TenantRole::Viewer)
    } else if l == "builder".spec_bytes() {
        Ok(TenantRole::Builder)
    } else if l == "admin".spec_bytes() {
        Ok(TenantRole::Admin)
    } else {
        Err(GatewayError::InvalidRole)
    }
}

/// Parse a role header value, case-insensitively.
pub fn parse_role(v: &str) -> (r: Result<TenantRole, GatewayError>)
    ensures
        r == spec_parse_role(v.spec_bytes()),
{
    let lowered = lower_str_bytes(v);
    let l = lowered.as_slice();
    if bytes_eq(l, "viewer".as_bytes()) {
        Ok(TenantRole::Viewer)
    } else if bytes_eq(l, "builder".as_bytes()) {
        Ok(TenantRole::Builder)
    } else if bytes_eq(l, "admin".as_bytes()) {
        Ok(TenantRole::Admin)
    } else {
        Err(GatewayError::InvalidRole)
    }
}

/// Build the request's tenant context from its header values: the tenant ID
/// is required and non-empty, the role defaults to `viewer`, and federation
/// is granted only by a header equal (case-insensitively) to `true`.
pub fn tenant_from_headers(
    tenant_id: Option<String>,
    role: Option<String>,
    federation: Option<String>,
) -> (r: Result<TenantContext, GatewayError>)
    ensures
        ((tenant_id is None || (tenant_id matches Some(t) && t@.len() == 0)) <==> r
            == Err::<TenantContext, GatewayError>(GatewayError::MissingTenant)),
        ({
            let role_bytes = match role {
                Some(s) => s@,
                None => "viewer"@,
            };
            &&& ((tenant_id matches Some(t) && t@.len() > 0 && spec_parse_role(
                crate::text::str_bytes(role_bytes),
            ) is Ok) <==> r is Ok)
            &&& ((tenant_id matches Some(t) && t@.len() > 0 && spec_parse_role(
                crate::text::str_bytes(role_bytes),
            ) is Err) <==> r == Err::<TenantContext, GatewayError>(GatewayError::InvalidRole))
        }),
        (r matches Ok(ctx) ==> {
            let role_bytes = match role {
                Some(s) => s@,
                None => "viewer"@,
            };
            &&& (tenant_id matches Some(t) && ctx.tenant_id@ == t@)
            &&& spec_parse_role(crate::text::str_bytes(role_bytes)) == Ok::<
                TenantRole,
                GatewayError,
            >(ctx.role)
            &&& ctx.federation_allowed == (federation matches Some(f) && lower_bytes(
                crate::text::str_bytes(f@),
            ) == "true".spec_bytes())
        }),
{
    let t = match tenant_id {
        Some(t) => t,
        None => {
            return Err(GatewayError::MissingTenant);
        },
    };
    if t.as_str().as_bytes().len() == 0 {
        proof {
            crate::text::lemma_str_bytes_empty(t@);
        }
        return Err(GatewayError::MissingTenant);
    }
    proof {
        crate::text::lemma_str_bytes_empty(t@);
    }
    let role_value = match role {
        Some(s) => s,
        None => String::from_str("viewer"),
    };
    let parsed = match parse_role(role_value.as_str()) {
        Ok(p) => p,
        Err(e) => {
            return Err(e);
        },
    };
    let federation_allowed = match &federation {
        Some(f) => {
            let lowered = lower_str_bytes(f.as_str());
            bytes_eq(lowered.as_slice(), "true".as_bytes())
        },
        None => false,
    };
    Ok(TenantContext { tenant_id: t, role: parsed, federation_allowed })
}

} // verus!
