//! Tenant isolation and role-based authorization.
//!
//! The tenant-boundary check is unconditional and takes precedence over any
//! permission check; token-scoped permissions, when present, fully replace
//! the role-derived set.

use vstd::prelude::*;
use vstd::string::StringExecFns;
use crate::rate::TenantRateLimitConfig;
use crate::text::str_eq;

verus! {

/// Actions that can be performed on resources.
#[derive(Debug, Clone, Copy, PartialEq, Eq, Structural, Hash)]
pub enum Permission {
    Read,
    Write,
    Admin,
    Federation,
}

/// Roles assignable to tenant members.
#[derive(Debug, Clone, Copy, PartialEq, Eq, Structural, Hash)]
pub enum Role {
    Reader,
    Contributor,
    Admin,
    SystemService,
}

/// Resource descriptor used for access checks.
#[derive(Debug, Clone, PartialEq, Eq, Hash)]
pub struct Resource {
    /// The owning tenant ID embedded in the resource.
    pub tenant_id: String,
    /// Resource type (e.g. "run", "artifact", "checkpoint").
    pub resource_type: String,
    /// Resource identifier.
    pub resource_id: String,
}

/// A SQL filter fragment with its bind value.
#[derive(Debug, Clone, PartialEq, Eq)]
pub struct TenantFilter {
    pub clause: String,
    pub value: String,
}

/// Token claims extracted from request authentication.
#[derive(Debug, Clone)]
pub struct TokenClaims {
    pub tenant_id: String,
    pub role: Role,
    /// Optional explicit permission overrides from the token; when present
    /// they replace the role-derived set entirely.
    pub scoped_permissions: Option<Vec<Permission>>,
}

/// Errors produced by the authorization framework.
#[derive(Debug, Clone, PartialEq, Eq)]
pub enum AuthzError {
    /// The action is not permitted for this role.
    PermissionDenied { role: Role, required: Permission },
    /// Attempted cross-tenant resource access.
    CrossTenantAccess { requesting_tenant: String, resource_tenant: String },
    /// Rate limit exceeded.
    RateLimitExceeded { tenant_id: String, limit: u64 },
}

/// The display name of a role.
pub open spec fn spec_role_label(role: Role) -> Seq<char> {
    match role {
        Role::Reader => "Reader"@,
        Role::Contributor => "Contributor"@,
        Role::Admin => "Admin"@,
        Role::SystemService => "SystemService"@,
    }
}

/// The display name of a permission.
pub open spec fn spec_permission_label(p: Permission) -> Seq<char> {
    match p {
        Permission::Read => "Read"@,
        Permission::Write => "Write"@,
        Permission::Admin => "Admin"@,
        Permission::Federation => "Federation"@,
    }
}

/// The display name of a role.
pub fn role_label(role: Role) -> (r: &'static str)
    ensures
        r@ == spec_role_label(role),
{
    match role {
        Role::Reader => "Reader",
        Role::Contributor => "Contributor",
        Role::Admin => "Admin",
        Role::SystemService => "SystemService",
    }
}

/// The display name of a permission.
pub fn permission_label(p: Permission) -> (r: &'static str)
    ensures
        r@ == spec_permission_label(p),
{
    match p {
        Permission::Read => "Read",
        Permission::Write => "Write",
        Permission::Admin => "Admin",
        Permission::Federation => "Federation",
    }
}

impl AuthzError {
    /// A human-readable account of the refusal.
    pub fn message(&self) -> (r: String)
        ensures
            (self matches AuthzError::PermissionDenied { role, required } ==> r@ == "role "@
                + spec_role_label(*role) + " lacks "@ + spec_permission_label(*required)
                + " permission"@),
            (self matches AuthzError::CrossTenantAccess { requesting_tenant, resource_tenant }
                ==> r@ == "tenant "@ + requesting_tenant@ + " cannot access resources of tenant "@
                + resource_tenant@),
            (self matches AuthzError::RateLimitExceeded { tenant_id, limit } ==> r@ == "tenant "@
                + tenant_id@ + " exceeded rate limit ("@ + crate::text::dec_chars(limit as nat)
                + " rpm)"@),
    {
        match self {
            AuthzError::PermissionDenied { role, required } => {
                let mut out = String::new();
                out.append("role ");
                out.append(role_label(*role));
                out.append(" lacks ");
                out.append(permission_label(*required));
                out.append(" permission");
                out
            },
            AuthzError::CrossTenantAccess { requesting_tenant, resource_tenant } => {
                let mut out = String::new();
                out.append("tenant ");
                out.append(requesting_tenant.as_str());
                out.append(" cannot access resources of tenant ");
                out.append(resource_tenant.as_str());
                out
            },
            AuthzError::RateLimitExceeded { tenant_id, limit } => {
                let mut out = String::new();
                out.append("tenant ");
                out.append(tenant_id.as_str());
                out.append(" exceeded rate limit (");
                crate::text::push_dec_str(&mut out, *limit);
                out.append(" rpm)");
                out
            },
        }
    }
}

/// One row of the role-permission matrix.
#[derive(Debug, Clone)]
pub struct AuthzRule {
    pub role: Role,
    pub resource_type: String,
    pub permissions: Vec<Permission>,
}

/// Maps roles to allowed permissions per resource type.
///
/// The default policy applies broadly (resource type `"*"`); a more specific
/// resource-type entry overrides the wildcard.
#[derive(Debug, Clone)]
pub struct AuthzPolicy {
    /// Ordered (role, resource type) entries; the first match wins.
    pub rules: Vec<AuthzRule>,
}

/// The entry applies to this role and resource type.
pub open spec fn rule_key_matches(rule: AuthzRule, role: Role, rt: Seq<char>) -> bool {
    rule.role == role && rule.resource_type@ == rt
}

/// First-match lookup in the matrix, scanning from entry `i`.
pub open spec fn spec_lookup_from(
    rules: Seq<AuthzRule>,
    role: Role,
    rt: Seq<char>,
    i: int,
) -> Option<Seq<Permission>>
    decreases rules.len() - i,
{
    if i < 0 || i >= rules.len() {
        None
    } else if rule_key_matches(rules[i], role, rt) {
        Some(rules[i].permissions@)
    } else {
        spec_lookup_from(rules, role, rt, i + 1)
    }
}

/// First-match lookup in the matrix.
pub open spec fn spec_lookup(rules: Seq<AuthzRule>, role: Role, rt: Seq<char>) -> Option<
    Seq<Permission>,
> {
    spec_lookup_from(rules, role, rt, 0)
}

/// The effective permission set for a role and resource type: the specific
/// entry when present, else the wildcard entry, else empty.
pub open spec fn spec_perms_for(rules: Seq<AuthzRule>, role: Role, rt: Seq<char>) -> Seq<
    Permission,
> {
    match spec_lookup(rules, role, rt) {
        Some(p) => p,
        None => match spec_lookup(rules, role, "*"@) {
            Some(p) => p,
            None => Seq::empty(),
        },
    }
}

/// The permission set the default policy grants each role.
pub open spec fn role_default_perms(role: Role) -> Seq<Permission> {
    match role {
        Role::Reader => seq![Permission::Read],
        Role::Contributor => seq![Permission::Read, Permission::Write],
        Role::Admin => seq![
            Permission::Read,
            Permission::Write,
            Permission::Admin,
            Permission::Federation,
        ],
        Role::SystemService => seq![Permission::Read, Permission::Write, Permission::Federation],
    }
}

/// Whether the default policy grants `p` to `role`.
pub open spec fn role_has_default_perm(role: Role, p: Permission) -> bool {
    match role {
        Role::Reader => p == Permission::Read,
        Role::Contributor => p == Permission::Read || p == Permission::Write,
        Role::Admin => true,
        Role::SystemService => p != Permission::Admin,
    }
}

/// The shape of the default role-permission matrix: one wildcard entry per
/// role, in declaration order.
pub open spec fn is_default_policy(policy: AuthzPolicy) -> bool {
    &&& policy.rules@.len() == 4
    &&& policy.rules@[0].role == Role::Reader
    &&& policy.rules@[1].role == Role::Contributor
    &&& policy.rules@[2].role == Role::Admin
    &&& policy.rules@[3].role == Role::SystemService
    &&& forall|i: int| 0 <= i < 4 ==> (#[trigger] policy.rules@[i]).resource_type@ == "*"@
    &&& forall|i: int|
        0 <= i < 4 ==> (#[trigger] policy.rules@[i]).permissions@ == role_default_perms(
            policy.rules@[i].role,
        )
}

impl Default for AuthzPolicy {
    /// The built-in matrix: Reader is read-only, Contributor reads and
    /// writes, Admin has everything, SystemService has everything but Admin.
    fn default() -> (r: Self)
        ensures
            is_default_policy(r),
    {
        let mut rules: Vec<AuthzRule> = Vec::new();
        rules.push(
            AuthzRule {
                role: Role::Reader,
                resource_type: String::from_str("*"),
                permissions: vec![Permission::Read],
            },
        );
        rules.push(
            AuthzRule {
                role: Role::Contributor,
                resource_type: String::from_str("*"),
                permissions: vec![Permission::Read, Permission::Write],
            },
        );
        rules.push(
            AuthzRule {
                role: Role::Admin,
                resource_type: String::from_str("*"),
                permissions: vec![
                    Permission::Read,
                    Permission::Write,
                    Permission::Admin,
                    Permission::Federation,
                ],
            },
        );
        rules.push(
            AuthzRule {
                role: Role::SystemService,
                resource_type: String::from_str("*"),
                permissions: vec![Permission::Read, Permission::Write, Permission::Federation],
            },
        );
        proof {
            assert(rules@.len() == 4);
            assert(rules@[0].permissions@ =~= role_default_perms(Role::Reader));
            assert(rules@[1].permissions@ =~= role_default_perms(Role::Contributor));
            assert(rules@[2].permissions@ =~= role_default_perms(Role::Admin));
            assert(rules@[3].permissions@ =~= role_default_perms(Role::SystemService));
        }
        AuthzPolicy { rules }
    }
}

/// Scanning from `i` over entries that do not match is the same as scanning
/// from the start.
proof fn lemma_lookup_skip(rules: Seq<AuthzRule>, role: Role, rt: Seq<char>, i: int)
    requires
        0 <= i <= rules.len(),
        forall|k: int| 0 <= k < i ==> !rule_key_matches(#[trigger] rules[k], role, rt),
    ensures
        spec_lookup_from(rules, role, rt, 0) == spec_lookup_from(rules, role, rt, i),
    decreases i,
{
    if i > 0 {
        lemma_lookup_skip(rules, role, rt, i - 1);
        assert(spec_lookup_from(rules, role, rt, i - 1) == spec_lookup_from(rules, role, rt, i));
    }
}

/// In the default matrix, every resource type resolves to the role's wildcard
/// entry, so the effective set is the role's default permission set.
pub proof fn lemma_default_policy_perms(policy: AuthzPolicy, role: Role, rt: Seq<char>)
    requires
        is_default_policy(policy),
    ensures
        spec_perms_for(policy.rules@, role, rt) == role_default_perms(role),
{
    let rules = policy.rules@;
    reveal_with_fuel(spec_lookup_from, 6);
    assert(spec_lookup_from(rules, role, rt, 4) is None);
    assert(spec_lookup_from(rules, role, "*"@, 4) is None);
}

/// Copy a permission vector.
fn copy_perms(v: &Vec<Permission>) -> (r: Vec<Permission>)
    ensures
        r@ == v@,
{
    let mut out: Vec<Permission> = Vec::new();
    let mut i: usize = 0;
    while i < v.len()
        invariant
            i <= v@.len(),
            out@ == v@.subrange(0, i as int),
        decreases v@.len() - i,
    {
        out.push(v[i]);
        assert(out@ =~= v@.subrange(0, i + 1));
        i = i + 1;
    }
    assert(v@.subrange(0, v@.len() as int) =~= v@);
    out
}

/// Linear membership test over a permission vector.
pub fn has_permission(v: &Vec<Permission>, p: Permission) -> (r: bool)
    ensures
        r == v@.contains(p),
{
    let mut i: usize = 0;
    while i < v.len()
        invariant
            i <= v@.len(),
            forall|k: int| 0 <= k < i ==> v@[k] != p,
        decreases v@.len() - i,
    {
        if v[i] == p {
            return true;
        }
        i = i + 1;
    }
    false
}

impl AuthzPolicy {
    /// Resolve the effective permission set for a role under the wildcard
    /// resource type.
    pub fn permissions_for_role(&self, role: &Role) -> (r: Vec<Permission>)
        ensures
            r@ == spec_perms_for(self.rules@, *role, "*"@),
    {
        self.permissions_for_role_resource(role, "*")
    }

    /// Resolve permissions for a role scoped to a specific resource type,
    /// falling back to the wildcard entry.
    pub fn permissions_for_role_resource(&self, role: &Role, resource_type: &str) -> (r: Vec<
        Permission,
    >)
        ensures
            r@ == spec_perms_for(self.rules@, *role, resource_type@),
    {
        match self.lookup(role, resource_type) {
            Some(p) => p,
            None => match self.lookup(role, "*") {
                Some(p) => p,
                None => Vec::new(),
            },
        }
    }

    /// First entry whose role and resource type match, if any.
    fn lookup(&self, role: &Role, resource_type: &str) -> (r: Option<Vec<Permission>>)
        ensures
            match r {
                Some(p) => spec_lookup(self.rules@, *role, resource_type@) == Some(p@),
                None => spec_lookup(self.rules@, *role, resource_type@) is None,
            },
    {
        let rules = &self.rules;
        let mut i: usize = 0;
        while i < rules.len()
            invariant
                rules@ == self.rules@,
                i <= rules@.len(),
                forall|k: int|
                    0 <= k < i ==> !rule_key_matches(#[trigger] rules@[k], *role, resource_type@),
            decreases rules@.len() - i,
        {
            let rule = &rules[i];
            if rule.role == *role && str_eq(rule.resource_type.as_str(), resource_type) {
                proof {
                    lemma_lookup_skip(rules@, *role, resource_type@, i as int);
                    assert(rule_key_matches(rules@[i as int], *role, resource_type@));
                    assert(spec_lookup_from(rules@, *role, resource_type@, i as int) == Some(
                        rules@[i as int].permissions@,
                    ));
                }
                return Some(copy_perms(&rule.permissions));
            }
            i = i + 1;
        }
        proof {
            lemma_lookup_skip(rules@, *role, resource_type@, rules@.len() as int);
        }
        None
    }
}

/// Tenant context extracted from a request, carrying identity, role,
/// permissions, and rate-limit configuration.
#[derive(Debug, Clone)]
pub struct TenantContext {
    pub tenant_id: String,
    pub role: Role,
    pub permissions: Vec<Permission>,
    pub rate_limit_config: TenantRateLimitConfig,
}

impl TenantContext {
    /// Build a `TenantContext` from a tenant ID and role, deriving
    /// permissions from the default [`AuthzPolicy`].
    pub fn new(tenant_id: String, role: Role) -> (r: Self)
        ensures
            r.tenant_id@ == tenant_id@,
            r.role == role,
            r.permissions@ == role_default_perms(role),
            (r.rate_limit_config == TenantRateLimitConfig {
                requests_per_minute: 120,
                burst_limit: 20,
                quota_bytes: 5368709120,
            }),
    {
        let policy = AuthzPolicy::default();
        let permissions = policy.permissions_for_role(&role);
        proof {
            lemma_default_policy_perms(policy, role, "*"@);
        }
        TenantContext { tenant_id, role, permissions, rate_limit_config: Default::default() }
    }

    /// Replace the rate-limit configuration.
    pub fn with_rate_limit(self, config: TenantRateLimitConfig) -> (r: Self)
        ensures
            r.tenant_id@ == self.tenant_id@,
            r.role == self.role,
            r.permissions@ == self.permissions@,
            r.rate_limit_config == config,
    {
        TenantContext {
            tenant_id: self.tenant_id,
            role: self.role,
            permissions: self.permissions,
            rate_limit_config: config,
        }
    }
}

/// Validate that `ctx` owns `resource` (tenant boundary check).
pub fn validate_tenant_access(ctx: &TenantContext, resource: &Resource) -> (r: Result<
    (),
    AuthzError,
>)
    ensures
        (ctx.tenant_id@ == resource.tenant_id@ <==> r is Ok),
        (r matches Err(e) ==> (e matches AuthzError::CrossTenantAccess {
            requesting_tenant,
            resource_tenant,
        } && requesting_tenant@ == ctx.tenant_id@ && resource_tenant@ == resource.tenant_id@)),
{
    if str_eq(ctx.tenant_id.as_str(), resource.tenant_id.as_str()) {
        Ok(())
    } else {
        Err(
            AuthzError::CrossTenantAccess {
                requesting_tenant: ctx.tenant_id.clone(),
                resource_tenant: resource.tenant_id.clone(),
            },
        )
    }
}

/// Evaluate authorization: pure in-memory computation, no I/O.
///
/// The tenant boundary is checked first and unconditionally: mismatched
/// tenant IDs fail with `CrossTenantAccess` no matter which role or scoped
/// permissions the token carries.  Then the action is checked against the
/// token-scoped permissions when present, else the default role matrix.
pub fn evaluate_authz(claims: &TokenClaims, resource: &Resource, action: Permission) -> (r: Result<
    (),
    AuthzError,
>)
    ensures
        (claims.tenant_id@ != resource.tenant_id@ ==> (r matches Err(
            AuthzError::CrossTenantAccess { requesting_tenant, resource_tenant },
        ) && requesting_tenant@ == claims.tenant_id@ && resource_tenant@ == resource.tenant_id@)),
        claims.tenant_id@ == resource.tenant_id@ ==> {
            let effective = match claims.scoped_permissions {
                Some(scoped) => scoped@,
                None => role_default_perms(claims.role),
            };
            &&& (effective.contains(action) <==> r is Ok)
            &&& (r matches Err(e) ==> (e matches AuthzError::PermissionDenied { role, required }
                && role == claims.role && required == action))
        },
{
    // 1. Tenant boundary.
    if !str_eq(claims.tenant_id.as_str(), resource.tenant_id.as_str()) {
        return Err(
            AuthzError::CrossTenantAccess {
                requesting_tenant: claims.tenant_id.clone(),
                resource_tenant: resource.tenant_id.clone(),
            },
        );
    }

    // 2. Permission check: token-scoped overrides are authoritative.
    let policy = AuthzPolicy::default();
    let effective = match &claims.scoped_permissions {
        Some(scoped) => copy_perms(scoped),
        None => {
            let p = policy.permissions_for_role_resource(&claims.role, resource.resource_type.as_str());
            proof {
                lemma_default_policy_perms(policy, claims.role, resource.resource_type@);
            }
            p
        },
    };

    if has_permission(&effective, action) {
        Ok(())
    } else {
        Err(AuthzError::PermissionDenied { role: claims.role, required: action })
    }
}

/// Generate a blob-store key with tenant prefix for storage isolation.
///
/// Format: `tenants/{tenant_id}/{resource_type}/{id}`.  Every tenant-scoped
/// storage key in the fabric is built through this one helper.
pub fn partition_key(tenant_id: &str, resource_type: &str, id: &str) -> (r: String)
    ensures
        r@ == "tenants/"@ + tenant_id@ + "/"@ + resource_type@ + "/"@ + id@,
{
    let mut out = String::new();
    out.append("tenants/");
    out.append(tenant_id);
    out.append("/");
    out.append(resource_type);
    out.append("/");
    out.append(id);
    out
}

/// Return a SQL WHERE clause fragment for row-level tenant isolation.
///
/// The caller must bind `tenant_id` as a parameter at the returned
/// placeholder position.
pub fn tenant_query_filter(tenant_id: &str) -> (r: TenantFilter)
    ensures
        r.clause@ == "tenant_id = ?"@,
        r.value@ == tenant_id@,
{
    TenantFilter {
        clause: String::from_str("tenant_id = ?"),
        value: String::from_str(tenant_id),
    }
}

} // verus!
