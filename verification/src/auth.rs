use vstd::prelude::*;

verus! {

/// The human role classes of the capability hierarchy, ordered
/// admin > manager > agent > client.
#[derive(Clone, Copy, Debug, PartialEq, Eq, Structural)]
pub enum Role {
    Admin,
    Manager,
    Agent,
    Client,
}

/// Position of a role in the hierarchy; a higher rank means more authority.
pub open spec fn rank(r: Role) -> int {
    match r {
        Role::Client => 0,
        Role::Agent => 1,
        Role::Manager => 2,
        Role::Admin => 3,
    }
}

/// The capabilities a caller presents with a call: which badges it holds,
/// and whether the call is the component acting as itself (the system
/// principal used inside its own permission rules).
#[derive(Clone, Copy, Debug, PartialEq, Eq, Structural)]
pub struct Caller {
    pub has_owner_badge: bool,
    pub has_manager_badge: bool,
    pub has_agent_badge: bool,
    pub has_client_badge: bool,
    pub is_component: bool,
}

/// The caller that presents exactly the badge of one role. Admin authority
/// is proved by holding the owner capability.
pub open spec fn spec_caller_with_role(role: Role) -> Caller {
    Caller {
        has_owner_badge: role is Admin,
        has_manager_badge: role is Manager,
        has_agent_badge: role is Agent,
        has_client_badge: role is Client,
        is_component: false,
    }
}

impl Caller {
    /// A caller holding exactly the badge of the given role.
    pub fn with_role(role: Role) -> (c: Caller)
        ensures
            c == spec_caller_with_role(role),
    {
        Caller {
            has_owner_badge: matches!(role, Role::Admin),
            has_manager_badge: matches!(role, Role::Manager),
            has_agent_badge: matches!(role, Role::Agent),
            has_client_badge: matches!(role, Role::Client),
            is_component: false,
        }
    }
}

/// The principals a `Require` rule accepts: presenting any one of the
/// marked capabilities satisfies the rule.
#[derive(Clone, Copy, Debug, PartialEq, Eq, Structural)]
pub struct PrincipalSet {
    pub owner: bool,
    pub component: bool,
    pub manager_badge: bool,
    pub agent_badge: bool,
    pub client_badge: bool,
}

/// A declarative permission rule: a predicate over the capabilities the
/// caller presents, evaluated before the guarded operation runs.
#[derive(Clone, Copy, Debug, PartialEq, Eq, Structural)]
pub enum AccessRule {
    AllowAll,
    DenyAll,
    Require(PrincipalSet),
}

impl AccessRule {
    /// What the rule admits.
    pub open spec fn spec_allows(self, c: Caller) -> bool {
        match self {
            AccessRule::AllowAll => true,
            AccessRule::DenyAll => false,
            AccessRule::Require(s) => {
                ||| s.owner && c.has_owner_badge
                ||| s.component && c.is_component
                ||| s.manager_badge && c.has_manager_badge
                ||| s.agent_badge && c.has_agent_badge
                ||| s.client_badge && c.has_client_badge
            },
        }
    }

    /// Evaluate the rule against the capabilities the caller presents.
    pub fn allows(&self, c: &Caller) -> (r: bool)
        ensures
            r == self.spec_allows(*c),
    {
        match self {
            AccessRule::AllowAll => true,
            AccessRule::DenyAll => false,
            AccessRule::Require(s) => {
                (s.owner && c.has_owner_badge)
                    || (s.component && c.is_component)
                    || (s.manager_badge && c.has_manager_badge)
                    || (s.agent_badge && c.has_agent_badge)
                    || (s.client_badge && c.has_client_badge)
            },
        }
    }
}

/// The badge set of every role at or above the given role: the rule the
/// identity-creation and price-change operations are declared with.
pub open spec fn spec_roles_at_or_above(r: Role) -> PrincipalSet {
    PrincipalSet {
        owner: true,
        component: false,
        manager_badge: rank(r) <= rank(Role::Manager),
        agent_badge: rank(r) <= rank(Role::Agent),
        client_badge: rank(r) <= rank(Role::Client),
    }
}

/// The rule admitting the given role and everything above it.
pub fn roles_at_or_above(r: Role) -> (s: PrincipalSet)
    ensures
        s == spec_roles_at_or_above(r),
{
    match r {
        Role::Admin => PrincipalSet {
            owner: true,
            component: false,
            manager_badge: false,
            agent_badge: false,
            client_badge: false,
        },
        Role::Manager => PrincipalSet {
            owner: true,
            component: false,
            manager_badge: true,
            agent_badge: false,
            client_badge: false,
        },
        Role::Agent => PrincipalSet {
            owner: true,
            component: false,
            manager_badge: true,
            agent_badge: true,
            client_badge: false,
        },
        Role::Client => PrincipalSet {
            owner: true,
            component: false,
            manager_badge: true,
            agent_badge: true,
            client_badge: true,
        },
    }
}

/// The rule of the exchange operation: client-badge holders only.
pub open spec fn spec_client_only() -> PrincipalSet {
    PrincipalSet {
        owner: false,
        component: false,
        manager_badge: false,
        agent_badge: false,
        client_badge: true,
    }
}

/// The rule of the exchange operation: client-badge holders only.
pub fn client_only() -> (s: PrincipalSet)
    ensures
        s == spec_client_only(),
{
    PrincipalSet {
        owner: false,
        component: false,
        manager_badge: false,
        agent_badge: false,
        client_badge: true,
    }
}

/// The rule of the real-world-asset mint operations: client-badge holders
/// and the admin (owner capability).
pub open spec fn spec_client_or_admin() -> PrincipalSet {
    PrincipalSet {
        owner: true,
        component: false,
        manager_badge: false,
        agent_badge: false,
        client_badge: true,
    }
}

/// The rule of the real-world-asset mint operations.
pub fn client_or_admin() -> (s: PrincipalSet)
    ensures
        s == spec_client_or_admin(),
{
    PrincipalSet {
        owner: true,
        component: false,
        manager_badge: false,
        agent_badge: false,
        client_badge: true,
    }
}

/// A lifecycle action of a resource class: the rule gating the action and
/// the rule gating who may reassign it.
#[derive(Clone, Copy, Debug, PartialEq, Eq, Structural)]
pub struct ActionRule {
    pub rule: AccessRule,
    pub updater: AccessRule,
}

/// The declared permission rules of one resource class, one per lifecycle
/// action the ledger enforces.
#[derive(Clone, Copy, Debug, PartialEq, Eq, Structural)]
pub struct ResourcePolicy {
    pub mint: ActionRule,
    pub burn: ActionRule,
    pub withdraw: ActionRule,
    pub deposit: ActionRule,
    pub freeze: ActionRule,
    pub recall: ActionRule,
}

/// A caller whose role stands strictly below the required role is turned
/// away by the rule that admits the required role and everything above it.
pub proof fn lemma_strictly_lower_role_denied(caller_role: Role, required: Role)
    requires
        rank(caller_role) < rank(required),
    ensures
        !AccessRule::Require(spec_roles_at_or_above(required)).spec_allows(
            spec_caller_with_role(caller_role),
        ),
{
}

/// A caller whose role stands at or above the required role passes the rule
/// that admits the required role and everything above it: the hierarchy is
/// nested.
pub proof fn lemma_at_or_above_role_allowed(caller_role: Role, required: Role)
    requires
        rank(caller_role) >= rank(required),
    ensures
        AccessRule::Require(spec_roles_at_or_above(required)).spec_allows(
            spec_caller_with_role(caller_role),
        ),
{
}

} // verus!
