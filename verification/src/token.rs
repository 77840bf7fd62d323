use vstd::prelude::*;

use crate::amount::decimal_div_attos;
use crate::amount::div_attos;
use crate::amount::Amount;
use crate::amount::ATTOS_PER_UNIT;
use crate::assets::asset_mint_spec;
use crate::assets::badge_mint_spec;
use crate::assets::create_badge;
use crate::assets::spec_badge_policy;
use crate::assets::spec_component_only;
use crate::assets::AssetRegistry;
use crate::assets::BadgeClass;
use crate::assets::IdentityData;
use crate::assets::RealWorldAsset;
use crate::auth::client_only;
use crate::auth::client_or_admin;
use crate::auth::roles_at_or_above;
use crate::auth::spec_client_only;
use crate::auth::spec_client_or_admin;
use crate::auth::spec_roles_at_or_above;
use crate::auth::AccessRule;
use crate::auth::ActionRule;
use crate::auth::Caller;
use crate::auth::PrincipalSet;
use crate::auth::ResourcePolicy;
use crate::auth::Role;
use crate::errors::Error;

verus! {

/// The deterministic self-identity allocated to the component at bootstrap,
/// standing in for the host's address allocator.
pub const COMPONENT_ADDRESS: u64 = 1;

/// The resource handle of the owner capability.
pub const OWNER_BADGE_ADDRESS: u64 = 2;

/// The resource handle of the manager badge class.
pub const MANAGER_BADGE_ADDRESS: u64 = 3;

/// The resource handle of the agent badge class.
pub const AGENT_BADGE_ADDRESS: u64 = 4;

/// The resource handle of the client badge class.
pub const CLIENT_BADGE_ADDRESS: u64 = 5;

/// The resource handle of the security token.
pub const SECURE_TOKEN_ADDRESS: u64 = 6;

/// The resource handle of the non-fungible real-world-asset registry.
pub const ASSET_REGISTRY_ADDRESS: u64 = 7;

/// The fixed issuance of the security token, in whole units.
pub const INITIAL_SUPPLY_UNITS: u64 = 1_000_000;

/// The largest divisibility a fungible asset class may be declared with.
pub const MAX_DIVISIBILITY: u8 = 18;

/// A custodied holding of one resource: what the ledger keeps in a vault.
#[derive(Clone, Copy, Debug, PartialEq, Eq, Structural)]
pub struct Vault {
    pub resource_address: u64,
    pub balance: Amount,
}

/// A freshly minted, transferable holding of a fungible resource, handed
/// back to the caller for the host to deposit.
#[derive(Clone, Copy, Debug, PartialEq, Eq, Structural)]
pub struct FungibleBucket {
    pub resource_address: u64,
    pub divisibility: u8,
    pub amount: Amount,
}

/// A brand-new fungible real-world-asset class together with its full
/// initial supply: each mint call declares an independent class, never
/// further supply of an earlier one.
#[derive(Clone, Debug, PartialEq)]
pub struct FungibleAssetClass {
    pub name: String,
    pub asset_id: String,
    pub description: String,
    pub divisibility: u8,
    pub supply: Amount,
    pub policy: ResourcePolicy,
}

/// The resource handles an admin may read back from the component.
#[derive(Clone, Copy, Debug, PartialEq, Eq, Structural)]
pub struct Addresses {
    pub manager_badge: u64,
    pub agent_badge: u64,
    pub client_badge: u64,
    pub xrd_vault: u64,
}

/// The badge set that withdraws from and deposits to component-mediated
/// resources: client-badge holders, the owner, and the component itself.
pub open spec fn spec_custody_set() -> PrincipalSet {
    PrincipalSet {
        owner: true,
        component: true,
        manager_badge: false,
        agent_badge: false,
        client_badge: true,
    }
}

/// The set holding only the owner capability.
pub open spec fn spec_owner_only() -> PrincipalSet {
    PrincipalSet {
        owner: true,
        component: false,
        manager_badge: false,
        agent_badge: false,
        client_badge: false,
    }
}

/// The rules of a component-mediated resource (the security token and the
/// non-fungible asset registry): only the component itself mints, burns,
/// freezes and recalls, and only the owner capability may reassign those
/// rights; withdraw and deposit are open to client-badge holders, the owner
/// and the component.
pub open spec fn spec_component_mediated_policy() -> ResourcePolicy {
    ResourcePolicy {
        mint: ActionRule {
            rule: AccessRule::Require(spec_component_only()),
            updater: AccessRule::Require(spec_owner_only()),
        },
        burn: ActionRule {
            rule: AccessRule::Require(spec_component_only()),
            updater: AccessRule::Require(spec_owner_only()),
        },
        withdraw: ActionRule {
            rule: AccessRule::Require(spec_custody_set()),
            updater: AccessRule::Require(spec_owner_only()),
        },
        deposit: ActionRule {
            rule: AccessRule::Require(spec_custody_set()),
            updater: AccessRule::Require(spec_owner_only()),
        },
        freeze: ActionRule {
            rule: AccessRule::Require(spec_component_only()),
            updater: AccessRule::Require(spec_owner_only()),
        },
        recall: ActionRule {
            rule: AccessRule::Require(spec_component_only()),
            updater: AccessRule::Require(spec_owner_only()),
        },
    }
}

/// The rules of a component-mediated resource.
pub fn component_mediated_policy() -> (p: ResourcePolicy)
    ensures
        p == spec_component_mediated_policy(),
{
    let owner_only = PrincipalSet {
        owner: true,
        component: false,
        manager_badge: false,
        agent_badge: false,
        client_badge: false,
    };
    let custody = PrincipalSet {
        owner: true,
        component: true,
        manager_badge: false,
        agent_badge: false,
        client_badge: true,
    };
    let component = PrincipalSet {
        owner: false,
        component: true,
        manager_badge: false,
        agent_badge: false,
        client_badge: false,
    };
    ResourcePolicy {
        mint: ActionRule {
            rule: AccessRule::Require(component),
            updater: AccessRule::Require(owner_only),
        },
        burn: ActionRule {
            rule: AccessRule::Require(component),
            updater: AccessRule::Require(owner_only),
        },
        withdraw: ActionRule {
            rule: AccessRule::Require(custody),
            updater: AccessRule::Require(owner_only),
        },
        deposit: ActionRule {
            rule: AccessRule::Require(custody),
            updater: AccessRule::Require(owner_only),
        },
        freeze: ActionRule {
            rule: AccessRule::Require(component),
            updater: AccessRule::Require(owner_only),
        },
        recall: ActionRule {
            rule: AccessRule::Require(component),
            updater: AccessRule::Require(owner_only),
        },
    }
}

/// The rules of a fungible real-world-asset class: the component alone
/// mints, burns, freezes, recalls and reassigns rules; withdraw and deposit
/// are open to client-badge holders and the component.
pub open spec fn spec_fungible_asset_policy() -> ResourcePolicy {
    ResourcePolicy {
        mint: ActionRule {
            rule: AccessRule::Require(spec_component_only()),
            updater: AccessRule::Require(spec_component_only()),
        },
        burn: ActionRule {
            rule: AccessRule::Require(spec_component_only()),
            updater: AccessRule::Require(spec_component_only()),
        },
        withdraw: ActionRule {
            rule: AccessRule::Require(spec_client_or_component()),
            updater: AccessRule::Require(spec_component_only()),
        },
        deposit: ActionRule {
            rule: AccessRule::Require(spec_client_or_component()),
            updater: AccessRule::Require(spec_component_only()),
        },
        freeze: ActionRule {
            rule: AccessRule::Require(spec_component_only()),
            updater: AccessRule::Require(spec_component_only()),
        },
        recall: ActionRule {
            rule: AccessRule::Require(spec_component_only()),
            updater: AccessRule::Require(spec_component_only()),
        },
    }
}

/// The badge set of client-badge holders and the component itself.
pub open spec fn spec_client_or_component() -> PrincipalSet {
    PrincipalSet {
        owner: false,
        component: true,
        manager_badge: false,
        agent_badge: false,
        client_badge: true,
    }
}

/// The rules of a fungible real-world-asset class.
pub fn fungible_asset_policy() -> (p: ResourcePolicy)
    ensures
        p == spec_fungible_asset_policy(),
{
    let component = PrincipalSet {
        owner: false,
        component: true,
        manager_badge: false,
        agent_badge: false,
        client_badge: false,
    };
    let client_or_component = PrincipalSet {
        owner: false,
        component: true,
        manager_badge: false,
        agent_badge: false,
        client_badge: true,
    };
    ResourcePolicy {
        mint: ActionRule {
            rule: AccessRule::Require(component),
            updater: AccessRule::Require(component),
        },
        burn: ActionRule {
            rule: AccessRule::Require(component),
            updater: AccessRule::Require(component),
        },
        withdraw: ActionRule {
            rule: AccessRule::Require(client_or_component),
            updater: AccessRule::Require(component),
        },
        deposit: ActionRule {
            rule: AccessRule::Require(client_or_component),
            updater: AccessRule::Require(component),
        },
        freeze: ActionRule {
            rule: AccessRule::Require(component),
            updater: AccessRule::Require(component),
        },
        recall: ActionRule {
            rule: AccessRule::Require(component),
            updater: AccessRule::Require(component),
        },
    }
}

/// Who may reassign each method-auth role's rule, registered at
/// bootstrap: the admin role only by the owner capability, and each lower
/// role by anyone at or above the role directly over it.
#[derive(Clone, Copy, Debug, PartialEq, Eq, Structural)]
pub struct RoleUpdateRules {
    pub admin: AccessRule,
    pub manager: AccessRule,
    pub agent: AccessRule,
    pub client: AccessRule,
}

/// The role-update authority the component registers at bootstrap.
pub open spec fn spec_role_update_rules() -> RoleUpdateRules {
    RoleUpdateRules {
        admin: AccessRule::Require(spec_owner_only()),
        manager: AccessRule::Require(spec_roles_at_or_above(Role::Admin)),
        agent: AccessRule::Require(spec_roles_at_or_above(Role::Manager)),
        client: AccessRule::Require(spec_roles_at_or_above(Role::Agent)),
    }
}

/// The role-update authority the component registers at bootstrap.
pub fn role_update_rules() -> (r: RoleUpdateRules)
    ensures
        r == spec_role_update_rules(),
{
    RoleUpdateRules {
        admin: AccessRule::Require(PrincipalSet {
            owner: true,
            component: false,
            manager_badge: false,
            agent_badge: false,
            client_badge: false,
        }),
        manager: AccessRule::Require(roles_at_or_above(Role::Admin)),
        agent: AccessRule::Require(roles_at_or_above(Role::Manager)),
        client: AccessRule::Require(roles_at_or_above(Role::Agent)),
    }
}

/// The tokenized security offering: three badge classes, the reserve vault
/// and the security-token vault, the configurable price, and the shared
/// registry of non-fungible real-world assets.
#[derive(Clone, Debug)]
pub struct SecurityToken {
    pub manager_badge: BadgeClass,
    pub agent_badge: BadgeClass,
    pub client_badge: BadgeClass,
    pub xrd_vault: Vault,
    pub secure_token: Vault,
    pub secure_token_policy: ResourcePolicy,
    pub price_per_token: Amount,
    pub component_address: u64,
    pub asset_registry: AssetRegistry,
    pub role_update_rules: RoleUpdateRules,
}

impl SecurityToken {
    /// The component invariant: every keyed registry holds unique ids.
    pub open spec fn wf(self) -> bool {
        &&& self.manager_badge.wf()
        &&& self.agent_badge.wf()
        &&& self.client_badge.wf()
        &&& self.asset_registry.wf()
    }

    /// Every field but the manager badge class is the same in `post`.
    pub open spec fn same_except_manager_badge(self, post: SecurityToken) -> bool {
        &&& post.agent_badge == self.agent_badge
        &&& post.client_badge == self.client_badge
        &&& post.xrd_vault == self.xrd_vault
        &&& post.secure_token == self.secure_token
        &&& post.secure_token_policy == self.secure_token_policy
        &&& post.price_per_token == self.price_per_token
        &&& post.component_address == self.component_address
        &&& post.asset_registry == self.asset_registry
        &&& post.role_update_rules == self.role_update_rules
    }

    /// Every field but the agent badge class is the same in `post`.
    pub open spec fn same_except_agent_badge(self, post: SecurityToken) -> bool {
        &&& post.manager_badge == self.manager_badge
        &&& post.client_badge == self.client_badge
        &&& post.xrd_vault == self.xrd_vault
        &&& post.secure_token == self.secure_token
        &&& post.secure_token_policy == self.secure_token_policy
        &&& post.price_per_token == self.price_per_token
        &&& post.component_address == self.component_address
        &&& post.asset_registry == self.asset_registry
        &&& post.role_update_rules == self.role_update_rules
    }

    /// Every field but the client badge class is the same in `post`.
    pub open spec fn same_except_client_badge(self, post: SecurityToken) -> bool {
        &&& post.manager_badge == self.manager_badge
        &&& post.agent_badge == self.agent_badge
        &&& post.xrd_vault == self.xrd_vault
        &&& post.secure_token == self.secure_token
        &&& post.secure_token_policy == self.secure_token_policy
        &&& post.price_per_token == self.price_per_token
        &&& post.component_address == self.component_address
        &&& post.asset_registry == self.asset_registry
        &&& post.role_update_rules == self.role_update_rules
    }

    /// Every field but the two vault balances is the same in `post`.
    pub open spec fn same_except_vaults(self, post: SecurityToken) -> bool {
        &&& post.manager_badge == self.manager_badge
        &&& post.agent_badge == self.agent_badge
        &&& post.client_badge == self.client_badge
        &&& post.secure_token_policy == self.secure_token_policy
        &&& post.price_per_token == self.price_per_token
        &&& post.component_address == self.component_address
        &&& post.asset_registry == self.asset_registry
        &&& post.role_update_rules == self.role_update_rules
    }

    /// Every field but the price is the same in `post`.
    pub open spec fn same_except_price(self, post: SecurityToken) -> bool {
        &&& post.manager_badge == self.manager_badge
        &&& post.agent_badge == self.agent_badge
        &&& post.client_badge == self.client_badge
        &&& post.xrd_vault == self.xrd_vault
        &&& post.secure_token == self.secure_token
        &&& post.secure_token_policy == self.secure_token_policy
        &&& post.component_address == self.component_address
        &&& post.asset_registry == self.asset_registry
        &&& post.role_update_rules == self.role_update_rules
    }

    /// Every field but the non-fungible asset registry is the same in
    /// `post`.
    pub open spec fn same_except_asset_registry(self, post: SecurityToken) -> bool {
        &&& post.manager_badge == self.manager_badge
        &&& post.agent_badge == self.agent_badge
        &&& post.client_badge == self.client_badge
        &&& post.xrd_vault == self.xrd_vault
        &&& post.secure_token == self.secure_token
        &&& post.secure_token_policy == self.secure_token_policy
        &&& post.price_per_token == self.price_per_token
        &&& post.component_address == self.component_address
        &&& post.role_update_rules == self.role_update_rules
    }

    /// Bootstrap the component: allocate its deterministic self-identity,
    /// mint the single indivisible owner capability, establish the three
    /// soulbound badge classes, custody the fixed security-token supply and
    /// an empty reserve vault, and declare the permission rules.
    ///
    /// The security token and the asset registry are component-mediated:
    /// mint and burn stay with the component acting as itself, and the
    /// owner capability may only reassign those rules, never mint or burn
    /// directly past the exchange logic.
    ///
    /// The owner capability is returned to the deployer; depositing it, and
    /// placing the component on the ledger, is the host's work.
    pub fn new(price_per_token: Amount, radix_token_address: u64) -> (r: (
        SecurityToken,
        FungibleBucket,
    ))
        ensures
            r.0.wf(),
            r.0.manager_badge.name@ == "Identity Manager"@,
            r.0.agent_badge.name@ == "Identity Agent"@,
            r.0.client_badge.name@ == "Identity Client"@,
            r.0.manager_badge.address == MANAGER_BADGE_ADDRESS,
            r.0.agent_badge.address == AGENT_BADGE_ADDRESS,
            r.0.client_badge.address == CLIENT_BADGE_ADDRESS,
            r.0.manager_badge.policy == spec_badge_policy(),
            r.0.agent_badge.policy == spec_badge_policy(),
            r.0.client_badge.policy == spec_badge_policy(),
            r.0.manager_badge.issued@.len() == 0,
            r.0.agent_badge.issued@.len() == 0,
            r.0.client_badge.issued@.len() == 0,
            r.0.xrd_vault == (Vault {
                resource_address: radix_token_address,
                balance: Amount { attos: 0 },
            }),
            r.0.secure_token.resource_address == SECURE_TOKEN_ADDRESS,
            r.0.secure_token.balance.attos == INITIAL_SUPPLY_UNITS * ATTOS_PER_UNIT,
            r.0.secure_token_policy == spec_component_mediated_policy(),
            r.0.price_per_token == price_per_token,
            r.0.component_address == COMPONENT_ADDRESS,
            r.0.asset_registry.address == ASSET_REGISTRY_ADDRESS,
            r.0.asset_registry.policy == spec_component_mediated_policy(),
            r.0.asset_registry.minted@.len() == 0,
            r.0.role_update_rules == spec_role_update_rules(),
            r.1 == (FungibleBucket {
                resource_address: OWNER_BADGE_ADDRESS,
                divisibility: 0,
                amount: Amount { attos: ATTOS_PER_UNIT as u128 },
            }),
    {
        let owner_badge = FungibleBucket {
            resource_address: OWNER_BADGE_ADDRESS,
            divisibility: 0,
            amount: Amount::from_units(1),
        };
        let component = SecurityToken {
            manager_badge: create_badge("Identity Manager", MANAGER_BADGE_ADDRESS),
            agent_badge: create_badge("Identity Agent", AGENT_BADGE_ADDRESS),
            client_badge: create_badge("Identity Client", CLIENT_BADGE_ADDRESS),
            xrd_vault: Vault { resource_address: radix_token_address, balance: Amount::zero() },
            secure_token: Vault {
                resource_address: SECURE_TOKEN_ADDRESS,
                balance: Amount::from_units(INITIAL_SUPPLY_UNITS),
            },
            secure_token_policy: component_mediated_policy(),
            price_per_token,
            component_address: COMPONENT_ADDRESS,
            asset_registry: AssetRegistry {
                address: ASSET_REGISTRY_ADDRESS,
                policy: component_mediated_policy(),
                minted: Vec::new(),
            },
            role_update_rules: role_update_rules(),
        };
        (component, owner_badge)
    }

    /// Read the resource handles of the badge classes and the reserve
    /// vault; open to the admin alone.
    pub fn get_addresses(&self, caller: &Caller) -> (r: Result<Addresses, Error>)
        ensures
            !AccessRule::Require(spec_roles_at_or_above(Role::Admin)).spec_allows(*caller) ==> r
                == Err::<Addresses, Error>(Error::AuthorizationDenied),
            AccessRule::Require(spec_roles_at_or_above(Role::Admin)).spec_allows(*caller) ==> r
                == Ok::<Addresses, Error>(
                Addresses {
                    manager_badge: self.manager_badge.address,
                    agent_badge: self.agent_badge.address,
                    client_badge: self.client_badge.address,
                    xrd_vault: self.xrd_vault.resource_address,
                },
            ),
    {
        let rule = AccessRule::Require(roles_at_or_above(Role::Admin));
        if !rule.allows(caller) {
            return Err(Error::AuthorizationDenied);
        }
        Ok(
            Addresses {
                manager_badge: self.manager_badge.address,
                agent_badge: self.agent_badge.address,
                client_badge: self.client_badge.address,
                xrd_vault: self.xrd_vault.resource_address,
            },
        )
    }

    /// Read the current price of one security token; open to any caller.
    pub fn price_per_token(&mut self) -> (r: Amount)
        ensures
            r == old(self).price_per_token,
            *final(self) == *old(self),
    {
        self.price_per_token
    }

    /// Overwrite the stored price; managers and the admin alone. No bound
    /// is placed on the new price.
    pub fn change_price_per_token(&mut self, caller: &Caller, new_price: Amount) -> (r: Result<
        (),
        Error,
    >)
        requires
            old(self).wf(),
        ensures
            final(self).wf(),
            !AccessRule::Require(spec_roles_at_or_above(Role::Manager)).spec_allows(*caller) ==> r
                == Err::<(), Error>(Error::AuthorizationDenied) && *final(self) == *old(self),
            AccessRule::Require(spec_roles_at_or_above(Role::Manager)).spec_allows(*caller) ==> r
                == Ok::<(), Error>(()) && final(self).price_per_token == new_price && old(
                self,
            ).same_except_price(*final(self)),
    {
        let rule = AccessRule::Require(roles_at_or_above(Role::Manager));
        if !rule.allows(caller) {
            return Err(Error::AuthorizationDenied);
        }
        self.price_per_token = new_price;
        Ok(())
    }

    /// Swap a reserve-currency payment for security tokens at the stored
    /// price: the token amount is the payment divided by the price under
    /// the ledger's fixed-point arithmetic. Client-badge holders alone.
    ///
    /// The solvency check precedes both balance changes: a call refused for
    /// want of tokens leaves both vaults exactly as they were. The bounds
    /// asked of authorized calls are the width of the balance type; past
    /// them the ledger's own arithmetic would abort the unit of work.
    pub fn exchange_xrd_for_secure_token(&mut self, caller: &Caller, payment: Amount) -> (r:
        Result<Amount, Error>)
        requires
            old(self).wf(),
            AccessRule::Require(spec_client_only()).spec_allows(*caller) ==> old(
                self,
            ).price_per_token.attos != 0,
            AccessRule::Require(spec_client_only()).spec_allows(*caller) ==> div_attos(
                payment.attos,
                old(self).price_per_token.attos,
            ) <= u128::MAX,
            AccessRule::Require(spec_client_only()).spec_allows(*caller) ==> old(
                self,
            ).xrd_vault.balance.attos + payment.attos <= u128::MAX,
        ensures
            final(self).wf(),
            !AccessRule::Require(spec_client_only()).spec_allows(*caller) ==> r == Err::<
                Amount,
                Error,
            >(Error::AuthorizationDenied) && *final(self) == *old(self),
            AccessRule::Require(spec_client_only()).spec_allows(*caller) ==> ({
                let q = div_attos(payment.attos, old(self).price_per_token.attos);
                if q > old(self).secure_token.balance.attos {
                    r == Err::<Amount, Error>(Error::InsufficientReserve) && *final(self) == *old(
                        self,
                    )
                } else {
                    &&& r == Ok::<Amount, Error>(Amount { attos: q as u128 })
                    &&& final(self).xrd_vault.balance.attos == old(self).xrd_vault.balance.attos
                        + payment.attos
                    &&& final(self).secure_token.balance.attos == old(
                        self,
                    ).secure_token.balance.attos - q
                    &&& final(self).xrd_vault.resource_address == old(
                        self,
                    ).xrd_vault.resource_address
                    &&& final(self).secure_token.resource_address == old(
                        self,
                    ).secure_token.resource_address
                    &&& old(self).same_except_vaults(*final(self))
                }
            }),
    {
        let rule = AccessRule::Require(client_only());
        if !rule.allows(caller) {
            return Err(Error::AuthorizationDenied);
        }
        let token_attos = decimal_div_attos(payment.attos, self.price_per_token.attos);
        if self.secure_token.balance.attos < token_attos {
            return Err(Error::InsufficientReserve);
        }
        self.xrd_vault.balance.attos = self.xrd_vault.balance.attos + payment.attos;
        self.secure_token.balance.attos = self.secure_token.balance.attos - token_attos;
        Ok(Amount { attos: token_attos })
    }

    /// Declare a brand-new fungible real-world-asset class and mint its
    /// full initial supply for the caller; client-badge holders and the
    /// admin. A divisibility outside 0..=18 is refused and no class is
    /// issued. No registry of issued classes is kept: each class exists
    /// only through its own declared rules.
    pub fn mint_real_world_asset_fungible(
        &self,
        caller: &Caller,
        name: String,
        asset_id: String,
        description: String,
        initial_supply: Amount,
        divisibility: u8,
    ) -> (r: Result<FungibleAssetClass, Error>)
        ensures
            !AccessRule::Require(spec_client_or_admin()).spec_allows(*caller) ==> r == Err::<
                FungibleAssetClass,
                Error,
            >(Error::AuthorizationDenied),
            AccessRule::Require(spec_client_or_admin()).spec_allows(*caller) && divisibility
                > MAX_DIVISIBILITY ==> r == Err::<FungibleAssetClass, Error>(
                Error::InvalidDivisibility,
            ),
            AccessRule::Require(spec_client_or_admin()).spec_allows(*caller) && divisibility
                <= MAX_DIVISIBILITY ==> r == Ok::<FungibleAssetClass, Error>(
                FungibleAssetClass {
                    name,
                    asset_id,
                    description,
                    divisibility,
                    supply: initial_supply,
                    policy: spec_fungible_asset_policy(),
                },
            ),
    {
        let rule = AccessRule::Require(client_or_admin());
        if !rule.allows(caller) {
            return Err(Error::AuthorizationDenied);
        }
        if divisibility > MAX_DIVISIBILITY {
            return Err(Error::InvalidDivisibility);
        }
        Ok(
            FungibleAssetClass {
                name,
                asset_id,
                description,
                divisibility,
                supply: initial_supply,
                policy: fungible_asset_policy(),
            },
        )
    }

    /// Mint exactly one non-fungible real-world asset under the shared
    /// registry, keyed by its asset id; client-badge holders and the admin.
    /// A taken id is refused as a duplicate and the unit already minted
    /// keeps its fields; no update path exists.
    pub fn mint_real_world_asset_non_fungible(
        &mut self,
        caller: &Caller,
        asset_id: String,
        name: String,
        description: String,
        value: Amount,
    ) -> (r: Result<RealWorldAsset, Error>)
        requires
            old(self).wf(),
        ensures
            final(self).wf(),
            !AccessRule::Require(spec_client_or_admin()).spec_allows(*caller) ==> r == Err::<
                RealWorldAsset,
                Error,
            >(Error::AuthorizationDenied) && *final(self) == *old(self),
            AccessRule::Require(spec_client_or_admin()).spec_allows(*caller) ==> ({
                let a = (RealWorldAsset { asset_id, name, description, value });
                let (rr, post) = asset_mint_spec(old(self).asset_registry.minted@, a);
                &&& r == rr
                &&& final(self).asset_registry.minted@ == post
                &&& final(self).asset_registry.address == old(self).asset_registry.address
                &&& final(self).asset_registry.policy == old(self).asset_registry.policy
                &&& old(self).same_except_asset_registry(*final(self))
            }),
    {
        let rule = AccessRule::Require(client_or_admin());
        if !rule.allows(caller) {
            return Err(Error::AuthorizationDenied);
        }
        self.asset_registry.mint(asset_id, name, description, value)
    }

    /// Mint one manager badge keyed by its identity id and hand it back for
    /// the host to deposit into the destination account; the admin alone. A
    /// taken id within the class is refused as a duplicate.
    pub fn create_identity_manager(
        &mut self,
        caller: &Caller,
        identity_id: String,
        name: String,
        lastname: String,
    ) -> (r: Result<IdentityData, Error>)
        requires
            old(self).wf(),
        ensures
            final(self).wf(),
            !AccessRule::Require(spec_roles_at_or_above(Role::Admin)).spec_allows(*caller) ==> r
                == Err::<IdentityData, Error>(Error::AuthorizationDenied) && *final(self) == *old(
                self,
            ),
            AccessRule::Require(spec_roles_at_or_above(Role::Admin)).spec_allows(*caller) ==> ({
                let d = (IdentityData { identity_id, name, lastname });
                let (rr, post) = badge_mint_spec(old(self).manager_badge.issued@, d);
                &&& r == rr
                &&& final(self).manager_badge.issued@ == post
                &&& final(self).manager_badge.name == old(self).manager_badge.name
                &&& final(self).manager_badge.address == old(self).manager_badge.address
                &&& final(self).manager_badge.policy == old(self).manager_badge.policy
                &&& old(self).same_except_manager_badge(*final(self))
            }),
    {
        let rule = AccessRule::Require(roles_at_or_above(Role::Admin));
        if !rule.allows(caller) {
            return Err(Error::AuthorizationDenied);
        }
        self.manager_badge.mint(identity_id, name, lastname)
    }

    /// Mint one agent badge keyed by its identity id and hand it back for
    /// the host to deposit; managers and the admin.
    pub fn create_identity_agent(
        &mut self,
        caller: &Caller,
        identity_id: String,
        name: String,
        lastname: String,
    ) -> (r: Result<IdentityData, Error>)
        requires
            old(self).wf(),
        ensures
            final(self).wf(),
            !AccessRule::Require(spec_roles_at_or_above(Role::Manager)).spec_allows(*caller) ==> r
                == Err::<IdentityData, Error>(Error::AuthorizationDenied) && *final(self) == *old(
                self,
            ),
            AccessRule::Require(spec_roles_at_or_above(Role::Manager)).spec_allows(*caller) ==> ({
                let d = (IdentityData { identity_id, name, lastname });
                let (rr, post) = badge_mint_spec(old(self).agent_badge.issued@, d);
                &&& r == rr
                &&& final(self).agent_badge.issued@ == post
                &&& final(self).agent_badge.name == old(self).agent_badge.name
                &&& final(self).agent_badge.address == old(self).agent_badge.address
                &&& final(self).agent_badge.policy == old(self).agent_badge.policy
                &&& old(self).same_except_agent_badge(*final(self))
            }),
    {
        let rule = AccessRule::Require(roles_at_or_above(Role::Manager));
        if !rule.allows(caller) {
            return Err(Error::AuthorizationDenied);
        }
        self.agent_badge.mint(identity_id, name, lastname)
    }

    /// Mint one client badge keyed by its identity id and hand it back for
    /// the host to deposit; agents, managers and the admin.
    pub fn create_identity_client(
        &mut self,
        caller: &Caller,
        identity_id: String,
        name: String,
        lastname: String,
    ) -> (r: Result<IdentityData, Error>)
        requires
            old(self).wf(),
        ensures
            final(self).wf(),
            !AccessRule::Require(spec_roles_at_or_above(Role::Agent)).spec_allows(*caller) ==> r
                == Err::<IdentityData, Error>(Error::AuthorizationDenied) && *final(self) == *old(
                self,
            ),
            AccessRule::Require(spec_roles_at_or_above(Role::Agent)).spec_allows(*caller) ==> ({
                let d = (IdentityData { identity_id, name, lastname });
                let (rr, post) = badge_mint_spec(old(self).client_badge.issued@, d);
                &&& r == rr
                &&& final(self).client_badge.issued@ == post
                &&& final(self).client_badge.name == old(self).client_badge.name
                &&& final(self).client_badge.address == old(self).client_badge.address
                &&& final(self).client_badge.policy == old(self).client_badge.policy
                &&& old(self).same_except_client_badge(*final(self))
            }),
    {
        let rule = AccessRule::Require(roles_at_or_above(Role::Agent));
        if !rule.allows(caller) {
            return Err(Error::AuthorizationDenied);
        }
        self.client_badge.mint(identity_id, name, lastname)
    }
}

} // verus!
