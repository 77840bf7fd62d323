use vstd::prelude::*;

use scrypto::prelude::NonFungibleLocalId;

use crate::amount::Amount;
use crate::auth::AccessRule;
use crate::auth::ActionRule;
use crate::auth::PrincipalSet;
use crate::auth::ResourcePolicy;
use crate::errors::Error;

verus! {

/// A character a string local id may hold: an ASCII letter, a digit or an
/// underscore.
pub open spec fn is_id_char(c: char) -> bool {
    ||| 'a' <= c && c <= 'z'
    ||| 'A' <= c && c <= 'Z'
    ||| '0' <= c && c <= '9'
    ||| c == '_'
}

/// A well-formed string local id: one to sixty-four characters, each a
/// letter, digit or underscore. Identity badges and non-fungible assets are
/// keyed by such ids.
pub open spec fn is_valid_local_id(s: Seq<char>) -> bool {
    &&& 1 <= s.len() <= 64
    &&& forall|i: int| 0 <= i < s.len() ==> is_id_char(s[i])
}

/// Relies on scrypto's `NonFungibleLocalId::string`: a string local id is
/// accepted exactly when it has one to sixty-four characters, each an ASCII
/// letter, digit or underscore.
#[verifier::external_body]
pub(crate) fn check_local_id(id: &String) -> (r: bool)
    ensures
        r == is_valid_local_id(id@),
{
    NonFungibleLocalId::string(id.as_str()).is_ok()
}

/// The data of one identity capability badge: a unique id within its role
/// class and the holder's name. Once minted it is never changed or revoked.
#[derive(Clone, Debug, PartialEq)]
pub struct IdentityData {
    pub identity_id: String,
    pub name: String,
    pub lastname: String,
}

/// Whether some badge in the sequence carries the given identity id.
pub open spec fn has_identity(issued: Seq<IdentityData>, id: Seq<char>) -> bool {
    exists|i: int| 0 <= i < issued.len() && issued[i].identity_id@ == id
}

/// No two badges in the sequence share an identity id.
pub open spec fn unique_identity_ids(issued: Seq<IdentityData>) -> bool {
    forall|i: int, j: int|
        0 <= i < j < issued.len() ==> issued[i].identity_id@ != issued[j].identity_id@
}

/// What minting a badge does to a class: a malformed id is refused, a taken
/// id is refused as a duplicate, and otherwise exactly one badge with the
/// given data is added.
pub open spec fn badge_mint_spec(pre: Seq<IdentityData>, d: IdentityData) -> (Result<
    IdentityData,
    Error,
>, Seq<IdentityData>) {
    if !is_valid_local_id(d.identity_id@) {
        (Err(Error::InvalidIdentifier), pre)
    } else if has_identity(pre, d.identity_id@) {
        (Err(Error::DuplicateIdentifier), pre)
    } else {
        (Ok(d), pre.push(d))
    }
}

/// One badge class: its declared permission rules and the registry of every
/// badge minted under it, keyed by identity id.
#[derive(Clone, Debug)]
pub struct BadgeClass {
    pub name: String,
    pub address: u64,
    pub policy: ResourcePolicy,
    pub issued: Vec<IdentityData>,
}

impl BadgeClass {
    /// The class invariant: identity ids are unique within the class.
    pub open spec fn wf(self) -> bool {
        unique_identity_ids(self.issued@)
    }

    /// Whether a badge with the given id was minted under this class.
    pub fn contains_identity(&self, id: &String) -> (r: bool)
        ensures
            r == has_identity(self.issued@, id@),
    {
        let mut k: usize = 0;
        while k < self.issued.len()
            invariant
                k <= self.issued.len(),
                forall|i: int| 0 <= i < k ==> self.issued@[i].identity_id@ != id@,
            decreases self.issued.len() - k,
        {
            if self.issued[k].identity_id == *id {
                return true;
            }
            k += 1;
        }
        false
    }

    /// Mint one badge under this class. The declared rules and the name of
    /// the class never change; on failure the registry is untouched.
    pub fn mint(&mut self, identity_id: String, name: String, lastname: String) -> (r: Result<
        IdentityData,
        Error,
    >)
        requires
            old(self).wf(),
        ensures
            final(self).wf(),
            final(self).name == old(self).name,
            final(self).address == old(self).address,
            final(self).policy == old(self).policy,
            ({
                let d = (IdentityData { identity_id, name, lastname });
                let (rr, post) = badge_mint_spec(old(self).issued@, d);
                r == rr && final(self).issued@ == post
            }),
    {
        if !check_local_id(&identity_id) {
            return Err(Error::InvalidIdentifier);
        }
        if self.contains_identity(&identity_id) {
            return Err(Error::DuplicateIdentifier);
        }
        let d = IdentityData {
            identity_id: identity_id.clone(),
            name: name.clone(),
            lastname: lastname.clone(),
        };
        let ghost pre = self.issued@;
        self.issued.push(IdentityData { identity_id, name, lastname });
        proof {
            assert forall|i: int, j: int|
                0 <= i < j < self.issued@.len() implies self.issued@[i].identity_id@
                != self.issued@[j].identity_id@ by {
                if j < pre.len() {
                } else {
                    assert(self.issued@[j].identity_id@ == pre.push(
                        IdentityData { identity_id, name, lastname },
                    )[pre.len() as int].identity_id@);
                }
            }
        }
        Ok(d)
    }
}

/// Minting two badges with the same identity id in one class: the first
/// succeeds, the second is refused as a duplicate, and the class grows by
/// exactly one badge in total.
pub proof fn lemma_duplicate_badge_rejected(
    pre: Seq<IdentityData>,
    d1: IdentityData,
    d2: IdentityData,
)
    requires
        d2.identity_id@ == d1.identity_id@,
        is_valid_local_id(d1.identity_id@),
        !has_identity(pre, d1.identity_id@),
    ensures
        ({
            let (r1, mid) = badge_mint_spec(pre, d1);
            let (r2, post) = badge_mint_spec(mid, d2);
            &&& r1 == Ok::<IdentityData, Error>(d1)
            &&& r2 == Err::<IdentityData, Error>(Error::DuplicateIdentifier)
            &&& post == mid
            &&& mid.len() == pre.len() + 1
        }),
{
    let mid = pre.push(d1);
    assert(mid[pre.len() as int].identity_id@ == d2.identity_id@);
    assert(has_identity(mid, d2.identity_id@));
}

/// The data of one non-fungible real-world asset, keyed by its asset id
/// under the shared issuance registry.
#[derive(Clone, Debug, PartialEq)]
pub struct RealWorldAsset {
    pub asset_id: String,
    pub name: String,
    pub description: String,
    pub value: Amount,
}

/// Whether some minted asset in the sequence carries the given asset id.
pub open spec fn has_asset(minted: Seq<RealWorldAsset>, id: Seq<char>) -> bool {
    exists|i: int| 0 <= i < minted.len() && minted[i].asset_id@ == id
}

/// No two minted assets in the sequence share an asset id.
pub open spec fn unique_asset_ids(minted: Seq<RealWorldAsset>) -> bool {
    forall|i: int, j: int|
        0 <= i < j < minted.len() ==> minted[i].asset_id@ != minted[j].asset_id@
}

/// What minting a non-fungible asset does to the registry: a malformed id
/// is refused, a taken id is refused as a duplicate, and otherwise exactly
/// one unit with the given data is added.
pub open spec fn asset_mint_spec(pre: Seq<RealWorldAsset>, a: RealWorldAsset) -> (Result<
    RealWorldAsset,
    Error,
>, Seq<RealWorldAsset>) {
    if !is_valid_local_id(a.asset_id@) {
        (Err(Error::InvalidIdentifier), pre)
    } else if has_asset(pre, a.asset_id@) {
        (Err(Error::DuplicateIdentifier), pre)
    } else {
        (Ok(a), pre.push(a))
    }
}

/// The shared issuance registry of non-fungible real-world assets: its
/// declared permission rules and every unit minted under it, keyed by
/// asset id.
#[derive(Clone, Debug)]
pub struct AssetRegistry {
    pub address: u64,
    pub policy: ResourcePolicy,
    pub minted: Vec<RealWorldAsset>,
}

impl AssetRegistry {
    /// The registry invariant: asset ids are unique.
    pub open spec fn wf(self) -> bool {
        unique_asset_ids(self.minted@)
    }

    /// Whether a unit with the given asset id was minted under this
    /// registry.
    pub fn contains_asset(&self, id: &String) -> (r: bool)
        ensures
            r == has_asset(self.minted@, id@),
    {
        let mut k: usize = 0;
        while k < self.minted.len()
            invariant
                k <= self.minted.len(),
                forall|i: int| 0 <= i < k ==> self.minted@[i].asset_id@ != id@,
            decreases self.minted.len() - k,
        {
            if self.minted[k].asset_id == *id {
                return true;
            }
            k += 1;
        }
        false
    }

    /// Mint one unit under this registry. The declared rules never change;
    /// on failure the registry is untouched, so the fields of every unit
    /// already minted stay as they were.
    pub fn mint(
        &mut self,
        asset_id: String,
        name: String,
        description: String,
        value: Amount,
    ) -> (r: Result<RealWorldAsset, Error>)
        requires
            old(self).wf(),
        ensures
            final(self).wf(),
            final(self).address == old(self).address,
            final(self).policy == old(self).policy,
            ({
                let a = (RealWorldAsset { asset_id, name, description, value });
                let (rr, post) = asset_mint_spec(old(self).minted@, a);
                r == rr && final(self).minted@ == post
            }),
    {
        if !check_local_id(&asset_id) {
            return Err(Error::InvalidIdentifier);
        }
        if self.contains_asset(&asset_id) {
            return Err(Error::DuplicateIdentifier);
        }
        let a = RealWorldAsset {
            asset_id: asset_id.clone(),
            name: name.clone(),
            description: description.clone(),
            value,
        };
        let ghost pre = self.minted@;
        self.minted.push(RealWorldAsset { asset_id, name, description, value });
        proof {
            assert forall|i: int, j: int|
                0 <= i < j < self.minted@.len() implies self.minted@[i].asset_id@
                != self.minted@[j].asset_id@ by {
                if j < pre.len() {
                } else {
                    assert(self.minted@[j].asset_id@ == pre.push(
                        RealWorldAsset { asset_id, name, description, value },
                    )[pre.len() as int].asset_id@);
                }
            }
        }
        Ok(a)
    }
}

/// The rules every identity badge class is declared with: only the
/// component itself mints and burns, nobody may reassign those rights, and
/// withdraw and deposit are denied outright, so a badge is soulbound to the
/// account it is first placed in.
pub open spec fn spec_badge_policy() -> ResourcePolicy {
    ResourcePolicy {
        mint: ActionRule {
            rule: AccessRule::Require(spec_component_only()),
            updater: AccessRule::DenyAll,
        },
        burn: ActionRule {
            rule: AccessRule::Require(spec_component_only()),
            updater: AccessRule::DenyAll,
        },
        withdraw: ActionRule { rule: AccessRule::DenyAll, updater: AccessRule::DenyAll },
        deposit: ActionRule { rule: AccessRule::DenyAll, updater: AccessRule::DenyAll },
        freeze: ActionRule { rule: AccessRule::DenyAll, updater: AccessRule::DenyAll },
        recall: ActionRule { rule: AccessRule::DenyAll, updater: AccessRule::DenyAll },
    }
}

/// The set holding only the component's own identity.
pub open spec fn spec_component_only() -> PrincipalSet {
    PrincipalSet {
        owner: false,
        component: true,
        manager_badge: false,
        agent_badge: false,
        client_badge: false,
    }
}

/// The set holding only the component's own identity.
pub fn component_only() -> (s: PrincipalSet)
    ensures
        s == spec_component_only(),
{
    PrincipalSet {
        owner: false,
        component: true,
        manager_badge: false,
        agent_badge: false,
        client_badge: false,
    }
}

/// Establish one badge class with the declared badge rules and an empty
/// registry.
pub fn create_badge(name: &str, address: u64) -> (c: BadgeClass)
    ensures
        c.name@ == name@,
        c.address == address,
        c.policy == spec_badge_policy(),
        c.issued@.len() == 0,
        c.wf(),
{
    let deny = ActionRule { rule: AccessRule::DenyAll, updater: AccessRule::DenyAll };
    BadgeClass {
        name: name.to_owned(),
        address,
        policy: ResourcePolicy {
            mint: ActionRule {
                rule: AccessRule::Require(component_only()),
                updater: AccessRule::DenyAll,
            },
            burn: ActionRule {
                rule: AccessRule::Require(component_only()),
                updater: AccessRule::DenyAll,
            },
            withdraw: deny,
            deposit: deny,
            freeze: deny,
            recall: deny,
        },
        issued: Vec::new(),
    }
}

} // verus!
