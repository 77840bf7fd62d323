use security_token::amount::Amount;
use security_token::amount::ATTOS_PER_UNIT;
use security_token::assets::IdentityData;
use security_token::auth::Caller;
use security_token::auth::Role;
use security_token::errors::Error;
use security_token::token::role_update_rules;
use security_token::token::SecurityToken;
use security_token::token::ASSET_REGISTRY_ADDRESS;
use security_token::token::CLIENT_BADGE_ADDRESS;
use security_token::token::MANAGER_BADGE_ADDRESS;
use security_token::token::OWNER_BADGE_ADDRESS;

fn setup(price_units: u64) -> SecurityToken {
    let (component, _owner) = SecurityToken::new(Amount::from_units(price_units), 42);
    component
}

#[test]
fn bootstrap_state() {
    let (component, owner) = SecurityToken::new(Amount::from_units(3), 42);
    assert_eq!(component.price_per_token.attos, 3 * ATTOS_PER_UNIT);
    assert_eq!(component.xrd_vault.balance.attos, 0);
    assert_eq!(component.xrd_vault.resource_address, 42);
    assert_eq!(
        component.secure_token.balance.attos,
        1_000_000 * ATTOS_PER_UNIT
    );
    assert_eq!(component.manager_badge.name, "Identity Manager");
    assert_eq!(component.agent_badge.name, "Identity Agent");
    assert_eq!(component.client_badge.name, "Identity Client");
    assert_eq!(component.manager_badge.issued.len(), 0);
    assert_eq!(component.asset_registry.minted.len(), 0);
    assert_eq!(component.asset_registry.address, ASSET_REGISTRY_ADDRESS);
    assert_eq!(component.role_update_rules, role_update_rules());
    assert_eq!(owner.resource_address, OWNER_BADGE_ADDRESS);
    assert_eq!(owner.divisibility, 0);
    assert_eq!(owner.amount.attos, ATTOS_PER_UNIT);
}

#[test]
fn lower_roles_cannot_create_manager_badges() {
    let mut component = setup(1);
    for role in [Role::Manager, Role::Agent, Role::Client] {
        let caller = Caller::with_role(role);
        let r = component.create_identity_manager(
            &caller,
            "m1".to_owned(),
            "Ada".to_owned(),
            "Lovelace".to_owned(),
        );
        assert_eq!(r, Err(Error::AuthorizationDenied));
        assert_eq!(component.manager_badge.issued.len(), 0);
    }
}

#[test]
fn lower_roles_cannot_create_agent_badges() {
    let mut component = setup(1);
    for role in [Role::Agent, Role::Client] {
        let caller = Caller::with_role(role);
        let r = component.create_identity_agent(
            &caller,
            "a1".to_owned(),
            "Ada".to_owned(),
            "Lovelace".to_owned(),
        );
        assert_eq!(r, Err(Error::AuthorizationDenied));
        assert_eq!(component.agent_badge.issued.len(), 0);
    }
}

#[test]
fn client_cannot_create_client_badges() {
    let mut component = setup(1);
    let caller = Caller::with_role(Role::Client);
    let r = component.create_identity_client(
        &caller,
        "c1".to_owned(),
        "Ada".to_owned(),
        "Lovelace".to_owned(),
    );
    assert_eq!(r, Err(Error::AuthorizationDenied));
    assert_eq!(component.client_badge.issued.len(), 0);
}

#[test]
fn lower_roles_cannot_change_price() {
    let mut component = setup(7);
    for role in [Role::Agent, Role::Client] {
        let caller = Caller::with_role(role);
        let r = component.change_price_per_token(&caller, Amount::from_units(1));
        assert_eq!(r, Err(Error::AuthorizationDenied));
        assert_eq!(component.price_per_token.attos, 7 * ATTOS_PER_UNIT);
    }
}

#[test]
fn roles_at_or_above_may_create_badges() {
    let mut component = setup(1);
    let admin = Caller::with_role(Role::Admin);
    let manager = Caller::with_role(Role::Manager);
    let agent = Caller::with_role(Role::Agent);
    assert!(component
        .create_identity_manager(&admin, "m1".to_owned(), "A".to_owned(), "B".to_owned())
        .is_ok());
    assert!(component
        .create_identity_agent(&manager, "a1".to_owned(), "A".to_owned(), "B".to_owned())
        .is_ok());
    assert!(component
        .create_identity_agent(&admin, "a2".to_owned(), "A".to_owned(), "B".to_owned())
        .is_ok());
    assert!(component
        .create_identity_client(&agent, "c1".to_owned(), "A".to_owned(), "B".to_owned())
        .is_ok());
    assert_eq!(component.manager_badge.issued.len(), 1);
    assert_eq!(component.agent_badge.issued.len(), 2);
    assert_eq!(component.client_badge.issued.len(), 1);
}

#[test]
fn exchange_is_open_to_clients_alone() {
    let mut component = setup(2);
    for role in [Role::Admin, Role::Manager, Role::Agent] {
        let caller = Caller::with_role(role);
        let r = component.exchange_xrd_for_secure_token(&caller, Amount::from_units(10));
        assert_eq!(r, Err(Error::AuthorizationDenied));
        assert_eq!(component.xrd_vault.balance.attos, 0);
    }
}

#[test]
fn exchange_ten_at_price_two_returns_five() {
    let mut component = setup(2);
    let client = Caller::with_role(Role::Client);
    let r = component.exchange_xrd_for_secure_token(&client, Amount::from_units(10));
    assert_eq!(r, Ok(Amount::from_units(5)));
    assert_eq!(component.xrd_vault.balance.attos, 10 * ATTOS_PER_UNIT);
    assert_eq!(
        component.secure_token.balance.attos,
        999_995 * ATTOS_PER_UNIT
    );
}

#[test]
fn exchange_truncates_toward_zero() {
    let mut component = setup(3);
    let client = Caller::with_role(Role::Client);
    let r = component
        .exchange_xrd_for_secure_token(&client, Amount::from_units(10))
        .unwrap();
    // 10 / 3 at eighteen decimal places, truncated.
    assert_eq!(r.attos, 3_333_333_333_333_333_333);
}

#[test]
fn exchange_past_the_reserve_fails_and_changes_nothing() {
    let mut component = setup(1);
    let client = Caller::with_role(Role::Client);
    let r = component.exchange_xrd_for_secure_token(&client, Amount::from_units(3_000_000));
    assert_eq!(r, Err(Error::InsufficientReserve));
    assert_eq!(component.xrd_vault.balance.attos, 0);
    assert_eq!(
        component.secure_token.balance.attos,
        1_000_000 * ATTOS_PER_UNIT
    );
}

#[test]
fn changed_price_governs_later_exchanges() {
    let mut component = setup(2);
    let manager = Caller::with_role(Role::Manager);
    assert_eq!(
        component.change_price_per_token(&manager, Amount::from_units(5)),
        Ok(())
    );
    assert_eq!(component.price_per_token(), Amount::from_units(5));
    let client = Caller::with_role(Role::Client);
    let r = component.exchange_xrd_for_secure_token(&client, Amount::from_units(10));
    assert_eq!(r, Ok(Amount::from_units(2)));
}

#[test]
fn duplicate_identity_id_is_rejected_within_a_class() {
    let mut component = setup(1);
    let admin = Caller::with_role(Role::Admin);
    let first = component.create_identity_manager(
        &admin,
        "m1".to_owned(),
        "Ada".to_owned(),
        "Lovelace".to_owned(),
    );
    assert!(first.is_ok());
    let second = component.create_identity_manager(
        &admin,
        "m1".to_owned(),
        "Grace".to_owned(),
        "Hopper".to_owned(),
    );
    assert_eq!(second, Err(Error::DuplicateIdentifier));
    assert_eq!(component.manager_badge.issued.len(), 1);
    assert_eq!(component.manager_badge.issued[0].name, "Ada");
}

#[test]
fn identity_ids_do_not_collide_across_classes() {
    let mut component = setup(1);
    let admin = Caller::with_role(Role::Admin);
    assert!(component
        .create_identity_manager(&admin, "X".to_owned(), "A".to_owned(), "B".to_owned())
        .is_ok());
    assert!(component
        .create_identity_agent(&admin, "X".to_owned(), "A".to_owned(), "B".to_owned())
        .is_ok());
    assert!(component
        .create_identity_client(&admin, "X".to_owned(), "A".to_owned(), "B".to_owned())
        .is_ok());
}

#[test]
fn malformed_identity_id_is_rejected() {
    let mut component = setup(1);
    let admin = Caller::with_role(Role::Admin);
    let too_long = "a".repeat(65);
    for bad in ["", "has space", "dash-ed", too_long.as_str()] {
        let r = component.create_identity_manager(
            &admin,
            bad.to_owned(),
            "A".to_owned(),
            "B".to_owned(),
        );
        assert_eq!(r, Err(Error::InvalidIdentifier));
        assert_eq!(component.manager_badge.issued.len(), 0);
    }
}

#[test]
fn sixty_four_character_id_is_accepted() {
    let mut component = setup(1);
    let admin = Caller::with_role(Role::Admin);
    let id = "a".repeat(64);
    assert!(component
        .create_identity_manager(&admin, id, "A".to_owned(), "B".to_owned())
        .is_ok());
}

#[test]
fn minted_badge_carries_its_data() {
    let mut component = setup(1);
    let admin = Caller::with_role(Role::Admin);
    let badge = component
        .create_identity_manager(
            &admin,
            "m1".to_owned(),
            "Ada".to_owned(),
            "Lovelace".to_owned(),
        )
        .unwrap();
    assert_eq!(
        badge,
        IdentityData {
            identity_id: "m1".to_owned(),
            name: "Ada".to_owned(),
            lastname: "Lovelace".to_owned(),
        }
    );
}

#[test]
fn duplicate_asset_id_is_rejected_and_the_first_unit_keeps_its_fields() {
    let mut component = setup(1);
    let client = Caller::with_role(Role::Client);
    let first = component.mint_real_world_asset_non_fungible(
        &client,
        "A1".to_owned(),
        "House".to_owned(),
        "A house".to_owned(),
        Amount::from_units(100),
    );
    assert!(first.is_ok());
    let second = component.mint_real_world_asset_non_fungible(
        &client,
        "A1".to_owned(),
        "Boat".to_owned(),
        "A boat".to_owned(),
        Amount::from_units(7),
    );
    assert_eq!(second, Err(Error::DuplicateIdentifier));
    assert_eq!(component.asset_registry.minted.len(), 1);
    assert_eq!(component.asset_registry.minted[0].name, "House");
    assert_eq!(component.asset_registry.minted[0].description, "A house");
    assert_eq!(
        component.asset_registry.minted[0].value,
        Amount::from_units(100)
    );
}

#[test]
fn malformed_asset_id_is_rejected() {
    let mut component = setup(1);
    let client = Caller::with_role(Role::Client);
    let r = component.mint_real_world_asset_non_fungible(
        &client,
        "not a local id!".to_owned(),
        "House".to_owned(),
        "A house".to_owned(),
        Amount::from_units(1),
    );
    assert_eq!(r, Err(Error::InvalidIdentifier));
    assert_eq!(component.asset_registry.minted.len(), 0);
}

#[test]
fn agents_cannot_mint_real_world_assets() {
    let mut component = setup(1);
    for role in [Role::Manager, Role::Agent] {
        let caller = Caller::with_role(role);
        let r = component.mint_real_world_asset_non_fungible(
            &caller,
            "A1".to_owned(),
            "House".to_owned(),
            "A house".to_owned(),
            Amount::from_units(1),
        );
        assert_eq!(r, Err(Error::AuthorizationDenied));
    }
    assert_eq!(component.asset_registry.minted.len(), 0);
}

#[test]
fn fungible_asset_class_carries_its_declaration() {
    let component = setup(1);
    let client = Caller::with_role(Role::Client);
    let class = component
        .mint_real_world_asset_fungible(
            &client,
            "Gold".to_owned(),
            "AU_1".to_owned(),
            "Bars".to_owned(),
            Amount::from_units(500),
            6,
        )
        .unwrap();
    assert_eq!(class.name, "Gold");
    assert_eq!(class.asset_id, "AU_1");
    assert_eq!(class.description, "Bars");
    assert_eq!(class.divisibility, 6);
    assert_eq!(class.supply, Amount::from_units(500));
}

#[test]
fn divisibility_bounds_are_enforced() {
    let component = setup(1);
    let client = Caller::with_role(Role::Client);
    for ok in [0u8, 18u8] {
        assert!(component
            .mint_real_world_asset_fungible(
                &client,
                "Gold".to_owned(),
                "AU_1".to_owned(),
                "Bars".to_owned(),
                Amount::from_units(1),
                ok,
            )
            .is_ok());
    }
    for bad in [19u8, 200u8] {
        let r = component.mint_real_world_asset_fungible(
            &client,
            "Gold".to_owned(),
            "AU_1".to_owned(),
            "Bars".to_owned(),
            Amount::from_units(1),
            bad,
        );
        assert_eq!(r, Err(Error::InvalidDivisibility));
    }
}

#[test]
fn addresses_are_read_by_the_admin_alone() {
    let component = setup(1);
    let admin = Caller::with_role(Role::Admin);
    let addresses = component.get_addresses(&admin).unwrap();
    assert_eq!(addresses.manager_badge, MANAGER_BADGE_ADDRESS);
    assert_eq!(addresses.client_badge, CLIENT_BADGE_ADDRESS);
    assert_eq!(addresses.xrd_vault, 42);
    let manager = Caller::with_role(Role::Manager);
    assert_eq!(
        component.get_addresses(&manager),
        Err(Error::AuthorizationDenied)
    );
}

#[test]
fn zero_price_is_accepted_by_change() {
    let mut component = setup(2);
    let manager = Caller::with_role(Role::Manager);
    assert_eq!(
        component.change_price_per_token(&manager, Amount { attos: 0 }),
        Ok(())
    );
    assert_eq!(component.price_per_token().attos, 0);
}

#[test]
fn zero_payment_exchanges_to_zero_tokens() {
    let mut component = setup(2);
    let client = Caller::with_role(Role::Client);
    let r = component.exchange_xrd_for_secure_token(&client, Amount { attos: 0 });
    assert_eq!(r, Ok(Amount { attos: 0 }));
    assert_eq!(component.xrd_vault.balance.attos, 0);
    assert_eq!(
        component.secure_token.balance.attos,
        1_000_000 * ATTOS_PER_UNIT
    );
}
