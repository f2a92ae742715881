use gaia::genesis_presets::{
    development_config_genesis, get_preset, local_config_genesis, preset_names, DevAccount, GenesisAccount,
    GenesisPreset, ENDOWED_BALANCE, TREASURY_SEED_BALANCE,
};

fn member_count(preset: &GenesisPreset) -> usize {
    preset.initial_members.len()
}

fn treasury_entries(preset: &GenesisPreset) -> Vec<u128> {
    preset
        .balances
        .iter()
        .filter(|(account, _)| *account == GenesisAccount::Treasury)
        .map(|(_, balance)| *balance)
        .collect()
}

#[test]
fn development_preset_has_non_empty_initial_members() {
    assert!(member_count(&development_config_genesis()) > 0);
}

#[test]
fn local_preset_has_non_empty_initial_members() {
    assert!(member_count(&local_config_genesis()) > 0);
}

#[test]
fn development_preset_includes_treasury_account_with_seed_balance() {
    let entries = treasury_entries(&development_config_genesis());
    assert!(!entries.is_empty(), "development preset must include treasury account in balances");
    assert_eq!(entries[0], TREASURY_SEED_BALANCE, "treasury seed balance must be {TREASURY_SEED_BALANCE}");
}

#[test]
fn local_preset_includes_treasury_account_with_seed_balance() {
    let entries = treasury_entries(&local_config_genesis());
    assert!(!entries.is_empty(), "local preset must include treasury account in balances");
    assert_eq!(entries[0], TREASURY_SEED_BALANCE, "treasury seed balance must be {TREASURY_SEED_BALANCE}");
}

#[test]
fn development_preset_endowed_accounts_have_correct_balance() {
    let preset = development_config_genesis();
    let endowed: Vec<_> = preset.balances.iter().filter(|(account, _)| *account != GenesisAccount::Treasury).collect();
    assert!(!endowed.is_empty(), "development preset must have at least one endowed account");
    for (account, balance) in &endowed {
        assert_eq!(*balance, ENDOWED_BALANCE, "endowed account {account:?} must have balance {ENDOWED_BALANCE}");
    }
}

#[test]
fn local_preset_endowed_accounts_have_correct_balance() {
    let preset = local_config_genesis();
    let endowed: Vec<_> = preset.balances.iter().filter(|(account, _)| *account != GenesisAccount::Treasury).collect();
    assert!(!endowed.is_empty(), "local preset must have at least one endowed account");
    for (account, balance) in &endowed {
        assert_eq!(*balance, ENDOWED_BALANCE, "endowed account {account:?} must have balance {ENDOWED_BALANCE}");
    }
}

#[test]
fn treasury_account_is_not_duplicated_in_balances() {
    for (name, preset) in [("development", development_config_genesis()), ("local", local_config_genesis())] {
        let count = treasury_entries(&preset).len();
        assert_eq!(count, 1, "{name} preset must contain exactly one treasury balance entry, found {count}");
    }
}

// --- Further cases of this library ---

#[test]
fn presets_are_found_by_id() {
    let names = preset_names();
    assert_eq!(names, vec![b"development".to_vec(), b"local_testnet".to_vec()]);
    let dev = get_preset(b"development").expect("development preset");
    assert_eq!(dev.sudo_key, DevAccount::Alice);
    assert_eq!(dev.aura_authorities, vec![DevAccount::Alice]);
    assert_eq!(dev.balances.len(), 5);
    let local = get_preset(b"local_testnet").expect("local preset");
    assert_eq!(local.aura_authorities, vec![DevAccount::Alice, DevAccount::Bob]);
    assert_eq!(local.grandpa_authorities, vec![(DevAccount::Alice, 1), (DevAccount::Bob, 1)]);
    // Twelve endowed accounts (all but One and Two) and the treasury.
    assert_eq!(local.balances.len(), 13);
    assert!(!local.balances.iter().any(|(a, _)| *a == GenesisAccount::Dev(DevAccount::One)));
    assert!(get_preset(b"staging").is_none());
    assert!(get_preset(b"").is_none());
}

#[test]
fn presets_seed_alice_bob_charlie_as_members() {
    let preset = development_config_genesis();
    let members: Vec<(DevAccount, Vec<u8>)> =
        preset.initial_members.iter().map(|(a, n)| (*a, n.to_vec())).collect();
    assert_eq!(
        members,
        vec![
            (DevAccount::Alice, b"Alice".to_vec()),
            (DevAccount::Bob, b"Bob".to_vec()),
            (DevAccount::Charlie, b"Charlie".to_vec()),
        ]
    );
}
