//! Genesis presets of the GAIA runtime: the development and local-testnet
//! chain specifications, with the well-known development accounts named
//! rather than derived.
//!
//! Every preset seeds Alice, Bob and Charlie as members, endows each listed
//! development account with `ENDOWED_BALANCE`, and funds the treasury account
//! once with `TREASURY_SEED_BALANCE`.
use vstd::prelude::*;

use crate::membership::MemberName;
use crate::primitives::{Balance, BoundedBytes};

verus! {

/// Balance of every endowed development account (`2^60`).
pub const ENDOWED_BALANCE: Balance = 0x1000_0000_0000_0000;

/// Balance with which the treasury account is seeded.
pub const TREASURY_SEED_BALANCE: Balance = 1_000_000_000_000;

/// The well-known development accounts, derived from the development phrase
/// with the junctions `//Name` (and `//Name//stash` for stash accounts).
#[derive(Clone, Copy, Debug, PartialEq, Eq, Structural)]
pub enum DevAccount {
    Alice,
    Bob,
    Charlie,
    Dave,
    Eve,
    Ferdie,
    AliceStash,
    BobStash,
    CharlieStash,
    DaveStash,
    EveStash,
    FerdieStash,
    One,
    Two,
}

/// An account named in a genesis preset.
#[derive(Clone, Copy, Debug, PartialEq, Eq, Structural)]
pub enum GenesisAccount {
    /// A development account.
    Dev(DevAccount),
    /// The sovereign account of the treasury.
    Treasury,
}

/// A genesis preset: the initial balances, consensus authorities, sudo key and members.
#[derive(Debug)]
pub struct GenesisPreset {
    /// `(account, free balance)` entries of the balances pallet.
    pub balances: Vec<(GenesisAccount, Balance)>,
    /// Block-production (Aura) authorities: the sr25519 keys of these accounts.
    pub aura_authorities: Vec<DevAccount>,
    /// Finality (Grandpa) authorities with their weights: the ed25519 keys of these accounts.
    pub grandpa_authorities: Vec<(DevAccount, u64)>,
    /// The sudo key.
    pub sudo_key: DevAccount,
    /// The initial members of the membership pallet, with their names.
    pub initial_members: Vec<(DevAccount, MemberName)>,
}

/// The preset balances for `endowed` accounts: each endowed with
/// `ENDOWED_BALANCE`, followed by the treasury seed.
pub open spec fn preset_balances(endowed: Seq<DevAccount>) -> Seq<(GenesisAccount, Balance)> {
    Seq::new(endowed.len(), |i: int| (GenesisAccount::Dev(endowed[i]), ENDOWED_BALANCE)).push(
        (GenesisAccount::Treasury, TREASURY_SEED_BALANCE),
    )
}

/// The treasury account appears exactly once in `balances`, as its last
/// entry, seeded with `TREASURY_SEED_BALANCE`.
pub open spec fn treasury_seeded_once(balances: Seq<(GenesisAccount, Balance)>) -> bool {
    &&& balances.len() > 0
    &&& balances.last() == (GenesisAccount::Treasury, TREASURY_SEED_BALANCE)
    &&& forall|i: int| 0 <= i < balances.len() - 1 ==> #[trigger] balances[i].0 != GenesisAccount::Treasury
}

/// Every entry of `balances` other than the treasury's holds `ENDOWED_BALANCE`.
pub open spec fn endowed_with_standard_balance(balances: Seq<(GenesisAccount, Balance)>) -> bool {
    forall|i: int| 0 <= i < balances.len() && #[trigger] balances[i].0 != GenesisAccount::Treasury
        ==> balances[i].1 == ENDOWED_BALANCE
}

/// The preset balances of any endowed accounts seed the treasury exactly
/// once, give every other account the standard endowment, and hold one
/// endowed entry per endowed account.
pub proof fn lemma_preset_balances(endowed: Seq<DevAccount>)
    ensures
        treasury_seeded_once(preset_balances(endowed)),
        endowed_with_standard_balance(preset_balances(endowed)),
        preset_balances(endowed).len() == endowed.len() + 1,
{
}

/// Every development account, in the keyring's order.
pub open spec fn all_dev_accounts() -> Seq<DevAccount> {
    seq![
        DevAccount::Alice,
        DevAccount::Bob,
        DevAccount::Charlie,
        DevAccount::Dave,
        DevAccount::Eve,
        DevAccount::Ferdie,
        DevAccount::AliceStash,
        DevAccount::BobStash,
        DevAccount::CharlieStash,
        DevAccount::DaveStash,
        DevAccount::EveStash,
        DevAccount::FerdieStash,
        DevAccount::One,
        DevAccount::Two,
    ]
}

/// The accounts endowed by the local-testnet preset: every development
/// account except `One` and `Two`.
pub open spec fn local_endowed() -> Seq<DevAccount> {
    all_dev_accounts().filter(|a: DevAccount| a != DevAccount::One && a != DevAccount::Two)
}

/// The accounts endowed by the development preset.
pub open spec fn development_endowed() -> Seq<DevAccount> {
    seq![DevAccount::Alice, DevAccount::Bob, DevAccount::AliceStash, DevAccount::BobStash]
}

/// The member names seeded at genesis.
pub open spec fn seeded_member_names() -> Seq<Seq<u8>> {
    seq![seq![0x41u8, 0x6cu8, 0x69u8, 0x63u8, 0x65u8], seq![0x42u8, 0x6fu8, 0x62u8], seq![
        0x43u8,
        0x68u8,
        0x61u8,
        0x72u8,
        0x6cu8,
        0x69u8,
        0x65u8,
    ]]
}

/// A preset seeds the members Alice, Bob and Charlie, under their names.
pub open spec fn seeds_initial_members(members: Seq<(DevAccount, MemberName)>) -> bool {
    &&& members.len() == 3
    &&& members[0].0 == DevAccount::Alice && members[0].1@ == seeded_member_names()[0]
    &&& members[1].0 == DevAccount::Bob && members[1].1@ == seeded_member_names()[1]
    &&& members[2].0 == DevAccount::Charlie && members[2].1@ == seeded_member_names()[2]
    &&& forall|i: int| 0 <= i < 3 ==> #[trigger] members[i].1.wf()
}

fn bounded_name(name: &[u8]) -> (n: MemberName)
    requires
        name@.len() <= 128,
    ensures
        n.wf(),
        n@ == name@,
{
    match BoundedBytes::try_from_slice(name) {
        Some(n) => n,
        None => {
            proof {
                assert(false);
            }
            BoundedBytes::try_from_slice(&[]).unwrap()
        },
    }
}

/// The members seeded by every preset: Alice, Bob and Charlie.
pub fn initial_members() -> (members: Vec<(DevAccount, MemberName)>)
    ensures
        seeds_initial_members(members@),
{
    let alice = bounded_name(&[0x41u8, 0x6cu8, 0x69u8, 0x63u8, 0x65u8]);
    let bob = bounded_name(&[0x42u8, 0x6fu8, 0x62u8]);
    let charlie = bounded_name(&[0x43u8, 0x68u8, 0x61u8, 0x72u8, 0x6cu8, 0x69u8, 0x65u8]);
    let mut members = Vec::new();
    members.push((DevAccount::Alice, alice));
    members.push((DevAccount::Bob, bob));
    members.push((DevAccount::Charlie, charlie));
    proof {
        assert(alice@ =~= seeded_member_names()[0]);
        assert(bob@ =~= seeded_member_names()[1]);
        assert(charlie@ =~= seeded_member_names()[2]);
    }
    members
}

/// Builds a preset: the given consensus authorities (each with Grandpa
/// weight 1), the endowed accounts followed by the treasury seed, the sudo
/// key `root` and the seeded members.
fn testnet_genesis(
    initial_authorities: Vec<DevAccount>,
    endowed_accounts: Vec<DevAccount>,
    root: DevAccount,
) -> (preset: GenesisPreset)
    requires
        endowed_accounts@.len() < 100,
    ensures
        preset.balances@ == preset_balances(endowed_accounts@),
        preset.aura_authorities@ == initial_authorities@,
        preset.grandpa_authorities@ == Seq::new(
            initial_authorities@.len(),
            |i: int| (initial_authorities@[i], 1u64),
        ),
        preset.sudo_key == root,
        seeds_initial_members(preset.initial_members@),
{
    let initial_members = initial_members();
    let mut balances: Vec<(GenesisAccount, Balance)> = Vec::new();
    let mut i: usize = 0;
    while i < endowed_accounts.len()
        invariant
            i <= endowed_accounts@.len(),
            balances@ == Seq::new(
                i as nat,
                |k: int| (GenesisAccount::Dev(endowed_accounts@[k]), ENDOWED_BALANCE),
            ),
        decreases endowed_accounts@.len() - i,
    {
        balances.push((GenesisAccount::Dev(endowed_accounts[i]), ENDOWED_BALANCE));
        i = i + 1;
        assert(balances@ =~= Seq::new(
            i as nat,
            |k: int| (GenesisAccount::Dev(endowed_accounts@[k]), ENDOWED_BALANCE),
        ));
    }
    balances.push((GenesisAccount::Treasury, TREASURY_SEED_BALANCE));
    let mut grandpa: Vec<(DevAccount, u64)> = Vec::new();
    let mut j: usize = 0;
    while j < initial_authorities.len()
        invariant
            j <= initial_authorities@.len(),
            grandpa@ == Seq::new(j as nat, |k: int| (initial_authorities@[k], 1u64)),
        decreases initial_authorities@.len() - j,
    {
        grandpa.push((initial_authorities[j], 1u64));
        j = j + 1;
        assert(grandpa@ =~= Seq::new(j as nat, |k: int| (initial_authorities@[k], 1u64)));
    }
    assert(balances@ =~= preset_balances(endowed_accounts@));
    GenesisPreset {
        balances,
        aura_authorities: initial_authorities,
        grandpa_authorities: grandpa,
        sudo_key: root,
        initial_members,
    }
}

/// The development preset: Alice as the single authority and sudo key;
/// Alice, Bob and their stash accounts endowed.
pub fn development_config_genesis() -> (preset: GenesisPreset)
    ensures
        preset.balances@ == preset_balances(development_endowed()),
        preset.aura_authorities@ == seq![DevAccount::Alice],
        preset.grandpa_authorities@ == seq![(DevAccount::Alice, 1u64)],
        preset.sudo_key == DevAccount::Alice,
        seeds_initial_members(preset.initial_members@),
{
    let mut authorities = Vec::new();
    authorities.push(DevAccount::Alice);
    let mut endowed = Vec::new();
    endowed.push(DevAccount::Alice);
    endowed.push(DevAccount::Bob);
    endowed.push(DevAccount::AliceStash);
    endowed.push(DevAccount::BobStash);
    assert(endowed@ =~= development_endowed());
    let preset = testnet_genesis(authorities, endowed, DevAccount::Alice);
    assert(preset.grandpa_authorities@ =~= seq![(DevAccount::Alice, 1u64)]);
    preset
}

/// The local-testnet preset: Alice and Bob as authorities, Alice as sudo
/// key, and every development account except `One` and `Two` endowed.
pub fn local_config_genesis() -> (preset: GenesisPreset)
    ensures
        preset.balances@ == preset_balances(local_endowed()),
        preset.aura_authorities@ == seq![DevAccount::Alice, DevAccount::Bob],
        preset.grandpa_authorities@ == seq![(DevAccount::Alice, 1u64), (DevAccount::Bob, 1u64)],
        preset.sudo_key == DevAccount::Alice,
        seeds_initial_members(preset.initial_members@),
{
    let mut authorities = Vec::new();
    authorities.push(DevAccount::Alice);
    authorities.push(DevAccount::Bob);
    let keyring = [
        DevAccount::Alice,
        DevAccount::Bob,
        DevAccount::Charlie,
        DevAccount::Dave,
        DevAccount::Eve,
        DevAccount::Ferdie,
        DevAccount::AliceStash,
        DevAccount::BobStash,
        DevAccount::CharlieStash,
        DevAccount::DaveStash,
        DevAccount::EveStash,
        DevAccount::FerdieStash,
        DevAccount::One,
        DevAccount::Two,
    ];
    assert(keyring@ =~= all_dev_accounts());
    let mut endowed: Vec<DevAccount> = Vec::new();
    let mut i: usize = 0;
    while i < 14
        invariant
            i <= 14,
            keyring@ == all_dev_accounts(),
            endowed@ == all_dev_accounts().take(i as int).filter(
                |a: DevAccount| a != DevAccount::One && a != DevAccount::Two,
            ),
            endowed@.len() <= i,
        decreases 14 - i,
    {
        let account = keyring[i];
        proof {
            reveal_with_fuel(Seq::<_>::filter, 1);
            assert(all_dev_accounts().take(i + 1).drop_last() =~= all_dev_accounts().take(i as int));
            assert(all_dev_accounts().take(i + 1).last() == account);
        }
        if account != DevAccount::One && account != DevAccount::Two {
            endowed.push(account);
        }
        i = i + 1;
    }
    assert(all_dev_accounts().take(14) =~= all_dev_accounts());
    let preset = testnet_genesis(authorities, endowed, DevAccount::Alice);
    assert(preset.grandpa_authorities@ =~= seq![(DevAccount::Alice, 1u64), (DevAccount::Bob, 1u64)]);
    preset
}

/// The id of the development preset, `development`, as bytes.
pub open spec fn development_preset_id() -> Seq<u8> {
    seq![100u8, 101, 118, 101, 108, 111, 112, 109, 101, 110, 116]
}

/// The id of the local-testnet preset, `local_testnet`, as bytes.
pub open spec fn local_testnet_preset_id() -> Seq<u8> {
    seq![108u8, 111, 99, 97, 108, 95, 116, 101, 115, 116, 110, 101, 116]
}

/// What `development_config_genesis` returns.
pub open spec fn is_development_preset(preset: GenesisPreset) -> bool {
    &&& preset.balances@ == preset_balances(development_endowed())
    &&& preset.aura_authorities@ == seq![DevAccount::Alice]
    &&& preset.grandpa_authorities@ == seq![(DevAccount::Alice, 1u64)]
    &&& preset.sudo_key == DevAccount::Alice
    &&& seeds_initial_members(preset.initial_members@)
}

/// What `local_config_genesis` returns.
pub open spec fn is_local_preset(preset: GenesisPreset) -> bool {
    &&& preset.balances@ == preset_balances(local_endowed())
    &&& preset.aura_authorities@ == seq![DevAccount::Alice, DevAccount::Bob]
    &&& preset.grandpa_authorities@ == seq![(DevAccount::Alice, 1u64), (DevAccount::Bob, 1u64)]
    &&& preset.sudo_key == DevAccount::Alice
    &&& seeds_initial_members(preset.initial_members@)
}

fn development_id_bytes() -> (r: Vec<u8>)
    ensures
        r@ == development_preset_id(),
{
    let r = vec![100u8, 101, 118, 101, 108, 111, 112, 109, 101, 110, 116];
    assert(r@ =~= development_preset_id());
    r
}

fn local_testnet_id_bytes() -> (r: Vec<u8>)
    ensures
        r@ == local_testnet_preset_id(),
{
    let r = vec![108u8, 111, 99, 97, 108, 95, 116, 101, 115, 116, 110, 101, 116];
    assert(r@ =~= local_testnet_preset_id());
    r
}

fn bytes_eq(a: &[u8], b: &[u8]) -> (r: bool)
    ensures
        r == (a@ == b@),
{
    if a.len() != b.len() {
        return false;
    }
    let mut i: usize = 0;
    while i < a.len()
        invariant
            a@.len() == b@.len(),
            i <= a@.len(),
            forall|j: int| 0 <= j < i ==> a@[j] == b@[j],
        decreases a@.len() - i,
    {
        if a[i] != b[i] {
            return false;
        }
        i = i + 1;
    }
    assert(a@ =~= b@);
    true
}

/// The preset with the given id: `development` or `local_testnet`; `None`
/// for any other id.
pub fn get_preset(id: &[u8]) -> (r: Option<GenesisPreset>)
    ensures
        r is Some <==> (id@ == development_preset_id() || id@ == local_testnet_preset_id()),
        id@ == development_preset_id() ==> (r matches Some(p) && is_development_preset(p)),
        id@ == local_testnet_preset_id() ==> (r matches Some(p) && is_local_preset(p)),
{
    let dev = development_id_bytes();
    let local = local_testnet_id_bytes();
    if bytes_eq(id, dev.as_slice()) {
        Some(development_config_genesis())
    } else if bytes_eq(id, local.as_slice()) {
        Some(local_config_genesis())
    } else {
        None
    }
}

/// The ids of the supported presets: `development`, then `local_testnet`.
pub fn preset_names() -> (r: Vec<Vec<u8>>)
    ensures
        r@.len() == 2,
        r@[0]@ == development_preset_id(),
        r@[1]@ == local_testnet_preset_id(),
{
    let mut names = Vec::new();
    names.push(development_id_bytes());
    names.push(local_testnet_id_bytes());
    names
}

} // verus!
