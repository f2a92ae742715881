//! Chain-level primitives shared by the GAIA pallets: account, block and
//! balance types, dispatch origins and errors, pallet identifiers and
//! length-bounded byte strings.
use vstd::prelude::*;

use std::collections::BTreeMap;

use crate::membership;
use crate::proposals;
use crate::treasury;

verus! {

/// Account identifier. Accounts are plain integers in this model of the chain.
pub type AccountId = u64;

/// Block number type of the runtime.
pub type BlockNumber = u32;

/// Balance type of the runtime.
pub type Balance = u128;

/// The origin of a dispatched call.
#[derive(Clone, Copy, Debug, PartialEq, Eq, Structural)]
pub enum Origin {
    /// The root (sudo) origin.
    Root,
    /// A call signed by an account.
    Signed(AccountId),
    /// An unsigned call.
    Unsigned,
}

/// Error returned by a dispatched call.
#[derive(Clone, Copy, Debug, PartialEq, Eq, Structural)]
pub enum DispatchError {
    /// The origin is not allowed to make this call.
    BadOrigin,
    /// An error of the membership pallet.
    Membership(membership::Error),
    /// An error of the proposals pallet.
    Proposals(proposals::Error),
    /// An error of the treasury pallet.
    Treasury(treasury::Error),
    /// A token operation was refused.
    Token(TokenError),
    /// An arithmetic operation would leave the balance type's range.
    Arithmetic(ArithmeticError),
}

/// Why a movement of tokens was refused.
#[derive(Clone, Copy, Debug, PartialEq, Eq, Structural)]
pub enum TokenError {
    /// The paying account holds less than the amount.
    FundsUnavailable,
}

/// Why an arithmetic operation on balances was refused.
#[derive(Clone, Copy, Debug, PartialEq, Eq, Structural)]
pub enum ArithmeticError {
    /// The result would exceed the largest balance.
    Overflow,
}

/// The account that signed `origin`, if it is a signed origin.
pub open spec fn signer_of(origin: Origin) -> Option<AccountId> {
    match origin {
        Origin::Signed(who) => Some(who),
        _ => None,
    }
}

/// Accepts a signed origin and yields its account; any other origin is `BadOrigin`.
pub fn ensure_signed(origin: Origin) -> (r: Result<AccountId, DispatchError>)
    ensures
        match signer_of(origin) {
            Some(who) => r == Ok::<AccountId, DispatchError>(who),
            None => r == Err::<AccountId, DispatchError>(DispatchError::BadOrigin),
        },
{
    match origin {
        Origin::Signed(who) => Ok(who),
        _ => Err(DispatchError::BadOrigin),
    }
}

/// Accepts only the root origin.
pub fn ensure_root(origin: Origin) -> (r: Result<(), DispatchError>)
    ensures
        r == (if origin == Origin::Root {
            Ok::<(), DispatchError>(())
        } else {
            Err::<(), DispatchError>(DispatchError::BadOrigin)
        }),
{
    match origin {
        Origin::Root => Ok(()),
        _ => Err(DispatchError::BadOrigin),
    }
}

/// An eight-byte pallet identifier from which a sovereign account is derived.
#[derive(Clone, Copy, Debug)]
pub struct PalletId(pub [u8; 8]);

/// The type tag that prefixes a pallet identifier when its account is derived.
pub open spec fn pallet_type_tag() -> Seq<u8> {
    seq![0x6du8, 0x6fu8, 0x64u8, 0x6cu8]
}

/// Little-endian value of the first eight bytes of `bytes`.
pub open spec fn le_u64(bytes: Seq<u8>) -> int {
    bytes[0] + 0x100 * bytes[1] + 0x1_0000 * bytes[2] + 0x100_0000 * bytes[3]
        + 0x1_0000_0000 * bytes[4] + 0x100_0000_0000 * bytes[5]
        + 0x1_0000_0000_0000 * bytes[6] + 0x100_0000_0000_0000 * bytes[7]
}

/// The sovereign account of a pallet: the tag `modl` followed by the identifier,
/// decoded as an account (the first eight bytes, little-endian).
pub open spec fn pallet_account(id: Seq<u8>) -> int {
    le_u64(pallet_type_tag() + id)
}

impl PalletId {
    /// Derives the sovereign account of this pallet identifier, truncating the
    /// encoding `modl ++ id` to the width of an account.
    pub fn into_account_truncating(&self) -> (account: AccountId)
        ensures
            account == pallet_account(self.0@),
    {
        let id = self.0;
        let ghost tagged = pallet_type_tag() + id@;
        assert(tagged[0] == 0x6du8 && tagged[1] == 0x6fu8 && tagged[2] == 0x64u8 && tagged[3]
            == 0x6cu8);
        assert(tagged[4] == id@[0] && tagged[5] == id@[1] && tagged[6] == id@[2] && tagged[7]
            == id@[3]);
        0x6du64 + 0x100u64 * 0x6fu64 + 0x1_0000u64 * 0x64u64 + 0x100_0000u64 * 0x6cu64
            + 0x1_0000_0000u64 * (id[0] as u64) + 0x100_0000_0000u64 * (id[1] as u64)
            + 0x1_0000_0000_0000u64 * (id[2] as u64) + 0x100_0000_0000_0000u64 * (id[3] as u64)
    }
}

/// A byte string of at most `N` bytes.
#[derive(Clone, Copy, Debug)]
pub struct BoundedBytes<const N: usize> {
    bytes: [u8; N],
    len: usize,
}

impl<const N: usize> View for BoundedBytes<N> {
    type V = Seq<u8>;

    closed spec fn view(&self) -> Seq<u8> {
        self.bytes@.subrange(0, self.len as int)
    }
}

impl<const N: usize> BoundedBytes<N> {
    /// Every value of this type holds at most `N` bytes.
    #[verifier::type_invariant]
    pub closed spec fn wf(&self) -> bool {
        self.len <= N
    }

    /// Bounds `data`, failing when it is longer than `N` bytes.
    pub fn try_from_slice(data: &[u8]) -> (r: Option<Self>)
        ensures
            r.is_some() <==> data@.len() <= N,
            r matches Some(b) ==> b.wf() && b@ == data@,
    {
        if data.len() > N {
            return None;
        }
        let mut bytes = [0u8; N];
        let mut i: usize = 0;
        while i < data.len()
            invariant
                i <= data.len() <= N,
                bytes@.len() == N,
                forall|j: int| 0 <= j < i ==> bytes@[j] == data@[j],
            decreases data.len() - i,
        {
            bytes[i] = data[i];
            i = i + 1;
        }
        let r = BoundedBytes { bytes, len: data.len() };
        assert(r@ =~= data@);
        Some(r)
    }

    /// Number of bytes held.
    pub fn len(&self) -> (n: usize)
        ensures
            n == self@.len(),
    {
        proof {
            use_type_invariant(self);
        }
        self.len
    }

    /// The bytes held, as a vector.
    pub fn to_vec(&self) -> (v: Vec<u8>)
        ensures
            v@ == self@,
    {
        proof {
            use_type_invariant(self);
        }
        let mut v: Vec<u8> = Vec::new();
        let mut i: usize = 0;
        while i < self.len
            invariant
                self.wf(),
                i <= self.len,
                self.bytes@.len() == N,
                v@ == self.bytes@.subrange(0, i as int),
            decreases self.len - i,
        {
            v.push(self.bytes[i]);
            i = i + 1;
            assert(v@ =~= self.bytes@.subrange(0, i as int));
        }
        v
    }
}

/// A stored value that reads as zero while absent.
pub open spec fn stored_or_zero(v: Option<u32>) -> u32 {
    match v {
        Some(x) => x,
        None => 0,
    }
}

/// A per-key counter that reads as zero while absent.
pub open spec fn counter<K>(m: Map<K, u32>, k: K) -> u32 {
    if m.contains_key(k) {
        m[k]
    } else {
        0
    }
}

/// `x * y`, saturating at `u32::MAX`.
pub open spec fn sat_mul(x: u32, y: u32) -> u32 {
    if x * y > u32::MAX {
        u32::MAX
    } else {
        (x * y) as u32
    }
}

/// `x + y`, saturating at `u32::MAX`.
pub open spec fn sat_add(x: u32, y: u32) -> u32 {
    if x + y > u32::MAX {
        u32::MAX
    } else {
        (x + y) as u32
    }
}

/// `x - y`, saturating at zero.
pub open spec fn sat_sub(x: u32, y: u32) -> u32 {
    if x < y {
        0
    } else {
        (x - y) as u32
    }
}

/// The fraction `numerator / denominator` is a valid threshold.
pub open spec fn valid_threshold(numerator: u32, denominator: u32) -> bool {
    denominator != 0 && numerator <= denominator
}

/// `votes` reach the fraction `numerator / denominator` of `total`
/// (`votes * denominator >= total * numerator`, both products saturating).
pub open spec fn reaches_threshold(votes: u32, total: u32, numerator: u32, denominator: u32) -> bool {
    sat_mul(votes, denominator) >= sat_mul(total, numerator)
}

/// The accounts recorded in `votes` as voting `approve` on subject `id` (a
/// proposal, or a member proposed for suspension).
pub open spec fn voters<K>(votes: Map<(K, AccountId), bool>, id: K, approve: bool) -> Set<AccountId> {
    Set::new(|v: AccountId| votes.contains_key((id, v)) && votes[(id, v)] == approve)
}

/// Every subject's yes and no counters equal the number of accounts
/// recorded as voting that way on it, capped at `u32::MAX`.
pub open spec fn counts_match<K>(yes: Map<K, u32>, no: Map<K, u32>, votes: Map<(K, AccountId), bool>) -> bool {
    forall|id: K|
        #![trigger counter(yes, id)]
        #![trigger counter(no, id)]
        counter(yes, id) == capped(voters(votes, id, true).len()) && counter(no, id) == capped(
            voters(votes, id, false).len(),
        )
}

/// Every subject's approval counter equals the number of accounts recorded
/// as approving it, capped at `u32::MAX`.
pub open spec fn approvals_match<K>(approvals: Map<K, u32>, votes: Map<(K, AccountId), bool>) -> bool {
    forall|id: K| #[trigger] counter(approvals, id) == capped(voters(votes, id, true).len())
}

/// A count, capped at `u32::MAX`.
pub open spec fn capped(n: nat) -> u32 {
    if n > u32::MAX {
        u32::MAX
    } else {
        n as u32
    }
}

/// The voters of a subject are finitely many when the recorded votes are.
pub(crate) proof fn lemma_voters_finite<K>(votes: Map<(K, AccountId), bool>, id: K, approve: bool)
    requires
        votes.dom().finite(),
    ensures
        voters(votes, id, approve).finite(),
{
    let f = |k: (K, AccountId)| k.1;
    votes.dom().lemma_map_finite(f);
    assert(voters(votes, id, approve).subset_of(votes.dom().map(f))) by {
        assert forall|v: AccountId| voters(votes, id, approve).contains(v) implies votes.dom().map(f).contains(v) by {
            assert(votes.dom().contains((id, v)));
            assert(f((id, v)) == v);
        }
    }
    vstd::set_lib::lemma_set_subset_finite(votes.dom().map(f), voters(votes, id, approve));
}

/// Recording a new vote adds its voter to exactly one set of voters.
pub(crate) proof fn lemma_record_vote<K>(
    votes: Map<(K, AccountId), bool>,
    id: K,
    who: AccountId,
    approve: bool,
    k: K,
    b: bool,
)
    requires
        !votes.contains_key((id, who)),
        votes.dom().finite(),
    ensures
        k == id && b == approve ==> capped(voters(votes.insert((id, who), approve), k, b).len())
            == sat_add(capped(voters(votes, k, b).len()), 1),
        !(k == id && b == approve) ==> voters(votes.insert((id, who), approve), k, b) == voters(
            votes,
            k,
            b,
        ),
{
    let after = votes.insert((id, who), approve);
    if k == id && b == approve {
        assert(voters(after, k, b) =~= voters(votes, k, b).insert(who));
        lemma_voters_finite(votes, k, b);
        assert(!voters(votes, k, b).contains(who));
    } else {
        assert(voters(after, k, b) =~= voters(votes, k, b));
    }
}

/// With no recorded votes, every counter must read zero.
pub(crate) proof fn lemma_no_votes_no_voters<K>(id: K, approve: bool)
    ensures
        voters(Map::<(K, AccountId), bool>::empty(), id, approve).len() == 0,
{
    assert(voters(Map::<(K, AccountId), bool>::empty(), id, approve) =~= Set::<AccountId>::empty());
}

/// `x * y`, saturating at `u32::MAX`.
pub fn saturating_mul(x: u32, y: u32) -> (r: u32)
    ensures
        r == sat_mul(x, y),
{
    match x.checked_mul(y) {
        Some(v) => v,
        None => u32::MAX,
    }
}

/// Whether `votes` reach the fraction `numerator / denominator` of `total`.
pub fn meets_threshold(votes: u32, total: u32, numerator: u32, denominator: u32) -> (r: bool)
    ensures
        r == reaches_threshold(votes, total, numerator, denominator),
{
    saturating_mul(votes, denominator) >= saturating_mul(total, numerator)
}

/// The value of a per-key counter, zero while absent.
pub(crate) fn read_counter<K: Ord>(m: &BTreeMap<K, u32>, k: &K) -> (r: u32)
    requires
        vstd::laws_cmp::obeys_cmp::<K>(),
    ensures
        r == counter(m@, *k),
{
    match m.get(k) {
        Some(v) => *v,
        None => 0,
    }
}

/// A stored value, zero while absent.
pub(crate) fn read_stored(v: Option<u32>) -> (r: u32)
    ensures
        r == stored_or_zero(v),
{
    match v {
        Some(x) => x,
        None => 0,
    }
}

} // verus!
