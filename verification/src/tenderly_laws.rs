//! Properties of simulation summaries.
use vstd::prelude::*;
use crate::ascii::{lemma_lower_idempotent, lower_seq};
use crate::tenderly::{
    address_matches, change_views, changes_into, changes_out_of, gas_limit_for, reported_changes, AssetChange,
    AssetChangeView, SimulationResult,
};

verus! {

/// The wallet split does not depend on the ASCII case of the address.
pub proof fn lemma_wallet_case_insensitive(s: Seq<AssetChangeView>, addr: Seq<char>)
    ensures
        changes_into(s, addr) == changes_into(s, lower_seq(addr)),
        changes_out_of(s, addr) == changes_out_of(s, lower_seq(addr)),
    decreases s.len(),
{
    lemma_lower_idempotent(addr);
    if s.len() > 0 {
        lemma_wallet_case_insensitive(s.drop_last(), addr);
    }
}

/// Every change listed as incoming moves assets to the wallet, every change
/// listed as outgoing moves assets from it, and neither list is longer than
/// the report.
pub proof fn lemma_wallet_changes_sound(s: Seq<AssetChangeView>, addr: Seq<char>)
    ensures
        forall|i: int|
            0 <= i < changes_into(s, addr).len() ==> address_matches(#[trigger] changes_into(s, addr)[i].to, addr),
        forall|i: int|
            0 <= i < changes_out_of(s, addr).len() ==> address_matches(
                #[trigger] changes_out_of(s, addr)[i].from,
                addr,
            ),
        changes_into(s, addr).len() <= s.len(),
        changes_out_of(s, addr).len() <= s.len(),
    decreases s.len(),
{
    if s.len() > 0 {
        lemma_wallet_changes_sound(s.drop_last(), addr);
    }
}

/// Every change that moves assets to the wallet is listed as incoming, and
/// every one that moves assets from it as outgoing.
pub proof fn lemma_wallet_changes_complete(s: Seq<AssetChangeView>, addr: Seq<char>, i: int)
    requires
        0 <= i < s.len(),
    ensures
        address_matches(s[i].to, addr) ==> changes_into(s, addr).contains(s[i]),
        address_matches(s[i].from, addr) ==> changes_out_of(s, addr).contains(s[i]),
    decreases s.len(),
{
    let rest = s.drop_last();
    if i < s.len() - 1 {
        lemma_wallet_changes_complete(rest, addr, i);
        assert(s[i] == rest[i]);
        let a = changes_into(rest, addr);
        let b = changes_out_of(rest, addr);
        if address_matches(s[i].to, addr) {
            let j = choose|j: int| 0 <= j < a.len() && a[j] == s[i];
            assert(a.push(s.last())[j] == s[i]);
        }
        if address_matches(s[i].from, addr) {
            let j = choose|j: int| 0 <= j < b.len() && b[j] == s[i];
            assert(b.push(s.last())[j] == s[i]);
        }
    } else {
        let a = changes_into(rest, addr);
        let b = changes_out_of(rest, addr);
        assert(a.push(s.last())[a.len() as int] == s[i]);
        assert(b.push(s.last())[b.len() as int] == s[i]);
    }
}

/// The gas limit is twice the gas used when that fits, the largest `u128`
/// otherwise, and never below the gas used.
pub proof fn lemma_gas_limit(gas_used: u128)
    ensures
        gas_limit_for(gas_used) >= gas_used,
        gas_used <= u128::MAX / 2 ==> gas_limit_for(gas_used) == 2 * gas_used,
        gas_used > u128::MAX / 2 ==> gas_limit_for(gas_used) == u128::MAX,
{
}

/// A summary looks at every asset change a simulation reports: each change
/// of the list that moves assets to the wallet is among the incoming ones,
/// each that moves assets from it among the outgoing ones, and every
/// reported change is one of the list.
pub proof fn lemma_summary_covers_every_change(
    sim: SimulationResult,
    v: Vec<AssetChange>,
    wallet: Seq<char>,
    i: int,
)
    requires
        sim.transaction.transaction_info.asset_changes == Some(v),
        0 <= i < v.len(),
    ensures
        reported_changes(sim).len() == v.len(),
        reported_changes(sim)[i] == v@[i]@,
        address_matches(v@[i]@.to, wallet) ==> changes_into(reported_changes(sim), wallet).contains(v@[i]@),
        address_matches(v@[i]@.from, wallet) ==> changes_out_of(reported_changes(sim), wallet).contains(v@[i]@),
{
    assert(reported_changes(sim) == change_views(v@));
    lemma_wallet_changes_complete(change_views(v@), wallet, i);
}

} // verus!
