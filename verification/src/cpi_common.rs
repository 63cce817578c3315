//! Accounts of the calls that the market makes into the SY program.
use crate::account_meta::{meta, AccountMeta};
use crate::pubkey::Pubkey;
use std::collections::HashMap;
use vstd::prelude::*;

verus! {

/// Account lists for validating CPI calls to the SY program
#[derive(Clone, Debug, Default)]
pub struct CpiAccounts {
    /// Fetch SY state
    pub get_sy_state: Vec<CpiInterfaceContext>,
    /// Deposit SY into personal account owned by vault
    pub deposit_sy: Vec<CpiInterfaceContext>,
    /// Withdraw SY from personal account owned by vault
    pub withdraw_sy: Vec<CpiInterfaceContext>,
    /// Settle rewards for vault to accounts owned by the vault
    pub claim_emission: Vec<Vec<CpiInterfaceContext>>,
    /// Get personal yield position
    pub get_position_state: Vec<CpiInterfaceContext>,
}

/// One account of a CPI call, named by its index in the address lookup table.
#[derive(Clone, Copy, Debug)]
pub struct CpiInterfaceContext {
    /// Address-lookup-table index
    pub alt_index: u8,
    pub is_signer: bool,
    pub is_writable: bool,
}

/// Some context of `s` names the table index `idx`.
pub open spec fn mentions(s: Seq<CpiInterfaceContext>, idx: u8) -> bool
    decreases s.len(),
{
    if s.len() == 0 {
        false
    } else {
        mentions(s.drop_last(), idx) || s.last().alt_index == idx
    }
}

/// Some context of `s` names `idx` and must sign.
pub open spec fn any_signer(s: Seq<CpiInterfaceContext>, idx: u8) -> bool
    decreases s.len(),
{
    if s.len() == 0 {
        false
    } else {
        any_signer(s.drop_last(), idx) || (s.last().alt_index == idx && s.last().is_signer)
    }
}

/// Some context of `s` names `idx` and is writable.
pub open spec fn any_writable(s: Seq<CpiInterfaceContext>, idx: u8) -> bool
    decreases s.len(),
{
    if s.len() == 0 {
        false
    } else {
        any_writable(s.drop_last(), idx) || (s.last().alt_index == idx && s.last().is_writable)
    }
}

/// No two contexts of `s` name the same table index.
pub open spec fn distinct_indices(s: Seq<CpiInterfaceContext>) -> bool {
    forall|i: int, j: int|
        0 <= i < j < s.len() ==> #[trigger] s[i].alt_index != #[trigger] s[j].alt_index
}

/// `s` holds one context for each table index that `contexts` names, each with
/// the signer and writable flags of all contexts naming that index combined.
pub open spec fn merged_contexts(
    s: Seq<CpiInterfaceContext>,
    contexts: Seq<CpiInterfaceContext>,
) -> bool {
    &&& distinct_indices(s)
    &&& forall|i: int|
        0 <= i < s.len() ==> {
            &&& mentions(contexts, #[trigger] s[i].alt_index)
            &&& s[i].is_signer == any_signer(contexts, s[i].alt_index)
            &&& s[i].is_writable == any_writable(contexts, s[i].alt_index)
        }
    &&& forall|idx: u8| #[trigger] mentions(contexts, idx) ==> exists|i: int| 0 <= i < s.len() && s[i].alt_index == idx
}

/// `m` maps each table index that `s` names to one context for it, with the
/// signer and writable flags of all contexts of `s` naming it combined.
pub open spec fn merged_by_index(m: Map<u8, CpiInterfaceContext>, s: Seq<CpiInterfaceContext>) -> bool {
    forall|idx: u8|
        #[trigger] m.contains_key(idx) == mentions(s, idx) && (m.contains_key(idx) ==> {
            &&& m[idx].alt_index == idx
            &&& m[idx].is_signer == any_signer(s, idx)
            &&& m[idx].is_writable == any_writable(s, idx)
        })
}

/// A table index that `s` names is the index of one of its contexts.
proof fn lemma_mentioned_at(s: Seq<CpiInterfaceContext>, idx: u8)
    requires
        mentions(s, idx),
    ensures
        exists|j: int| 0 <= j < s.len() && s[j].alt_index == idx,
    decreases s.len(),
{
    if s.last().alt_index == idx {
        assert(s[s.len() - 1].alt_index == idx);
    } else {
        lemma_mentioned_at(s.drop_last(), idx);
        let j = choose|j: int| 0 <= j < s.drop_last().len() && s.drop_last()[j].alt_index == idx;
        assert(s[j].alt_index == idx);
    }
}

/// Whether some context of `s` names `idx`, signs, or is writable for it, is
/// whether there is such a context at some position of `s`.
proof fn lemma_flags_at(s: Seq<CpiInterfaceContext>, idx: u8)
    ensures
        mentions(s, idx) <==> has_entry_at(s, idx),
        any_signer(s, idx) <==> has_signer_at(s, idx),
        any_writable(s, idx) <==> has_writable_at(s, idx),
    decreases s.len(),
{
    if s.len() > 0 {
        let t = s.drop_last();
        lemma_flags_at(t, idx);
        let n = s.len() - 1;
        assert forall|j: int| 0 <= j < t.len() implies #[trigger] t[j] == s[j] by {}
        if exists|j: int| 0 <= j < s.len() && #[trigger] s[j].alt_index == idx {
            let j = choose|j: int| 0 <= j < s.len() && #[trigger] s[j].alt_index == idx;
            if j < n {
                assert(t[j].alt_index == idx);
            }
        }
        if exists|j: int| 0 <= j < s.len() && #[trigger] s[j].alt_index == idx && s[j].is_signer {
            let j = choose|j: int|
                0 <= j < s.len() && #[trigger] s[j].alt_index == idx && s[j].is_signer;
            if j < n {
                assert(t[j].alt_index == idx && t[j].is_signer);
            }
        }
        if exists|j: int| 0 <= j < s.len() && #[trigger] s[j].alt_index == idx && s[j].is_writable {
            let j = choose|j: int|
                0 <= j < s.len() && #[trigger] s[j].alt_index == idx && s[j].is_writable;
            if j < n {
                assert(t[j].alt_index == idx && t[j].is_writable);
            }
        }
        if mentions(t, idx) {
            let j = choose|j: int| 0 <= j < t.len() && #[trigger] t[j].alt_index == idx;
            assert(s[j].alt_index == idx);
        }
        if any_signer(t, idx) {
            let j = choose|j: int| 0 <= j < t.len() && #[trigger] t[j].alt_index == idx && t[j].is_signer;
            assert(s[j].alt_index == idx && s[j].is_signer);
        }
        if any_writable(t, idx) {
            let j = choose|j: int| 0 <= j < t.len() && #[trigger] t[j].alt_index == idx && t[j].is_writable;
            assert(s[j].alt_index == idx && s[j].is_writable);
        }
        assert(s[n] == s.last());
    }
}

/// Some entry of `s` is at table index `idx`.
pub open spec fn has_entry_at(s: Seq<CpiInterfaceContext>, idx: u8) -> bool {
    exists|i: int| 0 <= i < s.len() && s[i].alt_index == idx
}

/// Some entry of `s` is at table index `idx` and signs.
pub open spec fn has_signer_at(s: Seq<CpiInterfaceContext>, idx: u8) -> bool {
    exists|i: int| 0 <= i < s.len() && s[i].alt_index == idx && s[i].is_signer
}

/// Some entry of `s` is at table index `idx` and is writable.
pub open spec fn has_writable_at(s: Seq<CpiInterfaceContext>, idx: u8) -> bool {
    exists|i: int| 0 <= i < s.len() && s[i].alt_index == idx && s[i].is_writable
}

/// A merge of contexts by table index holds one entry for each index that some
/// context names and no other; each entry signs exactly when some context at
/// its index signs, and is writable exactly when some context at its index is
/// writable.
pub proof fn lemma_merged_contexts_by_position(
    s: Seq<CpiInterfaceContext>,
    contexts: Seq<CpiInterfaceContext>,
)
    requires
        merged_contexts(s, contexts),
    ensures
        forall|i: int, j: int|
            0 <= i < j < s.len() ==> #[trigger] s[i].alt_index != #[trigger] s[j].alt_index,
        forall|j: int|
            0 <= j < contexts.len() ==> has_entry_at(s, #[trigger] contexts[j].alt_index),
        forall|i: int|
            0 <= i < s.len() ==> {
                &&& has_entry_at(contexts, #[trigger] s[i].alt_index)
                &&& s[i].is_signer == has_signer_at(contexts, s[i].alt_index)
                &&& s[i].is_writable == has_writable_at(contexts, s[i].alt_index)
            },
{
    assert forall|j: int| 0 <= j < contexts.len() implies has_entry_at(
        s,
        #[trigger] contexts[j].alt_index,
    ) by {
        let idx = contexts[j].alt_index;
        lemma_flags_at(contexts, idx);
        assert(mentions(contexts, idx));
    }
    assert forall|i: int| 0 <= i < s.len() implies {
        &&& has_entry_at(contexts, #[trigger] s[i].alt_index)
        &&& s[i].is_signer == has_signer_at(contexts, s[i].alt_index)
        &&& s[i].is_writable == has_writable_at(contexts, s[i].alt_index)
    } by {
        lemma_flags_at(contexts, s[i].alt_index);
    }
}

/// Merges the contexts that name the same table index into one, whose signer
/// and writable flags are those of all of them combined.
pub fn unique_cpi_contexts(contexts: &[CpiInterfaceContext]) -> (r: Vec<CpiInterfaceContext>)
    ensures
        merged_contexts(r@, contexts@),
        forall|i: int, j: int|
            0 <= i < j < r@.len() ==> #[trigger] r@[i].alt_index != #[trigger] r@[j].alt_index,
        forall|j: int|
            0 <= j < contexts@.len() ==> has_entry_at(r@, #[trigger] contexts@[j].alt_index),
        forall|i: int|
            0 <= i < r@.len() ==> {
                &&& has_entry_at(contexts@, #[trigger] r@[i].alt_index)
                &&& r@[i].is_signer == has_signer_at(contexts@, r@[i].alt_index)
                &&& r@[i].is_writable == has_writable_at(contexts@, r@[i].alt_index)
            },
{
    broadcast use vstd::std_specs::hash::group_hash_axioms;

    let mut seen: HashMap<u8, CpiInterfaceContext> = HashMap::new();
    let n = contexts.len();
    let mut k: usize = 0;
    assert(contexts@.take(0) =~= Seq::<CpiInterfaceContext>::empty());
    while k < n
        invariant
            0 <= k <= n,
            n == contexts@.len(),
            merged_by_index(seen@, contexts@.take(k as int)),
        decreases n - k,
    {
        let c = contexts[k];
        let ghost prefix = contexts@.take(k as int);
        let ghost next = contexts@.take(k + 1);
        assert(next.drop_last() =~= prefix);
        assert(next.last() == c);
        let merged = match seen.get(&c.alt_index) {
            Some(e) => CpiInterfaceContext {
                alt_index: c.alt_index,
                is_signer: e.is_signer || c.is_signer,
                is_writable: e.is_writable || c.is_writable,
            },
            None => {
                proof {
                    lemma_flags_imply_mention(prefix, c.alt_index);
                }
                c
            },
        };
        let ghost old_seen = seen@;
        seen.insert(c.alt_index, merged);
        assert forall|idx: u8| #[trigger] seen@.contains_key(idx) == mentions(next, idx) && (
        seen@.contains_key(idx) ==> {
            &&& seen@[idx].alt_index == idx
            &&& seen@[idx].is_signer == any_signer(next, idx)
            &&& seen@[idx].is_writable == any_writable(next, idx)
        }) by {
            assert(old_seen.contains_key(idx) == mentions(prefix, idx));
            assert(mentions(next, idx) == (mentions(prefix, idx) || c.alt_index == idx));
            assert(any_signer(next, idx) == (any_signer(prefix, idx) || (c.alt_index == idx
                && c.is_signer)));
            assert(any_writable(next, idx) == (any_writable(prefix, idx) || (c.alt_index == idx
                && c.is_writable)));
        }
        k = k + 1;
    }
    assert(contexts@.take(n as int) =~= contexts@);
    let ghost all = seen@;
    let mut out: Vec<CpiInterfaceContext> = Vec::new();
    let mut k: usize = 0;
    while k < n
        invariant
            0 <= k <= n,
            n == contexts@.len(),
            merged_by_index(all, contexts@),
            forall|idx: u8| #[trigger]
                seen@.contains_key(idx) ==> all.contains_key(idx) && seen@[idx] == all[idx],
            forall|i: int|
                0 <= i < out@.len() ==> all.contains_key(#[trigger] out@[i].alt_index) && out@[i]
                    == all[out@[i].alt_index] && !seen@.contains_key(out@[i].alt_index),
            distinct_indices(out@),
            forall|idx: u8| #[trigger]
                all.contains_key(idx) ==> seen@.contains_key(idx) || exists|i: int|
                    0 <= i < out@.len() && out@[i].alt_index == idx,
            forall|j: int| 0 <= j < k ==> !seen@.contains_key(#[trigger] contexts@[j].alt_index),
        decreases n - k,
    {
        let idx = contexts[k].alt_index;
        let ghost before = out@;
        match seen.remove(&idx) {
            Some(v) => {
                out.push(v);
                assert forall|i: int, j: int| 0 <= i < j < out@.len() implies #[trigger] out@[i].alt_index
                    != #[trigger] out@[j].alt_index by {
                    if j == before.len() {
                        assert(before[i] == out@[i]);
                    }
                }
                assert forall|a: u8| #[trigger] all.contains_key(a) implies seen@.contains_key(a)
                    || exists|i: int| 0 <= i < out@.len() && out@[i].alt_index == a by {
                    if a == idx {
                        assert(out@[before.len() as int].alt_index == a);
                    } else if !seen@.contains_key(a) {
                        let i = choose|i: int| 0 <= i < before.len() && before[i].alt_index == a;
                        assert(out@[i].alt_index == a);
                    }
                }
            },
            None => {},
        }
        k = k + 1;
    }
    assert forall|idx: u8| #[trigger] mentions(contexts@, idx) implies exists|i: int|
        0 <= i < out@.len() && out@[i].alt_index == idx by {
        assert(all.contains_key(idx));
        lemma_mentioned_at(contexts@, idx);
        let j = choose|j: int| 0 <= j < contexts@.len() && contexts@[j].alt_index == idx;
        assert(!seen@.contains_key(contexts@[j].alt_index));
    }
    assert forall|i: int| 0 <= i < out@.len() implies {
        &&& mentions(contexts@, #[trigger] out@[i].alt_index)
        &&& out@[i].is_signer == any_signer(contexts@, out@[i].alt_index)
        &&& out@[i].is_writable == any_writable(contexts@, out@[i].alt_index)
    } by {
        assert(all.contains_key(out@[i].alt_index));
    }
    proof {
        lemma_merged_contexts_by_position(out@, contexts@);
    }
    out
}

/// A signer or writable context for `idx` is a context naming `idx`.
proof fn lemma_flags_imply_mention(s: Seq<CpiInterfaceContext>, idx: u8)
    ensures
        any_signer(s, idx) ==> mentions(s, idx),
        any_writable(s, idx) ==> mentions(s, idx),
    decreases s.len(),
{
    if s.len() > 0 {
        lemma_flags_imply_mention(s.drop_last(), idx);
    }
}

/// The account references for `contexts`, in order, skipping those whose table
/// index lies beyond `pubkeys`.
pub open spec fn spec_account_metas(
    contexts: Seq<CpiInterfaceContext>,
    pubkeys: Seq<Pubkey>,
) -> Seq<AccountMeta>
    decreases contexts.len(),
{
    if contexts.len() == 0 {
        seq![]
    } else {
        let c = contexts.last();
        let rest = spec_account_metas(contexts.drop_last(), pubkeys);
        if (c.alt_index as int) < pubkeys.len() {
            rest.push(meta(pubkeys[c.alt_index as int], c.is_signer, c.is_writable))
        } else {
            rest
        }
    }
}

/// The contexts whose table index lies inside a table of `n` addresses.
pub open spec fn index_in_table(n: int) -> spec_fn(CpiInterfaceContext) -> bool {
    |c: CpiInterfaceContext| (c.alt_index as int) < n
}

/// Resolving contexts through a lookup table keeps, in order, one account
/// reference per context whose index lies inside the table: the address at
/// that index, with the context's own signer and writable flags, each as given.
pub proof fn lemma_account_metas_keep_context_flags(
    contexts: Seq<CpiInterfaceContext>,
    pubkeys: Seq<Pubkey>,
)
    ensures
        ({
            let kept = contexts.filter(index_in_table(pubkeys.len() as int));
            let s = spec_account_metas(contexts, pubkeys);
            &&& s.len() == kept.len()
            &&& forall|k: int|
                0 <= k < s.len() ==> {
                    &&& (kept[k].alt_index as int) < pubkeys.len()
                    &&& #[trigger] s[k].pubkey == pubkeys[kept[k].alt_index as int]
                    &&& s[k].is_signer == kept[k].is_signer
                    &&& s[k].is_writable == kept[k].is_writable
                }
        }),
    decreases contexts.len(),
{
    reveal(Seq::filter);
    if contexts.len() > 0 {
        lemma_account_metas_keep_context_flags(contexts.drop_last(), pubkeys);
    }
}

/// Resolves each context to the address at its table index; contexts whose
/// index lies beyond the table are left out.
pub fn cpi_contexts_to_account_metas(
    contexts: &[CpiInterfaceContext],
    pubkeys: &[Pubkey],
) -> (r: Vec<AccountMeta>)
    ensures
        r@ == spec_account_metas(contexts@, pubkeys@),
        ({
            let kept = contexts@.filter(index_in_table(pubkeys@.len() as int));
            &&& r@.len() == kept.len()
            &&& forall|k: int|
                0 <= k < r@.len() ==> {
                    &&& (kept[k].alt_index as int) < pubkeys@.len()
                    &&& #[trigger] r@[k].pubkey == pubkeys@[kept[k].alt_index as int]
                    &&& r@[k].is_signer == kept[k].is_signer
                    &&& r@[k].is_writable == kept[k].is_writable
                }
        }),
{
    proof {
        lemma_account_metas_keep_context_flags(contexts@, pubkeys@);
    }
    let mut out: Vec<AccountMeta> = Vec::new();
    let n = contexts.len();
    let mut k: usize = 0;
    while k < n
        invariant
            0 <= k <= n,
            n == contexts@.len(),
            out@ == spec_account_metas(contexts@.take(k as int), pubkeys@),
        decreases n - k,
    {
        let c = contexts[k];
        assert(contexts@.take(k + 1).drop_last() =~= contexts@.take(k as int));
        let idx = c.alt_index as usize;
        if idx < pubkeys.len() {
            let pk = pubkeys[idx];
            if c.is_writable {
                out.push(AccountMeta::new(pk, c.is_signer));
            } else {
                out.push(AccountMeta::new_readonly(pk, c.is_signer));
            }
        }
        k = k + 1;
    }
    assert(contexts@.take(n as int) =~= contexts@);
    out
}

} // verus!
