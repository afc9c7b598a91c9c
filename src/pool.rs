//! The mempool adapter: projects the read capability's raw listing of
//! in-flight transactions into the `txpool_*` reporting shapes.
use vstd::prelude::*;

use crate::errors::EthApiError;
use crate::types::{Address, U256};

verus! {

/// One in-flight transaction as the read capability lists it.
#[derive(Clone, Copy, Debug, PartialEq, Eq)]
pub struct PoolTransaction {
    pub from: Address,
    pub to: Option<Address>,
    pub nonce: u64,
    pub value: U256,
    pub gas: U256,
    pub gas_price: Option<u128>,
}

/// What `txpool_inspect` reports of one transaction.
#[derive(Clone, Copy, Debug, PartialEq, Eq)]
pub struct TxpoolInspectSummary {
    pub to: Option<Address>,
    pub value: U256,
    pub gas: U256,
    pub gas_price: u128,
}

/// Entries keyed by nonce (rendered in decimal) for one sender.
pub type NonceEntries<V> = Vec<(String, V)>;

/// Entries grouped by sender, then by nonce.
pub type SenderEntries<V> = Vec<(Address, Vec<(String, V)>)>;

/// The `txpool_inspect` shape: summaries by sender and nonce.
#[derive(Clone, Debug, PartialEq, Eq)]
pub struct TxpoolInspect {
    pub pending: SenderEntries<TxpoolInspectSummary>,
    pub queued: SenderEntries<TxpoolInspectSummary>,
}

/// The `txpool_content` shape: full transactions by sender and nonce.
#[derive(Clone, Debug, PartialEq, Eq)]
pub struct TxpoolContent<T> {
    pub pending: SenderEntries<T>,
    pub queued: SenderEntries<T>,
}

/// The `txpool_contentFrom` shape: one sender's transactions by nonce.
#[derive(Clone, Debug, PartialEq, Eq)]
pub struct TxpoolContentFrom<T> {
    pub pending: NonceEntries<T>,
    pub queued: NonceEntries<T>,
}

/// The `txpool_status` shape: the size of each partition.
#[derive(Clone, Copy, Debug, PartialEq, Eq)]
pub struct TxpoolStatus {
    pub pending: u64,
    pub queued: u64,
}

/// The character of one decimal digit.
pub open spec fn digit_char(d: nat) -> char {
    if d == 0 { '0' } else if d == 1 { '1' } else if d == 2 { '2' } else if d == 3 { '3' }
    else if d == 4 { '4' } else if d == 5 { '5' } else if d == 6 { '6' } else if d == 7 { '7' }
    else if d == 8 { '8' } else { '9' }
}

/// A number written in decimal, most significant digit first, without sign
/// or leading zeros.
pub open spec fn decimal_of(n: nat) -> Seq<char>
    decreases n,
{
    if n < 10 {
        seq![digit_char(n)]
    } else {
        decimal_of(n / 10).push(digit_char(n % 10))
    }
}

/// Relies on `u64`'s `Display` (through `to_string`): plain decimal digits.
#[verifier::external_body]
fn nonce_key(n: u64) -> (r: String)
    ensures
        r@ == decimal_of(n as nat),
{
    n.to_string()
}

/// The key under which a transaction is reported for its sender.
pub open spec fn key_of(t: PoolTransaction) -> Seq<char> {
    decimal_of(t.nonce as nat)
}

/// What `txpool_inspect` reports of a transaction; an unset gas price is zero.
pub open spec fn summary_of(t: PoolTransaction) -> TxpoolInspectSummary {
    TxpoolInspectSummary {
        to: t.to,
        value: t.value,
        gas: t.gas,
        gas_price: match t.gas_price {
            Some(p) => p,
            None => 0,
        },
    }
}

/// The last transaction of the listing from `sender` whose key is `key`.
pub open spec fn last_record(txs: Seq<PoolTransaction>, sender: Seq<u8>, key: Seq<char>) -> Option<
    PoolTransaction,
>
    decreases txs.len(),
{
    if txs.len() == 0 {
        None
    } else if txs.last().from@ == sender && key_of(txs.last()) == key {
        Some(txs.last())
    } else {
        last_record(txs.drop_last(), sender, key)
    }
}

/// No sender appears twice, no nonce key twice under one sender, and no
/// sender without entries.
pub open spec fn well_formed<V>(g: Seq<(Address, Vec<(String, V)>)>) -> bool {
    &&& forall|i: int, j: int| 0 <= i < j < g.len() ==> g[i].0@ != g[j].0@
    &&& forall|i: int| 0 <= i < g.len() ==> #[trigger] g[i].1@.len() > 0
    &&& forall|i: int, a: int, b: int|
        0 <= i < g.len() && 0 <= a < b < g[i].1@.len() ==> g[i].1@[a].0@ != g[i].1@[b].0@
}

/// Some entry stands under `sender` and `key`.
pub open spec fn has_entry<V>(g: Seq<(Address, Vec<(String, V)>)>, sender: Seq<u8>, key: Seq<
    char,
>) -> bool {
    exists|i: int, a: int|
        0 <= i < g.len() && 0 <= a < g[i].1@.len() && g[i].0@ == sender && #[trigger] g[i].1@[a].0@
            == key
}

/// `g` reports `txs`: one entry per (sender, key) pair of the listing, each
/// the summary of the last such transaction.
pub open spec fn inspects(g: Seq<(Address, Vec<(String, TxpoolInspectSummary)>)>, txs: Seq<
    PoolTransaction,
>) -> bool {
    &&& well_formed(g)
    &&& forall|i: int, a: int|
        0 <= i < g.len() && 0 <= a < g[i].1@.len() ==> {
            let r = last_record(txs, g[i].0@, #[trigger] g[i].1@[a].0@);
            r.is_some() && g[i].1@[a].1 == summary_of(r.unwrap())
        }
    &&& forall|k: int| 0 <= k < txs.len() ==> has_entry(g, #[trigger] txs[k].from@, key_of(txs[k]))
}

/// `last_record` over one more transaction of the listing.
proof fn lemma_last_record_step(txs: Seq<PoolTransaction>, n: int)
    requires
        0 <= n < txs.len(),
    ensures
        forall|s: Seq<u8>, k: Seq<char>|
            #[trigger] last_record(txs.take(n + 1), s, k) == if txs[n].from@ == s && key_of(txs[n])
                == k {
                Some(txs[n])
            } else {
                last_record(txs.take(n), s, k)
            },
{
    assert(txs.take(n + 1).drop_last() =~= txs.take(n));
    assert(txs.take(n + 1).last() == txs[n]);
}

/// The listing `post` is `pre` with `t` appended.
pub open spec fn appended(pre: Seq<PoolTransaction>, post: Seq<PoolTransaction>, t: PoolTransaction) -> bool {
    &&& post.len() == pre.len() + 1
    &&& post[pre.len() as int] == t
    &&& forall|k: int| 0 <= k < pre.len() ==> #[trigger] post[k] == pre[k]
    &&& forall|s: Seq<u8>, k: Seq<char>|
        #[trigger] last_record(post, s, k) == if t.from@ == s && key_of(t) == k {
            Some(t)
        } else {
            last_record(pre, s, k)
        }
}

/// An entry that `g` holds under a key stays in `ng`, which keeps every
/// sender and every key of `g` in place.
proof fn lemma_entries_kept(
    g: Seq<(Address, Vec<(String, TxpoolInspectSummary)>)>,
    ng: Seq<(Address, Vec<(String, TxpoolInspectSummary)>)>,
    s: Seq<u8>,
    k: Seq<char>,
)
    requires
        has_entry(g, s, k),
        g.len() <= ng.len(),
        forall|x: int| 0 <= x < g.len() ==> #[trigger] ng[x].0@ == g[x].0@,
        forall|x: int, a: int|
            0 <= x < g.len() && 0 <= a < g[x].1@.len() ==> a < ng[x].1@.len() && #[trigger] ng[x].1@[a].0@
                == g[x].1@[a].0@,
    ensures
        has_entry(ng, s, k),
{
    let (x, a) = choose|x: int, a: int|
        0 <= x < g.len() && 0 <= a < g[x].1@.len() && g[x].0@ == s && #[trigger] g[x].1@[a].0@ == k;
    assert(ng[x].1@[a].0@ == k);
}

/// Replacing the entry under the sender and key of `t` with its summary.
proof fn lemma_inspect_replace(
    g: Seq<(Address, Vec<(String, TxpoolInspectSummary)>)>,
    ng: Seq<(Address, Vec<(String, TxpoolInspectSummary)>)>,
    pre: Seq<PoolTransaction>,
    post: Seq<PoolTransaction>,
    t: PoolTransaction,
    i: int,
    j: int,
)
    requires
        inspects(g, pre),
        appended(pre, post, t),
        0 <= i < g.len(),
        g[i].0@ == t.from@,
        0 <= j < g[i].1@.len(),
        g[i].1@[j].0@ == key_of(t),
        ng.len() == g.len(),
        forall|x: int| 0 <= x < g.len() && x != i ==> #[trigger] ng[x] == g[x],
        ng[i].0 == g[i].0,
        ng[i].1@.len() == g[i].1@.len(),
        ng[i].1@[j].0@ == key_of(t),
        ng[i].1@[j].1 == summary_of(t),
        forall|a: int| 0 <= a < g[i].1@.len() && a != j ==> #[trigger] ng[i].1@[a] == g[i].1@[a],
    ensures
        inspects(ng, post),
{
    assert forall|x: int, a: int|
        0 <= x < g.len() && 0 <= a < g[x].1@.len() implies a < ng[x].1@.len()
            && #[trigger] ng[x].1@[a].0@ == g[x].1@[a].0@ by {
        if x == i && a == j {
        } else if x == i {
            assert(ng[i].1@[a] == g[i].1@[a]);
        } else {
            assert(ng[x] == g[x]);
        }
    }
    assert forall|x: int| 0 <= x < g.len() implies #[trigger] ng[x].0@ == g[x].0@ by {
        if x != i {
            assert(ng[x] == g[x]);
        }
    }
    assert forall|x: int| 0 <= x < ng.len() implies #[trigger] ng[x].1@.len() > 0 by {
        if x != i {
            assert(ng[x] == g[x]);
        }
        assert(g[x].1@.len() > 0);
    }
    assert forall|x: int, a: int|
        0 <= x < ng.len() && 0 <= a < ng[x].1@.len() implies {
            let r = last_record(post, ng[x].0@, #[trigger] ng[x].1@[a].0@);
            r.is_some() && ng[x].1@[a].1 == summary_of(r.unwrap())
        } by {
        assert(last_record(post, ng[x].0@, ng[x].1@[a].0@) == if t.from@ == ng[x].0@ && key_of(t)
            == ng[x].1@[a].0@ {
            Some(t)
        } else {
            last_record(pre, ng[x].0@, ng[x].1@[a].0@)
        });
        if x == i && a == j {
        } else if x == i {
            assert(ng[i].1@[a] == g[i].1@[a]);
            assert(g[i].1@[a].0@ != g[i].1@[j].0@);
            assert(g[x].1@[a].0@ == g[x].1@[a].0@);
        } else {
            assert(ng[x] == g[x]);
            if x < i {
                assert(g[x].0@ != g[i].0@);
            } else {
                assert(g[i].0@ != g[x].0@);
            }
            assert(g[x].1@[a].0@ == g[x].1@[a].0@);
        }
    }
    assert forall|k: int| 0 <= k < post.len() implies has_entry(
        ng,
        #[trigger] post[k].from@,
        key_of(post[k]),
    ) by {
        if k == pre.len() {
            assert(ng[i].1@[j].0@ == key_of(t));
        } else {
            assert(post[k] == pre[k]);
            assert(has_entry(g, pre[k].from@, key_of(pre[k])));
            lemma_entries_kept(g, ng, pre[k].from@, key_of(pre[k]));
        }
    }
}

/// Adding the summary of `t` under its sender's group, where its key is new.
proof fn lemma_inspect_add_key(
    g: Seq<(Address, Vec<(String, TxpoolInspectSummary)>)>,
    ng: Seq<(Address, Vec<(String, TxpoolInspectSummary)>)>,
    pre: Seq<PoolTransaction>,
    post: Seq<PoolTransaction>,
    t: PoolTransaction,
    i: int,
)
    requires
        inspects(g, pre),
        appended(pre, post, t),
        0 <= i < g.len(),
        g[i].0@ == t.from@,
        forall|a: int| 0 <= a < g[i].1@.len() ==> #[trigger] g[i].1@[a].0@ != key_of(t),
        ng.len() == g.len(),
        forall|x: int| 0 <= x < g.len() && x != i ==> #[trigger] ng[x] == g[x],
        ng[i].0 == g[i].0,
        ng[i].1@.len() == g[i].1@.len() + 1,
        ng[i].1@.last().0@ == key_of(t),
        ng[i].1@.last().1 == summary_of(t),
        forall|a: int| 0 <= a < g[i].1@.len() ==> #[trigger] ng[i].1@[a] == g[i].1@[a],
    ensures
        inspects(ng, post),
{
    let j = g[i].1@.len() as int;
    assert forall|x: int, a: int|
        0 <= x < g.len() && 0 <= a < g[x].1@.len() implies a < ng[x].1@.len()
            && #[trigger] ng[x].1@[a].0@ == g[x].1@[a].0@ by {
        if x == i {
            assert(ng[i].1@[a] == g[i].1@[a]);
        } else {
            assert(ng[x] == g[x]);
        }
    }
    assert forall|x: int| 0 <= x < g.len() implies #[trigger] ng[x].0@ == g[x].0@ by {
        if x != i {
            assert(ng[x] == g[x]);
        }
    }
    assert forall|x: int| 0 <= x < ng.len() implies #[trigger] ng[x].1@.len() > 0 by {
        if x != i {
            assert(ng[x] == g[x]);
            assert(g[x].1@.len() > 0);
        }
    }
    assert forall|x: int, a: int, b: int|
        0 <= x < ng.len() && 0 <= a < b < ng[x].1@.len() implies ng[x].1@[a].0@ != ng[x].1@[b].0@ by {
        if x == i {
            assert(ng[i].1@[a] == g[i].1@[a]);
            if b < j {
                assert(ng[i].1@[b] == g[i].1@[b]);
            } else {
                assert(ng[i].1@[b] == ng[i].1@.last());
                assert(g[i].1@[a].0@ != key_of(t));
            }
        } else {
            assert(ng[x] == g[x]);
        }
    }
    assert forall|x: int, a: int|
        0 <= x < ng.len() && 0 <= a < ng[x].1@.len() implies {
            let r = last_record(post, ng[x].0@, #[trigger] ng[x].1@[a].0@);
            r.is_some() && ng[x].1@[a].1 == summary_of(r.unwrap())
        } by {
        assert(last_record(post, ng[x].0@, ng[x].1@[a].0@) == if t.from@ == ng[x].0@ && key_of(t)
            == ng[x].1@[a].0@ {
            Some(t)
        } else {
            last_record(pre, ng[x].0@, ng[x].1@[a].0@)
        });
        if x == i && a == j {
            assert(ng[i].1@[a] == ng[i].1@.last());
        } else if x == i {
            assert(ng[i].1@[a] == g[i].1@[a]);
            assert(g[i].1@[a].0@ != key_of(t));
            assert(g[x].1@[a].0@ == g[x].1@[a].0@);
        } else {
            assert(ng[x] == g[x]);
            if x < i {
                assert(g[x].0@ != g[i].0@);
            } else {
                assert(g[i].0@ != g[x].0@);
            }
            assert(g[x].1@[a].0@ == g[x].1@[a].0@);
        }
    }
    assert forall|k: int| 0 <= k < post.len() implies has_entry(
        ng,
        #[trigger] post[k].from@,
        key_of(post[k]),
    ) by {
        if k == pre.len() {
            assert(ng[i].1@[j] == ng[i].1@.last());
            assert(ng[i].1@[j].0@ == key_of(t));
        } else {
            assert(post[k] == pre[k]);
            assert(has_entry(g, pre[k].from@, key_of(pre[k])));
            lemma_entries_kept(g, ng, pre[k].from@, key_of(pre[k]));
        }
    }
}

/// Adding a group for the sender of `t`, which had none, holding its summary.
proof fn lemma_inspect_new_sender(
    g: Seq<(Address, Vec<(String, TxpoolInspectSummary)>)>,
    ng: Seq<(Address, Vec<(String, TxpoolInspectSummary)>)>,
    pre: Seq<PoolTransaction>,
    post: Seq<PoolTransaction>,
    t: PoolTransaction,
)
    requires
        inspects(g, pre),
        appended(pre, post, t),
        forall|x: int| 0 <= x < g.len() ==> #[trigger] g[x].0@ != t.from@,
        ng.len() == g.len() + 1,
        forall|x: int| 0 <= x < g.len() ==> #[trigger] ng[x] == g[x],
        ng.last().0@ == t.from@,
        ng.last().1@.len() == 1,
        ng.last().1@[0].0@ == key_of(t),
        ng.last().1@[0].1 == summary_of(t),
    ensures
        inspects(ng, post),
{
    let i = g.len() as int;
    assert(ng[i] == ng.last());
    assert forall|x: int, a: int|
        0 <= x < g.len() && 0 <= a < g[x].1@.len() implies a < ng[x].1@.len()
            && #[trigger] ng[x].1@[a].0@ == g[x].1@[a].0@ by {
        assert(ng[x] == g[x]);
    }
    assert forall|x: int| 0 <= x < g.len() implies #[trigger] ng[x].0@ == g[x].0@ by {
        assert(ng[x] == g[x]);
    }
    assert forall|x: int, y: int| 0 <= x < y < ng.len() implies ng[x].0@ != ng[y].0@ by {
        assert(ng[x] == g[x]);
        if y < i {
            assert(ng[y] == g[y]);
        }
    }
    assert forall|x: int| 0 <= x < ng.len() implies #[trigger] ng[x].1@.len() > 0 by {
        if x < i {
            assert(ng[x] == g[x]);
            assert(g[x].1@.len() > 0);
        }
    }
    assert forall|x: int, a: int, b: int|
        0 <= x < ng.len() && 0 <= a < b < ng[x].1@.len() implies ng[x].1@[a].0@ != ng[x].1@[b].0@ by {
        if x < i {
            assert(ng[x] == g[x]);
        }
    }
    assert forall|x: int, a: int|
        0 <= x < ng.len() && 0 <= a < ng[x].1@.len() implies {
            let r = last_record(post, ng[x].0@, #[trigger] ng[x].1@[a].0@);
            r.is_some() && ng[x].1@[a].1 == summary_of(r.unwrap())
        } by {
        assert(last_record(post, ng[x].0@, ng[x].1@[a].0@) == if t.from@ == ng[x].0@ && key_of(t)
            == ng[x].1@[a].0@ {
            Some(t)
        } else {
            last_record(pre, ng[x].0@, ng[x].1@[a].0@)
        });
        if x < i {
            assert(ng[x] == g[x]);
            assert(g[x].0@ != t.from@);
            assert(g[x].1@[a].0@ == g[x].1@[a].0@);
        }
    }
    assert forall|k: int| 0 <= k < post.len() implies has_entry(
        ng,
        #[trigger] post[k].from@,
        key_of(post[k]),
    ) by {
        if k == pre.len() {
            assert(ng[i].1@[0].0@ == key_of(t));
        } else {
            assert(post[k] == pre[k]);
            assert(has_entry(g, pre[k].from@, key_of(pre[k])));
            lemma_entries_kept(g, ng, pre[k].from@, key_of(pre[k]));
        }
    }
}

/// Where `sender` stands among the groups, if anywhere.
fn find_sender<V>(g: &Vec<(Address, Vec<(String, V)>)>, sender: &Address) -> (r: Option<usize>)
    ensures
        match r {
            Some(i) => i < g@.len() && g@[i as int].0@ == sender@,
            None => forall|i: int| 0 <= i < g@.len() ==> g@[i].0@ != sender@,
        },
{
    let mut i: usize = 0;
    while i < g.len()
        invariant
            i <= g@.len(),
            forall|k: int| 0 <= k < i ==> g@[k].0@ != sender@,
        decreases g@.len() - i,
    {
        if g[i].0.same_as(sender) {
            return Some(i);
        }
        i = i + 1;
    }
    None
}

/// Where `key` stands among one sender's entries, if anywhere.
fn find_key<V>(entries: &Vec<(String, V)>, key: &String) -> (r: Option<usize>)
    ensures
        match r {
            Some(j) => j < entries@.len() && entries@[j as int].0@ == key@,
            None => forall|j: int| 0 <= j < entries@.len() ==> entries@[j].0@ != key@,
        },
{
    let mut j: usize = 0;
    while j < entries.len()
        invariant
            j <= entries@.len(),
            forall|k: int| 0 <= k < j ==> entries@[k].0@ != key@,
        decreases entries@.len() - j,
    {
        if entries[j].0 == *key {
            return Some(j);
        }
        j = j + 1;
    }
    None
}

/// Groups the listing by sender, then by nonce in decimal, into the pending
/// partition. Where one (sender, nonce) pair occurs more than once, the later
/// record replaces the earlier one.
pub fn inspect_listing(txs: &Vec<PoolTransaction>) -> (r: TxpoolInspect)
    ensures
        inspects(r.pending@, txs@),
        r.queued@.len() == 0,
{
    let mut pending: SenderEntries<TxpoolInspectSummary> = Vec::new();
    let mut n: usize = 0;
    while n < txs.len()
        invariant
            n <= txs@.len(),
            inspects(pending@, txs@.take(n as int)),
        decreases txs@.len() - n,
    {
        let t = txs[n];
        let ghost old_g = pending@;
        let ghost pre = txs@.take(n as int);
        let ghost post = txs@.take(n as int + 1);
        proof {
            lemma_last_record_step(txs@, n as int);
            assert forall|k: int| 0 <= k < n implies #[trigger] post[k] == pre[k] by {}
            assert(post[n as int] == t);
            assert(appended(pre, post, t));
        }
        let key = nonce_key(t.nonce);
        let gas_price: u128 = match t.gas_price {
            Some(p) => p,
            None => 0,
        };
        let summary = TxpoolInspectSummary { to: t.to, value: t.value, gas: t.gas, gas_price };
        assert(summary == summary_of(t));
        match find_sender(&pending, &t.from) {
            Some(i) => {
                let (addr, mut inner) = pending.remove(i);
                let ghost old_inner = inner@;
                match find_key(&inner, &key) {
                    Some(j) => {
                        inner.set(j, (key, summary));
                        proof {
                            lemma_inspect_replace(old_g, old_g.update(i as int, (addr, inner)), pre, post, t, i as int, j as int);
                        }
                    },
                    None => {
                        inner.push((key, summary));
                        proof {
                            lemma_inspect_add_key(old_g, old_g.update(i as int, (addr, inner)), pre, post, t, i as int);
                        }
                    },
                }
                pending.insert(i, (addr, inner));
                proof {
                    assert(pending@ =~= old_g.update(i as int, (addr, inner)));
                }
            },
            None => {
                let mut inner: NonceEntries<TxpoolInspectSummary> = Vec::new();
                inner.push((key, summary));
                pending.push((t.from, inner));
                proof {
                    lemma_inspect_new_sender(old_g, pending@, pre, post, t);
                }
            },
        }
        n = n + 1;
    }
    assert(txs@.take(txs@.len() as int) =~= txs@);
    TxpoolInspect { pending, queued: Vec::new() }
}

/// `p` is what the first group of `sender` in `g` holds, or nothing where
/// `sender` has no group.
pub open spec fn entries_of<V>(g: Seq<(Address, Vec<(String, V)>)>, sender: Seq<u8>, p: Seq<(String, V)>) -> bool {
    ||| exists|i: int|
        0 <= i < g.len() && #[trigger] g[i].0@ == sender && p == g[i].1@ && forall|x: int|
            0 <= x < i ==> g[x].0@ != sender
    ||| (forall|i: int| 0 <= i < g.len() ==> #[trigger] g[i].0@ != sender) && p.len() == 0
}

/// Takes out the entries of `sender`'s group, or none where it has no group.
fn take_group<V>(groups: Vec<(Address, Vec<(String, V)>)>, sender: &Address) -> (r: Vec<(String, V)>)
    ensures
        entries_of(groups@, sender@, r@),
{
    let mut g = groups;
    let ghost old_g = g@;
    let mut i: usize = 0;
    while i < g.len()
        invariant
            i <= g@.len(),
            g@ == old_g,
            old_g == groups@,
            forall|k: int| 0 <= k < i ==> old_g[k].0@ != sender@,
        decreases g@.len() - i,
    {
        if g[i].0.same_as(sender) {
            let removed = g.remove(i);
            assert(removed == old_g[i as int]);
            let entries = removed.1;
            assert(old_g[i as int].0@ == sender@ && entries@ == old_g[i as int].1@);
            return entries;
        }
        i = i + 1;
    }
    Vec::new()
}

/// The mempool adapter over a read capability.
#[derive(Clone, Debug)]
pub struct PoolDataProvider<P> {
    pub eth_provider: P,
}

impl<P> PoolDataProvider<P> {
    pub fn new(eth_provider: P) -> (r: Self)
        ensures
            r.eth_provider == eth_provider,
    {
        PoolDataProvider { eth_provider }
    }
}

/// The size of each partition of the read capability's content, or its
/// failure unchanged.
pub fn txpool_status<T>(content: Result<TxpoolContent<T>, EthApiError>) -> (r: Result<
    TxpoolStatus,
    EthApiError,
>)
    ensures
        match content {
            Ok(c) => r == Ok::<TxpoolStatus, EthApiError>(
                TxpoolStatus { pending: c.pending@.len() as u64, queued: c.queued@.len() as u64 },
            ),
            Err(e) => r == Err::<TxpoolStatus, EthApiError>(e),
        },
{
    match content {
        Ok(c) => Ok(TxpoolStatus { pending: c.pending.len() as u64, queued: c.queued.len() as u64 }),
        Err(e) => Err(e),
    }
}

/// The inspection summary of the read capability's listing, or its failure
/// unchanged.
pub fn txpool_inspect(listing: Result<Vec<PoolTransaction>, EthApiError>) -> (r: Result<
    TxpoolInspect,
    EthApiError,
>)
    ensures
        match listing {
            Ok(txs) => r.is_ok() && inspects(r.unwrap().pending@, txs@) && r.unwrap().queued@.len()
                == 0,
            Err(e) => r == Err::<TxpoolInspect, EthApiError>(e),
        },
{
    match listing {
        Ok(txs) => Ok(inspect_listing(&txs)),
        Err(e) => Err(e),
    }
}

/// One sender's pending and queued entries out of the read capability's
/// content, or its failure unchanged.
pub fn txpool_content_from<T>(content: Result<TxpoolContent<T>, EthApiError>, from: &Address) -> (r: Result<
    TxpoolContentFrom<T>,
    EthApiError,
>)
    ensures
        match content {
            Ok(c) => r.is_ok() && entries_of(c.pending@, from@, r.unwrap().pending@) && entries_of(
                c.queued@,
                from@,
                r.unwrap().queued@,
            ),
            Err(e) => r == Err::<TxpoolContentFrom<T>, EthApiError>(e),
        },
{
    match content {
        Ok(c) => {
            let TxpoolContent { pending, queued } = c;
            Ok(TxpoolContentFrom { pending: take_group(pending, from), queued: take_group(queued, from) })
        },
        Err(e) => Err(e),
    }
}

/// The read capability's content, or its failure, unchanged.
pub fn txpool_content<T>(content: Result<TxpoolContent<T>, EthApiError>) -> (r: Result<
    TxpoolContent<T>,
    EthApiError,
>)
    ensures
        r == content,
{
    content
}

/// `last_record` only ever finds a record of the listing with the sender and
/// key asked for.
proof fn lemma_last_record_matches(txs: Seq<PoolTransaction>, s: Seq<u8>, k: Seq<char>)
    ensures
        last_record(txs, s, k) matches Some(t) ==> t.from@ == s && key_of(t) == k && txs.contains(t),
    decreases txs.len(),
{
    if txs.len() > 0 && !(txs.last().from@ == s && key_of(txs.last()) == k) {
        lemma_last_record_matches(txs.drop_last(), s, k);
        if let Some(t) = last_record(txs, s, k) {
            let j = choose|j: int| 0 <= j < txs.drop_last().len() && txs.drop_last()[j] == t;
            assert(txs[j] == t);
        }
    } else if txs.len() > 0 {
        assert(txs[txs.len() - 1] == txs.last());
    }
}

/// An inspection of an empty listing holds no sender.
pub proof fn lemma_inspect_empty(g: Seq<(Address, Vec<(String, TxpoolInspectSummary)>)>)
    requires
        inspects(g, Seq::empty()),
    ensures
        g.len() == 0,
{
    if g.len() > 0 {
        assert(g[0].1@.len() > 0);
        assert(last_record(Seq::empty(), g[0].0@, g[0].1@[0].0@).is_some());
    }
}

/// Two records with the same sender and nonce are reported once, by the
/// summary of the later one.
pub proof fn lemma_last_write_wins(
    g: Seq<(Address, Vec<(String, TxpoolInspectSummary)>)>,
    first: PoolTransaction,
    second: PoolTransaction,
)
    requires
        first.from@ == second.from@,
        first.nonce == second.nonce,
        inspects(g, seq![first, second]),
    ensures
        g.len() == 1,
        g[0].0@ == second.from@,
        g[0].1@.len() == 1,
        g[0].1@[0].0@ == key_of(second),
        g[0].1@[0].1 == summary_of(second),
{
    let txs = seq![first, second];
    assert(txs[1] == second);
    assert(has_entry(g, txs[1].from@, key_of(txs[1])));
    assert forall|x: int, a: int| 0 <= x < g.len() && 0 <= a < g[x].1@.len() implies g[x].0@ == second.from@
        && #[trigger] g[x].1@[a].0@ == key_of(second) && g[x].1@[a].1 == summary_of(second) by {
        lemma_last_record_matches(txs, g[x].0@, g[x].1@[a].0@);
        let t = last_record(txs, g[x].0@, g[x].1@[a].0@).unwrap();
        assert(txs.contains(t));
        let j = choose|j: int| 0 <= j < txs.len() && txs[j] == t;
        assert(j == 0 || j == 1);
        assert(txs.last() == second);
        assert(last_record(txs, g[x].0@, g[x].1@[a].0@) == Some(second));
    }
    assert(g.len() > 0);
    if g.len() > 1 {
        assert(g[0].1@.len() > 0 && g[1].1@.len() > 0);
        assert(g[0].1@[0].0@ == key_of(second));
        assert(g[1].1@[0].0@ == key_of(second));
    }
    assert(g[0].1@.len() > 0);
    if g[0].1@.len() > 1 {
        assert(g[0].1@[0].0@ == key_of(second));
        assert(g[0].1@[1].0@ == key_of(second));
    }
}

/// A sender with no group gets no entries.
pub proof fn lemma_entries_of_absent<V>(g: Seq<(Address, Vec<(String, V)>)>, sender: Seq<u8>, p: Seq<(String, V)>)
    requires
        forall|i: int| 0 <= i < g.len() ==> #[trigger] g[i].0@ != sender,
        entries_of(g, sender, p),
    ensures
        p.len() == 0,
{
}

} // verus!
