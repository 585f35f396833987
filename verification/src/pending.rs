//! The requests in flight: characteristics whose read or write, and
//! advanced parameters whose read or write, was sent and not yet answered.

use vstd::prelude::*;

use crate::ble::BleCommand;

verus! {

/// `s` with `x` added at the end, unless it is already there.
pub open spec fn with_item<T>(s: Seq<T>, x: T) -> Seq<T> {
    if s.contains(x) {
        s
    } else {
        s.push(x)
    }
}

/// `s` with each of `xs` added in turn (see `with_item`).
pub open spec fn with_items<T>(s: Seq<T>, xs: Seq<T>) -> Seq<T>
    decreases xs.len(),
{
    if xs.len() == 0 {
        s
    } else {
        with_item(with_items(s, xs.drop_last()), xs.last())
    }
}

/// `s` without any entry equal to `x`.
pub open spec fn without_item<T>(s: Seq<T>, x: T) -> Seq<T> {
    s.filter(|y: T| y != x)
}

/// A pending list behaves as a set of requests in flight: sending a
/// request makes it pending (and keeps what was pending), without ever
/// listing a request twice; its answer makes it no longer pending and
/// leaves every other request pending.
pub proof fn lemma_pending_membership<T>(s: Seq<T>, x: T, y: T)
    ensures
        with_item(s, x).contains(y) <==> (s.contains(y) || y == x),
        s.no_duplicates() ==> with_item(s, x).no_duplicates(),
        without_item(s, x).contains(y) <==> (s.contains(y) && y != x),
        !without_item(s, x).contains(x),
{
    let pred = |z: T| z != x;
    if !s.contains(x) {
        assert(s.push(x)[s.len() as int] == x);
        if s.contains(y) {
            let i = choose|i: int| 0 <= i < s.len() && s[i] == y;
            assert(s.push(x)[i] == y);
        }
        if s.push(x).contains(y) && y != x {
            let i = choose|i: int| 0 <= i < s.push(x).len() && s.push(x)[i] == y;
            assert(s[i] == y);
        }
    }
    if without_item(s, x).contains(y) {
        s.lemma_filter_contains_rev(pred, y);
        let i = choose|i: int| 0 <= i < s.filter(pred).len() && s.filter(pred)[i] == y;
        s.lemma_filter_pred(pred, i);
    }
    if s.contains(y) && y != x {
        let i = choose|i: int| 0 <= i < s.len() && s[i] == y;
        s.lemma_filter_contains(pred, i);
    }
    if without_item(s, x).contains(x) {
        let i = choose|i: int| 0 <= i < s.filter(pred).len() && s.filter(pred)[i] == x;
        s.lemma_filter_pred(pred, i);
    }
}

/// The pending characteristic reads and writes, and advanced reads and
/// writes.
#[verifier::ext_equal]
pub struct PendingView {
    pub reads: Seq<u128>,
    pub writes: Seq<u128>,
    pub adv_reads: Seq<u8>,
    pub adv_writes: Seq<u8>,
}

/// Nothing pending.
pub open spec fn no_pending() -> PendingView {
    PendingView { reads: Seq::empty(), writes: Seq::empty(), adv_reads: Seq::empty(), adv_writes: Seq::empty() }
}

/// What sending a command leaves pending: a read, or a batch of reads,
/// adds each characteristic read; a write adds the characteristic written;
/// an advanced read or write adds the parameter's index. Other commands
/// leave nothing pending.
pub open spec fn track_one(p: PendingView, cmd: BleCommand) -> PendingView {
    match cmd {
        BleCommand::ReadCharacteristic(u) => PendingView { reads: with_item(p.reads, u), ..p },
        BleCommand::ReadAll(v) => PendingView { reads: with_items(p.reads, v@), ..p },
        BleCommand::WriteCharacteristic { uuid, .. } => PendingView { writes: with_item(p.writes, uuid), ..p },
        BleCommand::ReadAdvanced { index } => PendingView { adv_reads: with_item(p.adv_reads, index), ..p },
        BleCommand::WriteAdvanced { index, .. } => PendingView { adv_writes: with_item(p.adv_writes, index), ..p },
        _ => p,
    }
}

/// What sending `cmds` in order leaves pending.
pub open spec fn track_all(p: PendingView, cmds: Seq<BleCommand>) -> PendingView
    decreases cmds.len(),
{
    if cmds.len() == 0 {
        p
    } else {
        track_one(track_all(p, cmds.drop_last()), cmds.last())
    }
}

/// Add a characteristic to a pending list, once.
pub fn add_uuid(pending: &mut Vec<u128>, u: u128)
    ensures
        final(pending)@ == with_item(old(pending)@, u),
{
    let n = pending.len();
    let mut i: usize = 0;
    while i < n
        invariant
            n == pending@.len(),
            pending@ == old(pending)@,
            i <= n,
            forall|j: int| 0 <= j < i ==> pending@[j] != u,
        decreases n - i,
    {
        if pending[i] == u {
            assert(pending@.contains(u));
            return;
        }
        i = i + 1;
    }
    assert(!pending@.contains(u));
    pending.push(u);
}

/// Add an advanced parameter index to a pending list, once.
pub fn add_index(pending: &mut Vec<u8>, x: u8)
    ensures
        final(pending)@ == with_item(old(pending)@, x),
{
    let n = pending.len();
    let mut i: usize = 0;
    while i < n
        invariant
            n == pending@.len(),
            pending@ == old(pending)@,
            i <= n,
            forall|j: int| 0 <= j < i ==> pending@[j] != x,
        decreases n - i,
    {
        if pending[i] == x {
            assert(pending@.contains(x));
            return;
        }
        i = i + 1;
    }
    assert(!pending@.contains(x));
    pending.push(x);
}

/// Add each of a batch of characteristics to a pending list, in order.
pub fn add_uuids(pending: &mut Vec<u128>, us: &Vec<u128>)
    ensures
        final(pending)@ == with_items(old(pending)@, us@),
{
    let n = us.len();
    let mut k: usize = 0;
    while k < n
        invariant
            n == us@.len(),
            k <= n,
            pending@ == with_items(old(pending)@, us@.take(k as int)),
        decreases n - k,
    {
        proof {
            assert(us@.take(k + 1).drop_last() =~= us@.take(k as int));
        }
        add_uuid(pending, us[k]);
        k = k + 1;
    }
    assert(us@.take(n as int) =~= us@);
}

/// An answer for an advanced parameter arrived: it is no longer pending.
pub fn clear_pending_index(pending: &mut Vec<u8>, x: u8)
    ensures
        final(pending)@ == without_item(old(pending)@, x),
{
    let ghost orig = pending@;
    let mut kept: Vec<u8> = Vec::new();
    let n = pending.len();
    let mut i: usize = 0;
    while i < n
        invariant
            n == pending@.len(),
            pending@ == orig,
            i <= n,
            kept@ == without_item(orig.take(i as int), x),
        decreases n - i,
    {
        let y = pending[i];
        proof {
            assert(orig.take(i + 1).drop_last() =~= orig.take(i as int));
            reveal_with_fuel(Seq::<_>::filter, 1);
        }
        if y != x {
            kept.push(y);
        }
        i = i + 1;
    }
    assert(orig.take(n as int) =~= orig);
    *pending = kept;
}

} // verus!
