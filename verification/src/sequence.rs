use vstd::prelude::*;

use crate::addr::IpAddr;
use crate::addr::SocketAddr;
use crate::filter::IpFilter;

verus! {

/// The socket addresses one lookup hands out: the filter-satisfying members
/// of `addrs` from index `i` on, in the order the engine produced them, each
/// carrying the placeholder port zero.
pub open spec fn allowed_addrs<F: IpFilter>(f: F, addrs: Seq<IpAddr>, i: int) -> Seq<SocketAddr>
    decreases addrs.len() - i,
{
    if i < 0 || i >= addrs.len() {
        Seq::empty()
    } else if f.allows_spec(addrs[i]) {
        seq![SocketAddr::with_zero_port_spec(addrs[i])] + allowed_addrs(f, addrs, i + 1)
    } else {
        allowed_addrs(f, addrs, i + 1)
    }
}

/// Whether at least one of the resolved addresses satisfies the filter.
pub open spec fn some_allowed<F: IpFilter>(f: F, addrs: Seq<IpAddr>) -> bool {
    exists|i: int| 0 <= i < addrs.len() && f.allows_spec(addrs[i])
}

proof fn lemma_allowed_addrs_some<F: IpFilter>(f: F, addrs: Seq<IpAddr>, i: int)
    requires
        0 <= i <= addrs.len(),
    ensures
        (allowed_addrs(f, addrs, i).len() > 0) <==> (exists|j: int|
            i <= j < addrs.len() && f.allows_spec(addrs[j])),
    decreases addrs.len() - i,
{
    if i < addrs.len() {
        lemma_allowed_addrs_some(f, addrs, i + 1);
        if f.allows_spec(addrs[i]) {
            assert(i <= i < addrs.len() && f.allows_spec(addrs[i]));
        }
    }
}

/// A lookup yields at least one address exactly when some resolved address
/// satisfies the filter; there is no such thing as an empty success.
pub proof fn lemma_some_allowed_iff_nonempty<F: IpFilter>(f: F, addrs: Seq<IpAddr>)
    ensures
        some_allowed(f, addrs) <==> allowed_addrs(f, addrs, 0).len() > 0,
{
    lemma_allowed_addrs_some(f, addrs, 0);
}

proof fn lemma_allowed_addrs_push<F: IpFilter>(f: F, addrs: Seq<IpAddr>, x: IpAddr, i: int)
    requires
        0 <= i <= addrs.len(),
    ensures
        allowed_addrs(f, addrs.push(x), i) == if f.allows_spec(x) {
            allowed_addrs(f, addrs, i).push(SocketAddr::with_zero_port_spec(x))
        } else {
            allowed_addrs(f, addrs, i)
        },
    decreases addrs.len() - i,
{
    if i == addrs.len() {
        assert(addrs.push(x)[i] == x);
        if f.allows_spec(x) {
            assert(seq![SocketAddr::with_zero_port_spec(x)] + allowed_addrs(f, addrs.push(x), i + 1)
                =~= allowed_addrs(f, addrs, i).push(SocketAddr::with_zero_port_spec(x)));
        }
    } else {
        lemma_allowed_addrs_push(f, addrs, x, i + 1);
        assert(addrs.push(x)[i] == addrs[i]);
        if f.allows_spec(addrs[i]) {
            if f.allows_spec(x) {
                assert(seq![SocketAddr::with_zero_port_spec(addrs[i])] + allowed_addrs(
                    f,
                    addrs,
                    i + 1,
                ).push(SocketAddr::with_zero_port_spec(x)) =~= (seq![
                    SocketAddr::with_zero_port_spec(addrs[i]),
                ] + allowed_addrs(f, addrs, i + 1)).push(SocketAddr::with_zero_port_spec(x)));
            }
        }
    }
}

/// What the adapter returns is exactly the filter-satisfying subset of the
/// raw addresses, in the order the engine produced them, each paired with
/// port zero — no permitted address is dropped, no rejected one slips
/// through, and no reordering happens.
pub proof fn lemma_allowed_addrs_is_filtered<F: IpFilter>(f: F, addrs: Seq<IpAddr>)
    ensures
        allowed_addrs(f, addrs, 0) == addrs.filter(|ip: IpAddr| f.allows_spec(ip)).map_values(
            |ip: IpAddr| SocketAddr::with_zero_port_spec(ip),
        ),
    decreases addrs.len(),
{
    reveal(Seq::filter);
    let pred = |ip: IpAddr| f.allows_spec(ip);
    let tosock = |ip: IpAddr| SocketAddr::with_zero_port_spec(ip);
    if addrs.len() == 0 {
        assert(addrs.filter(pred).map_values(tosock) =~= Seq::<SocketAddr>::empty());
    } else {
        let prefix = addrs.drop_last();
        let x = addrs.last();
        lemma_allowed_addrs_is_filtered(f, prefix);
        lemma_allowed_addrs_push(f, prefix, x, 0);
        assert(addrs =~= prefix.push(x));
        assert(addrs.filter(pred) == if pred(x) {
            prefix.filter(pred).push(x)
        } else {
            prefix.filter(pred)
        });
        if pred(x) {
            assert(prefix.filter(pred).push(x).map_values(tosock) =~= prefix.filter(pred)
                .map_values(tosock).push(tosock(x)));
        }
    }
}

/// A lazy, forward-only, single-pass producer of the permitted socket
/// addresses of one lookup.  Each pull skips rejected addresses internally
/// and yields the next raw address that satisfies the filter, with port
/// zero; the sequence ends when the raw addresses do.  It is not
/// restartable: a fresh lookup must be issued to resolve again.
pub struct FilteredAddrs<F: IpFilter> {
    raw: Vec<IpAddr>,
    pos: usize,
    filter: F,
}

impl<F: IpFilter> FilteredAddrs<F> {
    /// The consumed prefix never runs past the raw addresses.
    pub closed spec fn wf(self) -> bool {
        self.pos <= self.raw.len()
    }

    /// The filter this sequence applies.
    pub closed spec fn filter_spec(self) -> F {
        self.filter
    }

    /// The socket addresses still to be yielded, in order.
    pub closed spec fn remaining(self) -> Seq<SocketAddr> {
        allowed_addrs(self.filter, self.raw@, self.pos as int)
    }

    /// Wrap one lookup's raw addresses, to be drained from the front.
    pub fn new(raw: Vec<IpAddr>, filter: F) -> (r: Self)
        ensures
            r.wf(),
            r.filter_spec() == filter,
            r.remaining() == allowed_addrs(filter, raw@, 0),
    {
        FilteredAddrs { raw, pos: 0, filter }
    }

    /// Pull the next permitted address, skipping rejected raw addresses; the
    /// skipping is invisible to the caller except as elapsed work.
    #[verifier::loop_isolation(false)]
    pub fn next(&mut self) -> (r: Option<SocketAddr>)
        requires
            old(self).wf(),
        ensures
            final(self).wf(),
            final(self).filter_spec() == old(self).filter_spec(),
            match r {
                Some(a) => old(self).remaining().len() > 0 && a == old(self).remaining()[0]
                    && final(self).remaining() == old(self).remaining().drop_first(),
                None => old(self).remaining().len() == 0 && final(self).remaining().len() == 0,
            },
    {
        loop
            invariant
                self.pos <= self.raw.len(),
                self.raw == old(self).raw,
                self.filter == old(self).filter,
                allowed_addrs(self.filter, self.raw@, self.pos as int) == old(self).remaining(),
            decreases self.raw.len() - self.pos,
        {
            if self.pos == self.raw.len() {
                return None;
            }
            let ip = self.raw[self.pos];
            self.pos = self.pos + 1;
            if self.filter.allows(ip) {
                proof {
                    let rest = allowed_addrs(self.filter, self.raw@, self.pos as int);
                    assert(old(self).remaining() == seq![SocketAddr::with_zero_port_spec(ip)]
                        + rest);
                    assert((seq![SocketAddr::with_zero_port_spec(ip)] + rest).drop_first()
                        =~= rest);
                }
                return Some(SocketAddr::with_zero_port(ip));
            }
        }
    }

    /// Pull until exhaustion, collecting every permitted address in order.
    #[verifier::loop_isolation(false)]
    pub fn drain(&mut self) -> (v: Vec<SocketAddr>)
        requires
            old(self).wf(),
        ensures
            final(self).wf(),
            final(self).filter_spec() == old(self).filter_spec(),
            v@ == old(self).remaining(),
            final(self).remaining().len() == 0,
    {
        let mut v: Vec<SocketAddr> = Vec::new();
        loop
            invariant
                self.wf(),
                self.filter_spec() == old(self).filter_spec(),
                v@ + self.remaining() == old(self).remaining(),
            decreases self.remaining().len(),
        {
            match self.next() {
                Some(a) => {
                    v.push(a);
                    proof {
                        assert(v@ + self.remaining() =~= old(self).remaining());
                    }
                },
                None => {
                    proof {
                        assert(self.remaining() =~= Seq::<SocketAddr>::empty());
                        assert(v@ + self.remaining() =~= v@);
                    }
                    return v;
                },
            }
        }
    }
}

} // verus!
