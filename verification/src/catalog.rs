//! The interface catalog: filters the host's adapters to the ones a scan
//! can use — administratively up, not loopback, and carrying at least one
//! IPv4 address.  ARP maps IPv4 addresses only; the IPv6 counterpart is a
//! different protocol and out of this engine's scope.

use vstd::prelude::*;
use crate::iface::NetInterface;

verus! {

/// An interface the scan engine can use.
pub open spec fn spec_scannable(i: NetInterface) -> bool {
    i.spec_is_up() && !i.spec_is_loopback() && i.spec_has_ipv4()
}

/// The scannable interfaces of `all`, kept in input order: a stable filter.
pub open spec fn spec_available(all: Seq<NetInterface>) -> Seq<NetInterface>
    decreases all.len(),
{
    if all.len() == 0 {
        Seq::empty()
    } else {
        let rest = spec_available(all.drop_last());
        if spec_scannable(all.last()) {
            rest.push(all.last())
        } else {
            rest
        }
    }
}

proof fn lemma_available_push(s: Seq<NetInterface>, x: NetInterface)
    ensures
        spec_available(s.push(x)) == if spec_scannable(x) {
            spec_available(s).push(x)
        } else {
            spec_available(s)
        },
{
    assert(s.push(x).drop_last() =~= s);
    assert(s.push(x).last() == x);
}

/// Checks the three conditions on one interface.
pub fn is_scannable(i: &NetInterface) -> (r: bool)
    ensures
        r == spec_scannable(*i),
{
    i.is_up() && !i.is_loopback() && i.has_ipv4()
}

/// Keeps the scannable interfaces, in input order, with no side effects.
/// An empty result is not an error; surfacing "no interface available" is
/// the caller's concern.
pub fn get_available_interfaces(all_interfaces: Vec<NetInterface>) -> (r: Vec<NetInterface>)
    ensures
        r@ == spec_available(all_interfaces@),
{
    let ghost orig = all_interfaces@;
    let mut rest = all_interfaces;
    let mut r: Vec<NetInterface> = Vec::new();
    proof {
        assert(orig.take(0) =~= Seq::<NetInterface>::empty());
    }
    while rest.len() > 0
        invariant
            rest@.len() <= orig.len(),
            rest@ == orig.skip(orig.len() - rest@.len()),
            r@ == spec_available(orig.take(orig.len() - rest@.len())),
        decreases rest@.len(),
    {
        let ghost k = orig.len() - rest@.len();
        let x = rest.remove(0);
        let scannable = is_scannable(&x);
        proof {
            assert(x == orig.skip(k as int)[0]);
            assert(x == orig[k as int]);
            assert(rest@ =~= orig.skip(k as int + 1));
            assert(orig.take(k as int + 1) =~= orig.take(k as int).push(x));
            lemma_available_push(orig.take(k as int), x);
        }
        if scannable {
            r.push(x);
        }
    }
    proof {
        assert(orig.take(orig.len() as int) =~= orig);
    }
    r
}

/// Law: the catalog is exactly the conjunction of its three conditions.
/// An interface that is down, loopback, or without an IPv4 address never
/// appears in the filtered sequence; one from the input that meets all
/// three always does.
pub proof fn lemma_catalog_membership(all: Seq<NetInterface>, x: NetInterface)
    ensures
        spec_available(all).contains(x) <==> (all.contains(x) && x.spec_is_up()
            && !x.spec_is_loopback() && x.spec_has_ipv4()),
    decreases all.len(),
{
    if all.len() == 0 {
        assert(!spec_available(all).contains(x));
        assert(!all.contains(x));
    } else {
        let butlast = all.drop_last();
        let y = all.last();
        lemma_catalog_membership(butlast, x);
        assert(all.contains(x) <==> (butlast.contains(x) || y == x)) by {
            if all.contains(x) {
                let i = choose|i: int| 0 <= i < all.len() && all[i] == x;
                if i < all.len() - 1 {
                    assert(butlast[i] == x);
                }
            }
            if butlast.contains(x) {
                let i = choose|i: int| 0 <= i < butlast.len() && butlast[i] == x;
                assert(all[i] == x);
            }
            if y == x {
                assert(all[all.len() - 1] == x);
            }
        }
        let f = spec_available(butlast);
        if spec_scannable(y) {
            assert(spec_available(all) == f.push(y));
            assert(f.push(y).contains(x) <==> (f.contains(x) || y == x)) by {
                if f.push(y).contains(x) {
                    let i = choose|i: int| 0 <= i < f.push(y).len() && f.push(y)[i] == x;
                    if i < f.len() {
                        assert(f[i] == x);
                    }
                }
                if f.contains(x) {
                    let i = choose|i: int| 0 <= i < f.len() && f[i] == x;
                    assert(f.push(y)[i] == x);
                }
                if y == x {
                    assert(f.push(y)[f.len() as int] == x);
                }
            }
        } else {
            assert(spec_available(all) == f);
        }
    }
}

} // verus!
