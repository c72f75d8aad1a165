//! The computations behind the interface listing: decoding the flag
//! bitfield into names by a per-platform capability table, counting v4 and
//! v6 assignments, and sizing columns.  Writing the coloured table itself
//! is the presentation layer's concern.

use vstd::prelude::*;
use crate::iface::{
    IpAssignment, NetInterface, FLAG_BROADCAST, FLAG_DORMANT, FLAG_LOOPBACK, FLAG_LOWER_UP,
    FLAG_MULTICAST, FLAG_POINT_TO_POINT, FLAG_RUNNING, FLAG_UP,
};

verus! {

/// The number of flag predicates in the fixed listing order: UP,
/// BROADCAST, LOOPBACK, POINTOPOINT, MULTICAST, RUNNING, DORMANT, LOWERUP.
pub const FLAG_PREDICATE_COUNT: usize = 8;

/// The platform families whose interface-flag vocabularies differ.  The
/// capability table is resolved once, when the catalog is built, instead
/// of scattering conditional branches through formatting code.
#[derive(Clone, Copy, PartialEq, Eq, Structural, Debug)]
pub enum Platform {
    /// Linux-like systems report all eight flags.
    LinuxLike,
    /// Other Unix systems report no dormant or lower-up state.
    OtherUnix,
    /// Anything else reports only the first five flags.
    Other,
}

/// How many of the flag predicates, as a prefix of the fixed order, the
/// platform can decide.
pub open spec fn spec_supported_flag_count(p: Platform) -> int {
    match p {
        Platform::LinuxLike => 8,
        Platform::OtherUnix => 6,
        Platform::Other => 5,
    }
}

/// The bit of the `k`-th flag predicate.
pub open spec fn spec_flag_bit(k: int) -> u32 {
    if k == 0 {
        FLAG_UP
    } else if k == 1 {
        FLAG_BROADCAST
    } else if k == 2 {
        FLAG_LOOPBACK
    } else if k == 3 {
        FLAG_POINT_TO_POINT
    } else if k == 4 {
        FLAG_MULTICAST
    } else if k == 5 {
        FLAG_RUNNING
    } else if k == 6 {
        FLAG_DORMANT
    } else if k == 7 {
        FLAG_LOWER_UP
    } else {
        0
    }
}

/// The name of the `k`-th flag predicate.
pub open spec fn spec_flag_label(k: int) -> Seq<char> {
    if k == 0 {
        "UP"@
    } else if k == 1 {
        "BROADCAST"@
    } else if k == 2 {
        "LOOPBACK"@
    } else if k == 3 {
        "POINTOPOINT"@
    } else if k == 4 {
        "MULTICAST"@
    } else if k == 5 {
        "RUNNING"@
    } else if k == 6 {
        "DORMANT"@
    } else if k == 7 {
        "LOWERUP"@
    } else {
        ""@
    }
}

/// The names of the first `k` flag predicates that are both set in
/// `flags` and decidable on the platform, in listing order.
pub open spec fn spec_flag_names_upto(flags: u32, p: Platform, k: int) -> Seq<Seq<char>>
    decreases k,
{
    if k <= 0 {
        Seq::empty()
    } else {
        spec_flag_names_upto(flags, p, k - 1) + (if k - 1 < spec_supported_flag_count(p) && flags
            & spec_flag_bit(k - 1) != 0 {
            seq![spec_flag_label(k - 1)]
        } else {
            Seq::empty()
        })
    }
}

/// The full decoded flag listing of one bitfield.
pub open spec fn spec_flag_names(flags: u32, p: Platform) -> Seq<Seq<char>> {
    spec_flag_names_upto(flags, p, FLAG_PREDICATE_COUNT as int)
}

fn supported_flag_count(p: Platform) -> (r: usize)
    ensures
        r == spec_supported_flag_count(p),
{
    match p {
        Platform::LinuxLike => 8,
        Platform::OtherUnix => 6,
        Platform::Other => 5,
    }
}

fn flag_bit(k: usize) -> (r: u32)
    requires
        k < FLAG_PREDICATE_COUNT,
    ensures
        r == spec_flag_bit(k as int),
{
    match k {
        0 => FLAG_UP,
        1 => FLAG_BROADCAST,
        2 => FLAG_LOOPBACK,
        3 => FLAG_POINT_TO_POINT,
        4 => FLAG_MULTICAST,
        5 => FLAG_RUNNING,
        6 => FLAG_DORMANT,
        _ => FLAG_LOWER_UP,
    }
}

fn flag_label(k: usize) -> (r: &'static str)
    requires
        k < FLAG_PREDICATE_COUNT,
    ensures
        r@ == spec_flag_label(k as int),
{
    match k {
        0 => "UP",
        1 => "BROADCAST",
        2 => "LOOPBACK",
        3 => "POINTOPOINT",
        4 => "MULTICAST",
        5 => "RUNNING",
        6 => "DORMANT",
        _ => "LOWERUP",
    }
}

/// Decodes one flag bitfield into the names to list for it, in the fixed
/// order, keeping only the flags the platform can decide.
pub fn flag_names(flags: u32, platform: Platform) -> (r: Vec<&'static str>)
    ensures
        r@.len() == spec_flag_names(flags, platform).len(),
        forall|j: int| 0 <= j < r@.len() ==> r@[j]@ == spec_flag_names(flags, platform)[j],
{
    let supported = supported_flag_count(platform);
    let mut r: Vec<&'static str> = Vec::new();
    let mut k: usize = 0;
    while k < FLAG_PREDICATE_COUNT
        invariant
            0 <= k <= FLAG_PREDICATE_COUNT,
            supported == spec_supported_flag_count(platform),
            r@.len() == spec_flag_names_upto(flags, platform, k as int).len(),
            forall|j: int|
                0 <= j < r@.len() ==> r@[j]@ == spec_flag_names_upto(flags, platform, k as int)[j],
        decreases FLAG_PREDICATE_COUNT - k,
    {
        let ghost before = spec_flag_names_upto(flags, platform, k as int);
        let ghost after = spec_flag_names_upto(flags, platform, k as int + 1);
        if k < supported && flags & flag_bit(k) != 0 {
            r.push(flag_label(k));
            proof {
                assert(after =~= before.push(spec_flag_label(k as int)));
            }
        } else {
            proof {
                assert(after =~= before);
            }
        }
        k = k + 1;
    }
    r
}

/// The number of IPv4 assignments among `ips`.
pub open spec fn spec_count_v4(ips: Seq<IpAssignment>) -> int
    decreases ips.len(),
{
    if ips.len() == 0 {
        0
    } else {
        spec_count_v4(ips.drop_last()) + if ips.last() is V4 {
            1int
        } else {
            0int
        }
    }
}

proof fn lemma_count_v4_bound(ips: Seq<IpAssignment>)
    ensures
        0 <= spec_count_v4(ips) <= ips.len(),
    decreases ips.len(),
{
    if ips.len() > 0 {
        lemma_count_v4_bound(ips.drop_last());
    }
}

/// Counts an interface's IPv4 assignments.
pub fn count_ipv4(iface: &NetInterface) -> (r: usize)
    ensures
        r == spec_count_v4(iface.ips@),
{
    let mut count: usize = 0;
    let mut i: usize = 0;
    while i < iface.ips.len()
        invariant
            0 <= i <= iface.ips@.len(),
            count == spec_count_v4(iface.ips@.take(i as int)),
            0 <= count <= i,
        decreases iface.ips@.len() - i,
    {
        proof {
            assert(iface.ips@.take(i as int + 1).drop_last() =~= iface.ips@.take(i as int));
            assert(iface.ips@.take(i as int + 1).last() == iface.ips@[i as int]);
        }
        if iface.ips[i].is_ipv4() {
            count = count + 1;
        }
        i = i + 1;
    }
    proof {
        assert(iface.ips@.take(iface.ips@.len() as int) =~= iface.ips@);
    }
    count
}

/// Counts an interface's IPv6 assignments: everything that is not v4.
pub fn count_ipv6(iface: &NetInterface) -> (r: usize)
    ensures
        r == iface.ips@.len() - spec_count_v4(iface.ips@),
{
    proof {
        lemma_count_v4_bound(iface.ips@);
    }
    let v4 = count_ipv4(iface);
    iface.ips.len() - v4
}

/// The widest of a column's candidate widths, or 0 for an empty column.
pub fn max_length(values: &Vec<usize>) -> (r: usize)
    ensures
        values@.len() == 0 ==> r == 0,
        forall|i: int| 0 <= i < values@.len() ==> values@[i] <= r,
        values@.len() > 0 ==> values@.contains(r),
{
    let mut r: usize = 0;
    let mut i: usize = 0;
    while i < values.len()
        invariant
            0 <= i <= values@.len(),
            i == 0 ==> r == 0,
            forall|j: int| 0 <= j < i ==> values@[j] <= r,
            i > 0 ==> values@.take(i as int).contains(r),
        decreases values@.len() - i,
    {
        if values[i] > r || i == 0 {
            r = values[i];
        }
        proof {
            if values@.take(i as int).contains(r) {
                let w = choose|w: int| 0 <= w < i && values@.take(i as int)[w] == r;
                assert(values@.take(i as int + 1)[w] == r);
            } else {
                assert(values@.take(i as int + 1)[i as int] == r);
            }
        }
        i = i + 1;
    }
    proof {
        if values@.len() > 0 {
            assert(values@.take(values@.len() as int) =~= values@);
        }
    }
    r
}

} // verus!
