//! The HID interfaces worth probing: Logitech interfaces on the HID++ usage
//! page, in an order that does not depend on how the system enumerated them.

use vstd::prelude::*;

use crate::hidpp::{HIDPP_USAGE_PAGE, LOGITECH_VID};

verus! {

/// What probing needs to know of one enumerated HID interface.
#[derive(Debug)]
pub struct InterfaceInfo {
    pub vendor_id: u16,
    pub usage_page: u16,
    pub product_id: u16,
    pub interface_number: i32,
    /// The platform path of the interface, as bytes.
    pub path: Vec<u8>,
}

/// A Logitech interface on the HID++ usage page.
pub open spec fn spec_is_candidate(info: InterfaceInfo) -> bool {
    info.vendor_id == LOGITECH_VID && info.usage_page == HIDPP_USAGE_PAGE
}

/// Lexicographic order of byte strings: negative, zero or positive as `a`
/// comes before, equals or comes after `b`; a proper prefix comes first.
pub open spec fn spec_compare_bytes(a: Seq<u8>, b: Seq<u8>) -> int
    decreases a.len(),
{
    if a.len() == 0 {
        if b.len() == 0 { 0 } else { -1 }
    } else if b.len() == 0 {
        1
    } else if a[0] < b[0] {
        -1
    } else if a[0] > b[0] {
        1
    } else {
        spec_compare_bytes(a.drop_first(), b.drop_first())
    }
}

/// Interfaces are ordered by product ID, then interface number, then path.
pub open spec fn spec_compare_interfaces(a: InterfaceInfo, b: InterfaceInfo) -> int {
    if a.product_id < b.product_id {
        -1
    } else if a.product_id > b.product_id {
        1
    } else if a.interface_number < b.interface_number {
        -1
    } else if a.interface_number > b.interface_number {
        1
    } else {
        spec_compare_bytes(a.path@, b.path@)
    }
}

/// The interface at `i` is probed before the one at `j`: it orders first,
/// or it orders the same and was enumerated first.
pub open spec fn spec_probed_before(infos: Seq<InterfaceInfo>, i: int, j: int) -> bool {
    let order = spec_compare_interfaces(infos[i], infos[j]);
    order < 0 || (order == 0 && i < j)
}

pub proof fn lemma_compare_bytes_antisymmetric(a: Seq<u8>, b: Seq<u8>)
    ensures
        spec_compare_bytes(a, b) == -spec_compare_bytes(b, a),
        -1 <= spec_compare_bytes(a, b) <= 1,
    decreases a.len(),
{
    if a.len() > 0 && b.len() > 0 && a[0] == b[0] {
        lemma_compare_bytes_antisymmetric(a.drop_first(), b.drop_first());
    }
}

pub proof fn lemma_compare_bytes_transitive(a: Seq<u8>, b: Seq<u8>, c: Seq<u8>)
    requires
        spec_compare_bytes(a, b) <= 0,
        spec_compare_bytes(b, c) <= 0,
    ensures
        spec_compare_bytes(a, c) <= 0,
        spec_compare_bytes(a, b) < 0 || spec_compare_bytes(b, c) < 0 ==> spec_compare_bytes(a, c) < 0,
    decreases a.len(),
{
    if a.len() > 0 && b.len() > 0 && c.len() > 0 && a[0] == b[0] && b[0] == c[0] {
        lemma_compare_bytes_transitive(a.drop_first(), b.drop_first(), c.drop_first());
    }
}

pub proof fn lemma_compare_interfaces_antisymmetric(a: InterfaceInfo, b: InterfaceInfo)
    ensures
        spec_compare_interfaces(a, b) == -spec_compare_interfaces(b, a),
{
    lemma_compare_bytes_antisymmetric(a.path@, b.path@);
}

pub proof fn lemma_compare_interfaces_transitive(a: InterfaceInfo, b: InterfaceInfo, c: InterfaceInfo)
    requires
        spec_compare_interfaces(a, b) <= 0,
        spec_compare_interfaces(b, c) <= 0,
    ensures
        spec_compare_interfaces(a, c) <= 0,
        spec_compare_interfaces(a, b) < 0 || spec_compare_interfaces(b, c) < 0 ==> spec_compare_interfaces(a, c) < 0,
{
    if a.product_id == b.product_id && b.product_id == c.product_id && a.interface_number
        == b.interface_number && b.interface_number == c.interface_number {
        lemma_compare_bytes_transitive(a.path@, b.path@, c.path@);
    }
}

/// Probing order is a strict total order on the enumerated interfaces.
pub proof fn lemma_probed_before_total(infos: Seq<InterfaceInfo>, i: int, j: int)
    requires
        i != j,
    ensures
        spec_probed_before(infos, i, j) != spec_probed_before(infos, j, i),
{
    lemma_compare_interfaces_antisymmetric(infos[i], infos[j]);
}

pub proof fn lemma_probed_before_transitive(infos: Seq<InterfaceInfo>, i: int, j: int, k: int)
    requires
        spec_probed_before(infos, i, j),
        spec_probed_before(infos, j, k),
    ensures
        spec_probed_before(infos, i, k),
{
    lemma_compare_interfaces_transitive(infos[i], infos[j], infos[k]);
}

fn compare_bytes(a: &[u8], b: &[u8]) -> (r: i8)
    ensures
        r == spec_compare_bytes(a@, b@),
{
    let mut i: usize = 0;
    proof {
        assert(a@.skip(0) =~= a@);
        assert(b@.skip(0) =~= b@);
    }
    while i < a.len() && i < b.len()
        invariant
            i <= a@.len(),
            i <= b@.len(),
            spec_compare_bytes(a@, b@) == spec_compare_bytes(a@.skip(i as int), b@.skip(i as int)),
        decreases a@.len() - i,
    {
        if a[i] < b[i] {
            return -1;
        }
        if a[i] > b[i] {
            return 1;
        }
        proof {
            assert(a@.skip(i as int).drop_first() =~= a@.skip(i + 1));
            assert(b@.skip(i as int).drop_first() =~= b@.skip(i + 1));
        }
        i = i + 1;
    }
    if i < a.len() {
        1
    } else if i < b.len() {
        -1
    } else {
        0
    }
}

fn compare_interfaces(a: &InterfaceInfo, b: &InterfaceInfo) -> (r: i8)
    ensures
        r == spec_compare_interfaces(*a, *b),
{
    if a.product_id < b.product_id {
        -1
    } else if a.product_id > b.product_id {
        1
    } else if a.interface_number < b.interface_number {
        -1
    } else if a.interface_number > b.interface_number {
        1
    } else {
        compare_bytes(a.path.as_slice(), b.path.as_slice())
    }
}

/// The positions in `infos` of the Logitech HID++ interfaces, ordered by
/// product ID, interface number and path, ties in enumeration order.
pub fn candidate_interfaces(infos: &[InterfaceInfo]) -> (r: Vec<usize>)
    ensures
        forall|k: int| 0 <= k < r@.len() ==> #[trigger] r@[k] < infos@.len() && spec_is_candidate(infos@[r@[k] as int]),
        forall|i: int| 0 <= i < infos@.len() && spec_is_candidate(#[trigger] infos@[i]) ==> r@.contains(i as usize),
        forall|a: int, b: int| 0 <= a < b < r@.len() ==> spec_probed_before(infos@, #[trigger] r@[a] as int, #[trigger] r@[b] as int),
{
    let mut sorted: Vec<usize> = Vec::new();
    let mut j: usize = 0;
    while j < infos.len()
        invariant
            j <= infos@.len(),
            forall|k: int| 0 <= k < sorted@.len() ==> #[trigger] sorted@[k] < j && spec_is_candidate(infos@[sorted@[k] as int]),
            forall|i: int| 0 <= i < j && spec_is_candidate(#[trigger] infos@[i]) ==> sorted@.contains(i as usize),
            forall|a: int, b: int| 0 <= a < b < sorted@.len() ==> spec_probed_before(infos@, #[trigger] sorted@[a] as int, #[trigger] sorted@[b] as int),
        decreases infos@.len() - j,
    {
        let info = &infos[j];
        if info.vendor_id == LOGITECH_VID && info.usage_page == HIDPP_USAGE_PAGE {
            let mut p: usize = 0;
            while p < sorted.len() && compare_interfaces(&infos[sorted[p]], info) <= 0
                invariant
                    p <= sorted@.len(),
                    j < infos@.len(),
                    info == infos@[j as int],
                    forall|k: int| 0 <= k < sorted@.len() ==> #[trigger] sorted@[k] < j,
                    forall|q: int| 0 <= q < p ==> spec_probed_before(infos@, #[trigger] sorted@[q] as int, j as int),
                decreases sorted@.len() - p,
            {
                p = p + 1;
            }
            let ghost old_sorted = sorted@;
            proof {
                if p < old_sorted.len() {
                    lemma_probed_before_total(infos@, old_sorted[p as int] as int, j as int);
                    assert(spec_probed_before(infos@, j as int, old_sorted[p as int] as int));
                    assert forall|q: int| p < q < old_sorted.len() implies spec_probed_before(infos@, j as int, #[trigger] old_sorted[q] as int) by {
                        lemma_probed_before_transitive(infos@, j as int, old_sorted[p as int] as int, old_sorted[q] as int);
                    }
                }
            }
            sorted.insert(p, j);
            proof {
                let s = sorted@;
                assert(s =~= old_sorted.insert(p as int, j));
                assert forall|a: int, b: int| 0 <= a < b < s.len() implies spec_probed_before(infos@, #[trigger] s[a] as int, #[trigger] s[b] as int) by {
                    if b < p {
                        assert(s[a] == old_sorted[a] && s[b] == old_sorted[b]);
                    } else if b == p {
                        assert(s[a] == old_sorted[a]);
                    } else if a < p {
                        assert(s[a] == old_sorted[a] && s[b] == old_sorted[b - 1]);
                        assert(spec_probed_before(infos@, j as int, old_sorted[p as int] as int));
                        if b - 1 > p {
                            assert(spec_probed_before(infos@, old_sorted[p as int] as int, old_sorted[b - 1] as int));
                            lemma_probed_before_transitive(infos@, j as int, old_sorted[p as int] as int, old_sorted[b - 1] as int);
                        }
                        lemma_probed_before_transitive(infos@, old_sorted[a] as int, j as int, old_sorted[b - 1] as int);
                    } else if a == p {
                        assert(s[b] == old_sorted[b - 1]);
                    } else {
                        assert(s[a] == old_sorted[a - 1] && s[b] == old_sorted[b - 1]);
                    }
                }
                assert forall|i: int| 0 <= i < j + 1 && spec_is_candidate(#[trigger] infos@[i]) implies s.contains(i as usize) by {
                    if i == j {
                        assert(s[p as int] == j);
                    } else {
                        assert(old_sorted.contains(i as usize));
                        let k = choose|k: int| 0 <= k < old_sorted.len() && old_sorted[k] == i as usize;
                        if k < p {
                            assert(s[k] == i as usize);
                        } else {
                            assert(s[k + 1] == i as usize);
                        }
                    }
                }
            }
        }
        j = j + 1;
    }
    sorted
}

} // verus!
