//! Choosing the address that a domain resolves to.

use vstd::prelude::*;

verus! {

/// An address that a lookup returned.
#[derive(Debug, Clone, Copy, PartialEq, Eq)]
pub enum IpAddress {
    V4([u8; 4]),
    V6([u16; 8]),
}

/// The first IPv4 address of `addrs`, if there is one.
pub open spec fn first_ipv4_spec(addrs: Seq<IpAddress>) -> Option<[u8; 4]>
    decreases addrs.len(),
{
    if addrs.len() == 0 {
        None
    } else {
        match addrs[0] {
            IpAddress::V4(a) => Some(a),
            IpAddress::V6(_) => first_ipv4_spec(addrs.drop_first()),
        }
    }
}

/// The first IPv4 address among those that a lookup returned; IPv6
/// addresses are passed over.
pub fn first_ipv4(addrs: &[IpAddress]) -> (r: Option<[u8; 4]>)
    ensures
        r == first_ipv4_spec(addrs@),
{
    let mut i: usize = 0;
    assert(addrs@.subrange(0, addrs@.len() as int) =~= addrs@);
    while i < addrs.len()
        invariant
            i <= addrs@.len(),
            first_ipv4_spec(addrs@) == first_ipv4_spec(addrs@.subrange(i as int, addrs@.len() as int)),
        decreases addrs@.len() - i,
    {
        let ghost rest = addrs@.subrange(i as int, addrs@.len() as int);
        assert(rest[0] == addrs@[i as int]);
        match addrs[i] {
            IpAddress::V4(a) => {
                return Some(a);
            },
            IpAddress::V6(_) => {},
        }
        assert(rest.drop_first() =~= addrs@.subrange(i + 1, addrs@.len() as int));
        i = i + 1;
    }
    assert(addrs@.subrange(i as int, addrs@.len() as int) =~= Seq::<IpAddress>::empty());
    None
}

/// The chosen address is the first IPv4 entry of the list: when entry `k`
/// is `V4(a)` and every entry before it is IPv6, the choice is `a`.
pub proof fn lemma_first_ipv4_is_first(addrs: Seq<IpAddress>, k: int, a: [u8; 4])
    requires
        0 <= k < addrs.len(),
        addrs[k] == IpAddress::V4(a),
        forall|j: int| 0 <= j < k ==> (#[trigger] addrs[j]) is V6,
    ensures
        first_ipv4_spec(addrs) == Some(a),
    decreases k,
{
    if k > 0 {
        assert(addrs[0] is V6);
        let rest = addrs.drop_first();
        assert forall|j: int| 0 <= j < k - 1 implies (#[trigger] rest[j]) is V6 by {
            assert(rest[j] == addrs[j + 1]);
        }
        lemma_first_ipv4_is_first(rest, k - 1, a);
    }
}

/// No address is chosen exactly when the list holds no IPv4 entry.
pub proof fn lemma_first_ipv4_none(addrs: Seq<IpAddress>)
    ensures
        first_ipv4_spec(addrs) is None <==> forall|j: int| 0 <= j < addrs.len() ==> (
        #[trigger] addrs[j]) is V6,
    decreases addrs.len(),
{
    if addrs.len() > 0 {
        let rest = addrs.drop_first();
        lemma_first_ipv4_none(rest);
        if addrs[0] is V6 {
            assert((forall|j: int| 0 <= j < addrs.len() ==> (#[trigger] addrs[j]) is V6) <==> (
            forall|j: int| 0 <= j < rest.len() ==> (#[trigger] rest[j]) is V6)) by {
                if forall|j: int| 0 <= j < rest.len() ==> (#[trigger] rest[j]) is V6 {
                    assert forall|j: int| 0 <= j < addrs.len() implies (#[trigger] addrs[j]) is V6 by {
                        if j > 0 {
                            assert(addrs[j] == rest[j - 1]);
                        }
                    }
                }
                if forall|j: int| 0 <= j < addrs.len() ==> (#[trigger] addrs[j]) is V6 {
                    assert forall|j: int| 0 <= j < rest.len() implies (#[trigger] rest[j]) is V6 by {
                        assert(rest[j] == addrs[j + 1]);
                    }
                }
            }
        }
    }
}

} // verus!
