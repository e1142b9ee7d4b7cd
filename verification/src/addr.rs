//! Selection of a usable address out of a name-resolution result.
//!
//! The layer is IPv4-only by design: the first IPv4 entry in resolution
//! order is chosen, deterministically, and an IPv6-only host is a fatal
//! `AddressUnresolved` condition rather than a fallback to IPv6. This is a
//! known limitation, preserved deliberately because deployments may rely on
//! it. The host process performs the actual name resolution and hands the
//! resulting address list in as plain values.

use vstd::prelude::*;

use crate::errors::ConnectError;

verus! {

/// One entry of a name-resolution result, reduced to what the selection
/// logic reads: the address family, and the four octets of an IPv4 address.
/// An IPv6 entry carries no payload here because the selection never uses
/// one — it only steps over them.
#[derive(Clone, Copy, Debug, PartialEq, Eq, Structural)]
pub enum IpAddress {
    V4 { a: u8, b: u8, c: u8, d: u8 },
    V6,
}

/// A resolved socket address: one IP address plus the port of the broker.
/// Immutable once produced, scoped to a single connection attempt.
#[derive(Clone, Copy, Debug, PartialEq, Eq, Structural)]
pub struct SocketAddress {
    pub ip: IpAddress,
    pub port: u16,
}

/// The first IPv4 entry of `addrs` in resolution order, if any.
pub open spec fn first_v4(addrs: Seq<IpAddress>) -> Option<IpAddress>
    decreases addrs.len(),
{
    if addrs.len() == 0 {
        Option::None
    } else if addrs[0] is V4 {
        Option::Some(addrs[0])
    } else {
        first_v4(addrs.drop_first())
    }
}

/// Deterministically selects the first IPv4 address of a resolution result
/// and pairs it with the port; an address list without any IPv4 entry is the
/// fatal `AddressUnresolved` condition (no IPv6 fallback).
pub fn select_ipv4(addrs: &Vec<IpAddress>, port: u16) -> (r: Result<
    SocketAddress,
    ConnectError,
>)
    ensures
        match r {
            Ok(sa) => first_v4(addrs@) == Option::Some(sa.ip) && sa.port == port && sa.ip is V4,
            Err(e) => e == ConnectError::AddressUnresolved && first_v4(addrs@) is None,
        },
{
    let n = addrs.len();
    let mut i: usize = 0;
    proof {
        assert(addrs@.skip(0) =~= addrs@);
    }
    while i < n
        invariant
            0 <= i <= n,
            n == addrs@.len(),
            first_v4(addrs@) == first_v4(addrs@.skip(i as int)),
        decreases n - i,
    {
        let a = addrs[i];
        proof {
            assert(addrs@.skip(i as int)[0] == addrs@[i as int]);
        }
        match a {
            IpAddress::V4 { .. } => {
                return Ok(SocketAddress { ip: a, port });
            },
            IpAddress::V6 => {
                proof {
                    lemma_skip_step(addrs@, i as int);
                }
                i = i + 1;
            },
        }
    }
    proof {
        assert(addrs@.skip(i as int).len() == 0);
    }
    Err(ConnectError::AddressUnresolved)
}

/// Stepping one non-IPv4 entry forward does not change the selection.
proof fn lemma_skip_step(s: Seq<IpAddress>, i: int)
    requires
        0 <= i < s.len(),
    ensures
        s.skip(i).drop_first() =~= s.skip(i + 1),
{
}

/// The resolver's choice is a pure function of the resolution order: within
/// a stable environment, where repeated resolutions return the same address
/// list, the same address is selected every time.
pub proof fn lemma_selection_deterministic(a: Seq<IpAddress>, b: Seq<IpAddress>)
    requires
        a == b,
    ensures
        first_v4(a) == first_v4(b),
{
}

/// What `first_v4` selects is exactly the first IPv4 entry: the selected
/// address stands in the list, is IPv4, and no earlier entry is IPv4; and
/// the selection succeeds if and only if some entry is IPv4.
pub proof fn lemma_first_v4_characterization(s: Seq<IpAddress>)
    ensures
        first_v4(s) matches Some(a) ==> exists|i: int|
            0 <= i < s.len() && s[i] == a && a is V4 && (forall|j: int|
                0 <= j < i ==> !(s[j] is V4)),
        first_v4(s) is None ==> forall|i: int| 0 <= i < s.len() ==> !(s[i] is V4),
    decreases s.len(),
{
    if s.len() == 0 {
    } else if s[0] is V4 {
        let a = s[0];
        assert(0 <= 0 < s.len() && s[0] == a && a is V4 && (forall|j: int|
            0 <= j < 0 ==> !(s[j] is V4)));
    } else {
        let t = s.drop_first();
        lemma_first_v4_characterization(t);
        match first_v4(s) {
            Option::Some(a) => {
                let i = choose|i: int|
                    0 <= i < t.len() && t[i] == a && a is V4 && (forall|j: int|
                        0 <= j < i ==> !(t[j] is V4));
                assert(s[i + 1] == t[i]);
                assert(forall|j: int| 0 <= j < i + 1 ==> !(s[j] is V4)) by {
                    assert(forall|j: int| 1 <= j < i + 1 ==> s[j] == t[j - 1]);
                }
                assert(0 <= i + 1 < s.len() && s[i + 1] == a && a is V4 && (forall|j: int|
                    0 <= j < i + 1 ==> !(s[j] is V4)));
            },
            Option::None => {
                assert(forall|i: int| 1 <= i < s.len() ==> s[i] == t[i - 1]);
            },
        }
    }
}

} // verus!
