use vstd::prelude::*;
use crate::addr::Endpoint4;
use crate::text::{push_str, push_chars, chars_of, index_of_char, prefix_before};

verus! {

/// The mDNS service type under which LuminaRemote peers advertise.
pub open spec fn service_type() -> Seq<char> {
    "_lumina._udp.local."@
}

/// The host name a peer advertises: `"<session_id>.local."`.
pub fn service_host_name(session_id: &str) -> (h: String)
    ensures
        h@ == session_id@ + ".local."@,
{
    let mut h = String::new();
    push_str(&mut h, session_id);
    push_str(&mut h, ".local.");
    h
}

/// The full mDNS instance name of the peer with `session_id`:
/// `"<session_id>._lumina._udp.local."`.
pub fn target_instance_name(session_id: &str) -> (n: String)
    ensures
        n@ == session_id@ + "."@ + service_type(),
{
    let mut n = String::new();
    push_str(&mut n, session_id);
    push_str(&mut n, ".");
    push_str(&mut n, "_lumina._udp.local.");
    n
}

/// An address that an mDNS record carries.
#[derive(Debug, Clone, Copy, PartialEq, Eq, Structural)]
pub enum HostIp {
    /// An IPv4 address as a big-endian `u32`.
    V4(u32),
    /// An IPv6 address (never used to connect).
    V6,
}

/// The first IPv4 address of a list, if any.
pub open spec fn first_ipv4(addrs: Seq<HostIp>) -> Option<u32>
    decreases addrs.len(),
{
    if addrs.len() == 0 {
        None
    } else {
        match addrs[0] {
            HostIp::V4(ip) => Some(ip),
            HostIp::V6 => first_ipv4(addrs.drop_first()),
        }
    }
}

/// The address to reach when a resolved service is the one searched for: the
/// record's first IPv4 address with its port.
pub open spec fn lan_match(target: Seq<char>, fullname: Seq<char>, addrs: Seq<HostIp>, port: u16) -> Option<Endpoint4> {
    if fullname == target {
        match first_ipv4(addrs) {
            Some(ip) => Some(Endpoint4 { ip, port }),
            None => None,
        }
    } else {
        None
    }
}

/// The service searched for is reached on the port it advertised, at the first
/// IPv4 address of its record (earlier addresses are all IPv6); nothing is
/// found for another service, or for a record without an IPv4 address.
pub proof fn lemma_lan_match_characterized(target: Seq<char>, fullname: Seq<char>, addrs: Seq<HostIp>, port: u16)
    ensures
        lan_match(target, fullname, addrs, port) matches Some(e) ==> e.port == port && fullname == target
            && exists|i: int| 0 <= i < addrs.len() && addrs[i] == HostIp::V4(e.ip) && (forall|j: int| 0 <= j < i ==> #[trigger] addrs[j] == HostIp::V6),
        lan_match(target, fullname, addrs, port) is None <==> (fullname != target || forall|j: int| 0 <= j < addrs.len() ==> #[trigger] addrs[j] == HostIp::V6),
{
    lemma_first_ipv4(addrs);
}

/// The first IPv4 address of a list is the first entry that is not IPv6.
pub proof fn lemma_first_ipv4(addrs: Seq<HostIp>)
    ensures
        first_ipv4(addrs) matches Some(ip) ==> exists|i: int| 0 <= i < addrs.len() && addrs[i] == HostIp::V4(ip) && (forall|j: int| 0 <= j < i ==> #[trigger] addrs[j] == HostIp::V6),
        first_ipv4(addrs) is None <==> forall|j: int| 0 <= j < addrs.len() ==> #[trigger] addrs[j] == HostIp::V6,
    decreases addrs.len(),
{
    if addrs.len() > 0 {
        let rest = addrs.drop_first();
        lemma_first_ipv4(rest);
        assert forall|j: int| 0 <= j < rest.len() implies #[trigger] rest[j] == addrs[j + 1] by {}
        match addrs[0] {
            HostIp::V4(ip) => {
                assert(addrs[0] == HostIp::V4(ip));
            },
            HostIp::V6 => {
                if first_ipv4(rest) is Some {
                    let ip = first_ipv4(rest)->0;
                    let i = choose|i: int| 0 <= i < rest.len() && rest[i] == HostIp::V4(ip) && (forall|j: int| 0 <= j < i ==> #[trigger] rest[j] == HostIp::V6);
                    assert(addrs[i + 1] == HostIp::V4(ip));
                    assert forall|j: int| 0 <= j < i + 1 implies #[trigger] addrs[j] == HostIp::V6 by {
                        if j > 0 {
                            assert(addrs[j] == rest[j - 1]);
                        }
                    }
                } else {
                    assert forall|j: int| 0 <= j < addrs.len() implies #[trigger] addrs[j] == HostIp::V6 by {
                        if j > 0 {
                            assert(addrs[j] == rest[j - 1]);
                        }
                    }
                }
            },
        }
    }
}

/// Decides whether a resolved mDNS service is the host searched for, and where to reach it.
pub fn resolved_lan_address(target: &String, fullname: &String, addrs: &Vec<HostIp>, port: u16) -> (r: Option<Endpoint4>)
    ensures
        r == lan_match(target@, fullname@, addrs@, port),
        r matches Some(e) ==> e.port == port && fullname@ == target@ && exists|i: int|
            0 <= i < addrs@.len() && addrs@[i] == HostIp::V4(e.ip) && (forall|j: int| 0 <= j < i ==> #[trigger] addrs@[j] == HostIp::V6),
        r is None <==> (fullname@ != target@ || forall|j: int| 0 <= j < addrs@.len() ==> #[trigger] addrs@[j] == HostIp::V6),
{
    proof {
        lemma_lan_match_characterized(target@, fullname@, addrs@, port);
    }
    if *fullname != *target {
        return None;
    }
    let mut i: usize = 0;
    assert(addrs@.subrange(0, addrs@.len() as int) =~= addrs@);
    while i < addrs.len()
        invariant
            fullname@ == target@,
            0 <= i <= addrs@.len(),
            first_ipv4(addrs@) == first_ipv4(addrs@.subrange(i as int, addrs@.len() as int)),
        decreases addrs@.len() - i,
    {
        let ghost rest = addrs@.subrange(i as int, addrs@.len() as int);
        assert(rest.drop_first() =~= addrs@.subrange(i + 1, addrs@.len() as int));
        match addrs[i] {
            HostIp::V4(ip) => {
                proof {
                    lemma_lan_match_characterized(target@, fullname@, addrs@, port);
                }
                return Some(Endpoint4 { ip, port });
            },
            HostIp::V6 => {},
        }
        i = i + 1;
    }
    assert(addrs@.subrange(i as int, addrs@.len() as int) =~= Seq::<HostIp>::empty());
    None
}

/// The device id in a full instance name: the part before the first dot
/// (`"LMN-1234-5678._lumina._udp.local."` gives `"LMN-1234-5678"`).
pub fn host_id_of(fullname: &str) -> (id: String)
    ensures
        id@ == prefix_before(fullname@, '.'),
{
    let cs = chars_of(fullname);
    let end = index_of_char(&cs, '.');
    let mut id = String::new();
    push_chars(&mut id, &cs, 0, end);
    assert(id@ =~= cs@.subrange(0, end as int));
    id
}

/// Whether `id` is already among `found`.
pub fn contains_id(found: &Vec<String>, id: &String) -> (r: bool)
    ensures
        r == exists|i: int| 0 <= i < found@.len() && found@[i]@ == id@,
{
    let mut i: usize = 0;
    while i < found.len()
        invariant
            0 <= i <= found@.len(),
            forall|j: int| 0 <= j < i ==> found@[j]@ != id@,
        decreases found@.len() - i,
    {
        if found[i] == *id {
            return true;
        }
        i = i + 1;
    }
    false
}

/// The ids hold no duplicates.
pub open spec fn ids_distinct(found: Seq<String>) -> bool {
    forall|i: int, j: int| 0 <= i < j < found.len() ==> (#[trigger] found[i])@ != (#[trigger] found[j])@
}

/// Records the device of a resolved service in the list of hosts seen so far,
/// unless it is already there.
pub fn record_host(found: &mut Vec<String>, fullname: &str)
    ensures
        ({
            let id = prefix_before(fullname@, '.');
            &&& (exists|i: int| 0 <= i < old(found)@.len() && old(found)@[i]@ == id) ==> final(found)@ == old(found)@
            &&& !(exists|i: int| 0 <= i < old(found)@.len() && old(found)@[i]@ == id) ==> (
                final(found)@.len() == old(found)@.len() + 1
                && final(found)@.subrange(0, old(found)@.len() as int) == old(found)@
                && final(found)@.last()@ == id)
        }),
        ids_distinct(old(found)@) ==> ids_distinct(final(found)@),
{
    let id = host_id_of(fullname);
    if !contains_id(found, &id) {
        let ghost before = found@;
        found.push(id);
        proof {
            assert(found@.subrange(0, before.len() as int) =~= before);
            if ids_distinct(before) {
                assert forall|i: int, j: int| 0 <= i < j < found@.len() implies (#[trigger] found@[i])@
                    != (#[trigger] found@[j])@ by {
                    if j == before.len() {
                        assert(found@[i] == before[i]);
                    } else {
                        assert(found@[i] == before[i] && found@[j] == before[j]);
                    }
                }
            }
        }
    }
}

} // verus!
