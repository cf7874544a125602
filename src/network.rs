use vstd::prelude::*;
use crate::ipv4::Ipv4;
use crate::registry::SHORT_ID_LEN;

verus! {

/// Name of the host bridge the containers attach to.
pub const BRIDGE_NAME: &'static str = "aethel0";

/// Prefix length of the container subnet `172.29.0.0/24`.
pub const PREFIX_LEN: u8 = 24;

/// Name of the container's interface once it is inside its namespace.
pub const CONTAINER_IFACE: &'static str = "eth0";

/// The bridge's own address, `172.29.0.1`.
pub fn bridge_address() -> (r: Ipv4)
    ensures
        r == (Ipv4 { a: 172, b: 29, c: 0, d: 1 }),
{
    Ipv4 { a: 172, b: 29, c: 0, d: 1 }
}

/// Names of the two ends of a container's veth pair.
pub struct VethNames {
    /// The end that stays on the host and joins the bridge: `veth<id8>`.
    pub host: String,
    /// The end moved into the container: `vethp<id8>`.
    pub peer: String,
}

/// The veth pair names of the container with id `id`, built from its first
/// eight characters; `None` when the id is shorter.
pub fn veth_names(id: &String) -> (r: Option<VethNames>)
    ensures
        r is Some <==> id@.len() >= SHORT_ID_LEN,
        r matches Some(n) ==> n.host@ == "veth"@ + id@.take(SHORT_ID_LEN as int)
            && n.peer@ == "vethp"@ + id@.take(SHORT_ID_LEN as int),
{
    let s = id.as_str();
    if s.unicode_len() < SHORT_ID_LEN {
        return None;
    }
    let short = s.substring_char(0, SHORT_ID_LEN);
    let mut host = String::from_str("veth");
    host.append(short);
    let mut peer = String::from_str("vethp");
    peer.append(short);
    Some(VethNames { host, peer })
}

/// The iptables arguments of the outbound NAT rule:
/// `-t nat -A POSTROUTING -s 172.29.0.0/24 ! -o aethel0 -j MASQUERADE`.
pub fn nat_rule_args() -> (r: Vec<&'static str>)
    ensures
        r@.len() == 11,
        r@[0]@ == "-t"@ && r@[1]@ == "nat"@ && r@[2]@ == "-A"@ && r@[3]@ == "POSTROUTING"@,
        r@[4]@ == "-s"@ && r@[5]@ == "172.29.0.0/24"@ && r@[6]@ == "!"@ && r@[7]@ == "-o"@,
        r@[8]@ == BRIDGE_NAME@ && r@[9]@ == "-j"@ && r@[10]@ == "MASQUERADE"@,
{
    let mut v: Vec<&'static str> = Vec::new();
    v.push("-t");
    v.push("nat");
    v.push("-A");
    v.push("POSTROUTING");
    v.push("-s");
    v.push("172.29.0.0/24");
    v.push("!");
    v.push("-o");
    v.push(BRIDGE_NAME);
    v.push("-j");
    v.push("MASQUERADE");
    v
}

} // verus!
