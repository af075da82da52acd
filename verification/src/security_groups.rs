use vstd::prelude::*;

verus! {

/// The security group the server instance is launched in.
pub const SECURITY_GROUP_NAME: &'static str = "globevpn";

/// The description the security group is created with.
pub const SECURITY_GROUP_DESCRIPTION: &'static str = "Security group for GlobeVPN.";

/// A rule that lets traffic in.
pub struct IngressRule {
    pub protocol: String,
    pub cidr_ip: String,
    pub from_port: i32,
    pub to_port: i32,
}

/// The plain values of an [`IngressRule`].
pub open spec fn rule_view(r: IngressRule) -> (Seq<char>, Seq<char>, i32, i32) {
    (r.protocol@, r.cidr_ip@, r.from_port, r.to_port)
}

/// The rules the security group is given: SSH (TCP 22), for copying the
/// OpenVPN key, and OpenVPN (UDP 1194), both from anywhere.
pub fn ingress_rules() -> (rules: Vec<IngressRule>)
    ensures
        rules@.len() == 2,
        rule_view(rules@[0]) == ("tcp"@, "0.0.0.0/0"@, 22i32, 22i32),
        rule_view(rules@[1]) == ("udp"@, "0.0.0.0/0"@, 1194i32, 1194i32),
{
    let mut rules: Vec<IngressRule> = Vec::new();
    rules.push(IngressRule { protocol: "tcp".to_owned(), cidr_ip: "0.0.0.0/0".to_owned(), from_port: 22, to_port: 22 });
    rules.push(IngressRule { protocol: "udp".to_owned(), cidr_ip: "0.0.0.0/0".to_owned(), from_port: 1194, to_port: 1194 });
    rules
}

} // verus!
