use vstd::prelude::*;

use crate::instance_type::Ec2InstanceType;
use crate::security_groups::SECURITY_GROUP_NAME;
use crate::text::{opt_seq, opt_string_text};

verus! {

/// What is asked of EC2 when the server instance is launched.
pub struct LaunchRequest {
    pub instance_type: Ec2InstanceType,
    pub image_id: String,
    pub key_name: String,
    pub security_group: String,
    pub min_count: i32,
    pub max_count: i32,
}

/// The launch of exactly one instance of `instance_type` from the image
/// `ami`, reachable with the key pair `key_name`, in the program's security
/// group.
pub fn launch_request(instance_type: Ec2InstanceType, ami: &str, key_name: &str) -> (req: LaunchRequest)
    ensures
        req.instance_type == instance_type,
        req.image_id@ == ami@,
        req.key_name@ == key_name@,
        req.security_group@ == SECURITY_GROUP_NAME@,
        req.min_count == 1,
        req.max_count == 1,
{
    LaunchRequest {
        instance_type,
        image_id: ami.to_owned(),
        key_name: key_name.to_owned(),
        security_group: SECURITY_GROUP_NAME.to_owned(),
        min_count: 1,
        max_count: 1,
    }
}

/// An instance as EC2 reports it after a launch: its identifier, where the
/// reply holds one.
pub struct LaunchedInstance {
    pub instance_id: Option<String>,
}

/// The identifier of the first instance of a launch reply, where the reply
/// lists instances, the list is not empty and its first entry has one.
pub open spec fn first_instance_id_spec(instances: Option<Seq<LaunchedInstance>>) -> Option<Seq<char>> {
    match instances {
        Some(v) => if v.len() > 0 {
            match v[0].instance_id {
                Some(id) => Some(id@),
                None => None,
            }
        } else {
            None
        },
        None => None,
    }
}

/// The identifier of the instance that a launch started.
pub fn first_instance_id(instances: &Option<Vec<LaunchedInstance>>) -> (id: Option<String>)
    ensures
        opt_string_text(id) == first_instance_id_spec(opt_seq(*instances)),
        match *instances {
            Some(v) => {
                &&& v@.len() >= 1 ==> id == v@[0].instance_id
                &&& v@.len() == 0 ==> id is None
            },
            None => id is None,
        },
{
    match instances {
        Some(v) => {
            if v.len() > 0 {
                match &v[0].instance_id {
                    Some(id) => Some(id.clone()),
                    None => None,
                }
            } else {
                None
            }
        },
        None => None,
    }
}

/// The name of the filter that selects an instance's network interfaces.
pub const INSTANCE_ID_FILTER: &'static str = "attachment.instance-id";

/// The public address association of a network interface.
pub struct InterfaceAssociation {
    pub public_ip: Option<String>,
}

/// A network interface as EC2 describes it.
pub struct NetworkInterface {
    pub association: Option<InterfaceAssociation>,
}

/// The public address of the first interface of a description, where the
/// description lists interfaces and the first one has a public address.
pub open spec fn first_public_ip_spec(interfaces: Option<Seq<NetworkInterface>>) -> Option<Seq<char>> {
    match interfaces {
        Some(v) => if v.len() > 0 {
            match v[0].association {
                Some(a) => opt_string_text(a.public_ip),
                None => None,
            }
        } else {
            None
        },
        None => None,
    }
}

/// The public address of an instance, read from the description of its
/// network interfaces (`None` where EC2 gave none, as while it boots).
pub fn public_ip_of_first_interface(interfaces: &Option<Vec<NetworkInterface>>) -> (ip: Option<String>)
    ensures
        opt_string_text(ip) == first_public_ip_spec(opt_seq(*interfaces)),
        match *interfaces {
            Some(v) => {
                &&& (v@.len() >= 1 && v@[0].association is Some) ==> ip == v@[0].association->0.public_ip
                &&& (v@.len() == 0 || v@[0].association is None) ==> ip is None
            },
            None => ip is None,
        },
{
    match interfaces {
        Some(v) => {
            if v.len() > 0 {
                match &v[0].association {
                    Some(a) => match &a.public_ip {
                        Some(ip) => Some(ip.clone()),
                        None => None,
                    },
                    None => None,
                }
            } else {
                None
            }
        },
        None => None,
    }
}

/// A launch reply that lists instances gives the identifier of the first
/// one, so the reply to a one-instance launch gives that instance's
/// identifier; a reply without instances gives none.
pub proof fn lemma_first_instance_id(v: Seq<LaunchedInstance>, id: String)
    ensures
        v.len() >= 1 ==> first_instance_id_spec(Some(v)) == opt_string_text(v[0].instance_id),
        (v.len() >= 1 && v[0].instance_id == Some(id)) ==> first_instance_id_spec(Some(v)) == Some(id@),
        v == seq![LaunchedInstance { instance_id: Some(id) }] ==> first_instance_id_spec(Some(v)) == Some(id@),
        v.len() == 0 ==> first_instance_id_spec(Some(v)) is None,
        first_instance_id_spec(None) is None,
        first_instance_id_spec(Some(v)) is None ==> v.len() == 0 || v[0].instance_id is None,
{
}

/// A description whose first interface has a public address gives that
/// address, so an instance with a single interface that has a public
/// address is found at the first poll; a description without interfaces,
/// or whose first interface has no address, gives none.
pub proof fn lemma_first_public_ip(v: Seq<NetworkInterface>, ip: String)
    ensures
        (v.len() >= 1 && v[0].association is Some && v[0].association->0.public_ip == Some(ip))
            ==> first_public_ip_spec(Some(v)) == Some(ip@),
        v == seq![NetworkInterface { association: Some(InterfaceAssociation { public_ip: Some(ip) }) }]
            ==> first_public_ip_spec(Some(v)) == Some(ip@),
        (v.len() >= 1 && v[0].association is Some)
            ==> first_public_ip_spec(Some(v)) == opt_string_text(v[0].association->0.public_ip),
        v.len() == 0 ==> first_public_ip_spec(Some(v)) is None,
        first_public_ip_spec(None) is None,
        first_public_ip_spec(Some(v)) is None ==> v.len() == 0 || v[0].association is None
            || v[0].association->0.public_ip is None,
{
}

} // verus!
