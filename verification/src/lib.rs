//! Launches a throw-away OpenVPN server on an EC2 instance in a chosen AWS
//! region.  This crate holds the decisions of that program: the region
//! tables, the instance type chosen for a request, the names of keys and
//! directories, the command lines handed to `scp`, `ssh` and `openvpn`, and
//! the retry policy used while the instance boots.

pub mod text;
pub mod regions;
pub mod arguments;
pub mod ami;
pub mod instance_type;
pub mod retry;
pub mod openvpn;
pub mod random_id;
pub mod key_pairs;
pub mod manage_directory;
pub mod security_groups;
pub mod ec2_instance;
pub mod launch_plan;
