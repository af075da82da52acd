use globevpn::ami::get_ami;
use globevpn::arguments::{regions, Args, InstanceSize, DEFAULT_REGION};
use globevpn::ec2_instance::{
    first_instance_id, launch_request, public_ip_of_first_interface, InterfaceAssociation,
    LaunchedInstance, NetworkInterface, INSTANCE_ID_FILTER,
};
use globevpn::instance_type::{get_instance_type, Ec2InstanceType};
use globevpn::key_pairs::{key_file_name, key_pair_name, new_key_pair_name};
use globevpn::launch_plan::{plan_launch, PlanError};
use globevpn::manage_directory::{
    generate_key_command, new_session_directory_name, session_directory_name, MAIN_DIRECTORY,
};
use globevpn::openvpn::{copy_key_command, install_key_command, openvpn_client_command, ssh_key_path};
use globevpn::regions::{find_region_info, get_region_info, region_info_table, RegionInfo};
use globevpn::retry::{Retry, RetryAction};
use globevpn::security_groups::{ingress_rules, SECURITY_GROUP_DESCRIPTION, SECURITY_GROUP_NAME};
use globevpn::text::same_text;

fn args(region: &str, size: InstanceSize, t3: bool) -> Args {
    Args { region: region.to_string(), size, t3 }
}

fn is_uuid_v4(s: &str) -> bool {
    let c: Vec<char> = s.chars().collect();
    c.len() == 36
        && c.iter().enumerate().all(|(i, ch)| {
            if i == 8 || i == 13 || i == 18 || i == 23 {
                *ch == '-'
            } else {
                ch.is_ascii_digit() || ('a'..='f').contains(ch)
            }
        })
        && c[14] == '4'
        && ['8', '9', 'a', 'b'].contains(&c[19])
}

#[test]
fn same_text_compares_characters() {
    assert!(same_text("eu-west-1", "eu-west-1"));
    assert!(!same_text("eu-west-1", "eu-west-2"));
    assert!(!same_text("eu-west-1", "eu-west-10"));
    assert!(same_text("", ""));
}

#[test]
fn region_table_has_all_regions() {
    let table = region_info_table();
    assert_eq!(table.len(), 23);
    assert_eq!(table[0].region, "eu-central-1");
    assert_eq!(table[22].region, "me-central-1");
}

#[test]
fn regions_lists_table_names_in_order() {
    let names = regions();
    let table = region_info_table();
    assert_eq!(names.len(), table.len());
    for (name, info) in names.iter().zip(table.iter()) {
        assert_eq!(*name, info.region);
    }
    assert_eq!(names[3], "eu-south-1");
}

#[test]
fn every_offered_region_resolves_to_itself() {
    for name in regions() {
        let info = get_region_info(name);
        assert_eq!(info.region, name);
    }
}

#[test]
fn default_region_is_offered() {
    assert!(regions().contains(&DEFAULT_REGION));
    let a = Args::default();
    assert_eq!(a.region, "eu-central-1");
    assert_eq!(a.size, InstanceSize::Micro);
    assert!(!a.t3);
}

#[test]
fn get_region_info_of_known_regions() {
    let info = get_region_info("eu-central-1");
    assert_eq!(info.ami, Some("ami-0163e22b06e9d08d4"));
    assert!(info.has_t2);
    let info = get_region_info("eu-south-1");
    assert_eq!(info.ami, Some("ami-09412495bdfcff6e0"));
    assert!(!info.has_t2);
    let info = get_region_info("us-east-1");
    assert_eq!(info.ami, None);
    assert!(info.has_t2);
}

#[test]
fn find_region_info_of_unknown_region() {
    assert!(find_region_info("mars-north-1").is_none());
    assert!(find_region_info("").is_none());
    assert!(find_region_info("eu-central-").is_none());
    assert_eq!(find_region_info("me-central-1").unwrap().region, "me-central-1");
}

#[test]
fn get_ami_of_regions() {
    assert_eq!(get_ami("eu-central-1"), Some("ami-06e97680b8bf6528e"));
    assert_eq!(get_ami("eu-west-2"), Some("ami-061e7843348aee109"));
    assert_eq!(get_ami("us-east-1"), Some("ami-09b8d4b4d39180649"));
    assert_eq!(get_ami("sa-east-1"), Some("ami-0d5990429ef5c2da8"));
    assert_eq!(get_ami("ap-southeast-2"), Some("ami-081d9e6c6f75745e3"));
    assert_eq!(get_ami("eu-west-1"), None);
    assert_eq!(get_ami("nowhere"), None);
}

#[test]
fn instance_type_follows_flag_and_region() {
    let t2_region = RegionInfo::new("eu-central-1", None, true);
    let t3_region = RegionInfo::new("eu-south-1", None, false);
    let cases = [
        (InstanceSize::Nano, false, &t2_region, Ec2InstanceType::T2Nano),
        (InstanceSize::Micro, false, &t2_region, Ec2InstanceType::T2Micro),
        (InstanceSize::Nano, true, &t2_region, Ec2InstanceType::T3Nano),
        (InstanceSize::Micro, true, &t2_region, Ec2InstanceType::T3Micro),
        (InstanceSize::Nano, false, &t3_region, Ec2InstanceType::T3Nano),
        (InstanceSize::Micro, false, &t3_region, Ec2InstanceType::T3Micro),
        (InstanceSize::Nano, true, &t3_region, Ec2InstanceType::T3Nano),
        (InstanceSize::Micro, true, &t3_region, Ec2InstanceType::T3Micro),
    ];
    for (size, t3, region, expected) in cases {
        assert_eq!(get_instance_type(&args("x", size, t3), region), expected);
    }
}

#[test]
fn plan_for_default_arguments() {
    let plan = plan_launch(&Args::default()).unwrap();
    assert_eq!(plan.region, "eu-central-1");
    assert_eq!(plan.ami, "ami-0163e22b06e9d08d4");
    assert_eq!(plan.instance_type, Ec2InstanceType::T2Micro);
    assert_eq!(plan.key_name, "eu-central-1");
}

#[test]
fn plan_in_region_without_t2() {
    let plan = plan_launch(&args("eu-south-1", InstanceSize::Nano, false)).unwrap();
    assert_eq!(plan.ami, "ami-09412495bdfcff6e0");
    assert_eq!(plan.instance_type, Ec2InstanceType::T3Nano);
    assert_eq!(plan.key_name, "eu-south-1");
}

#[test]
fn plan_errors() {
    assert_eq!(
        plan_launch(&args("atlantis-1", InstanceSize::Micro, false)).err(),
        Some(PlanError::UnknownRegion)
    );
    assert_eq!(
        plan_launch(&args("us-west-2", InstanceSize::Micro, false)).err(),
        Some(PlanError::NoAmiForRegion)
    );
}

#[test]
fn retry_gives_up_at_the_last_attempt() {
    let mut r = Retry::new(3, 5);
    assert_eq!(r.record(false), RetryAction::RetryAfter(5));
    assert_eq!(r.record(false), RetryAction::RetryAfter(5));
    assert!(!r.is_exhausted());
    assert_eq!(r.record(false), RetryAction::GiveUpAfter(5));
    assert!(r.is_exhausted());
    assert_eq!(r.attempts(), 3);
}

#[test]
fn retry_stops_on_success() {
    let mut r = Retry::new(3, 5);
    assert_eq!(r.record(false), RetryAction::RetryAfter(5));
    assert_eq!(r.record(true), RetryAction::Done);
    assert_eq!(r.attempts(), 2);
    let mut r = Retry::new(1, 7);
    assert_eq!(r.record(false), RetryAction::GiveUpAfter(7));
}

#[test]
fn retry_policies_of_the_program() {
    let mut ip = Retry::for_public_ip();
    for _ in 0..59 {
        assert_eq!(ip.record(false), RetryAction::RetryAfter(2));
    }
    assert_eq!(ip.record(false), RetryAction::GiveUpAfter(2));
    let mut copy = Retry::for_key_copy();
    for _ in 0..29 {
        assert_eq!(copy.record(false), RetryAction::RetryAfter(2));
    }
    assert_eq!(copy.record(false), RetryAction::GiveUpAfter(2));
}

#[test]
fn random_ids_are_fresh_uuids() {
    let a = new_key_pair_name();
    let b = new_key_pair_name();
    assert!(is_uuid_v4(&a["globevpn-".len()..]));
    assert!(is_uuid_v4(&b["globevpn-".len()..]));
    assert_ne!(a, b);
}

#[test]
fn key_pair_names() {
    assert_eq!(key_pair_name("abc"), "globevpn-abc");
    let name = new_key_pair_name();
    assert!(name.starts_with("globevpn-"));
    assert!(is_uuid_v4(&name["globevpn-".len()..]));
    assert_eq!(key_file_name("eu-west-1"), "eu-west-1.pem");
    assert_eq!(ssh_key_path("eu-west-1"), "../eu-west-1.pem");
}

#[test]
fn session_directory_names() {
    assert_eq!(MAIN_DIRECTORY, ".globevpn");
    assert_eq!(session_directory_name("eu-west-1", "x"), "eu-west-1-x");
    let name = new_session_directory_name("eu-central-1");
    assert!(name.starts_with("eu-central-1-"));
    assert!(is_uuid_v4(&name["eu-central-1-".len()..]));
}

#[test]
fn openvpn_command_lines() {
    let g = generate_key_command();
    assert_eq!(g.program, "openvpn");
    assert_eq!(g.args, vec!["--genkey", "--secret", "auth.key", "--cipher", "AES-256-CBC"]);

    let c = copy_key_command("1.2.3.4", "eu-west-1");
    assert_eq!(c.program, "scp");
    assert_eq!(
        c.args,
        vec![
            "-i",
            "../eu-west-1.pem",
            "-o",
            "StrictHostKeyChecking no",
            "auth.key",
            "ubuntu@1.2.3.4:/home/ubuntu"
        ]
    );

    let s = install_key_command("1.2.3.4", "eu-west-1");
    assert_eq!(s.program, "ssh");
    assert_eq!(
        s.args,
        vec![
            "-i",
            "../eu-west-1.pem",
            "-o",
            "StrictHostKeyChecking no",
            "ubuntu@1.2.3.4",
            "-t",
            "sudo mv auth.key /etc/openvpn/server"
        ]
    );

    let o = openvpn_client_command("1.2.3.4");
    assert_eq!(o.program, "sudo");
    assert_eq!(
        o.args,
        vec![
            "openvpn",
            "--remote",
            "1.2.3.4",
            "--nobind",
            "--dev",
            "tun",
            "--secret",
            "auth.key",
            "--cipher",
            "AES-256-CBC",
            "--ifconfig",
            "10.8.0.1",
            "10.8.0.2",
            "--redirect-gateway",
            "def1",
            "--auth-nocache"
        ]
    );
}

#[test]
fn launch_request_for_one_instance() {
    let r = launch_request(Ec2InstanceType::T3Micro, "ami-1", "key");
    assert_eq!(r.instance_type, Ec2InstanceType::T3Micro);
    assert_eq!(r.image_id, "ami-1");
    assert_eq!(r.key_name, "key");
    assert_eq!(r.security_group, "globevpn");
    assert_eq!((r.min_count, r.max_count), (1, 1));
}

#[test]
fn first_instance_id_of_replies() {
    assert_eq!(first_instance_id(&None), None);
    assert_eq!(first_instance_id(&Some(vec![])), None);
    assert_eq!(
        first_instance_id(&Some(vec![LaunchedInstance { instance_id: None }])),
        None
    );
    assert_eq!(
        first_instance_id(&Some(vec![
            LaunchedInstance { instance_id: Some("i-1".to_string()) },
            LaunchedInstance { instance_id: Some("i-2".to_string()) },
        ])),
        Some("i-1".to_string())
    );
}

#[test]
fn public_ip_of_descriptions() {
    assert_eq!(INSTANCE_ID_FILTER, "attachment.instance-id");
    assert_eq!(public_ip_of_first_interface(&None), None);
    assert_eq!(public_ip_of_first_interface(&Some(vec![])), None);
    assert_eq!(
        public_ip_of_first_interface(&Some(vec![NetworkInterface { association: None }])),
        None
    );
    assert_eq!(
        public_ip_of_first_interface(&Some(vec![NetworkInterface {
            association: Some(InterfaceAssociation { public_ip: None })
        }])),
        None
    );
    assert_eq!(
        public_ip_of_first_interface(&Some(vec![
            NetworkInterface {
                association: Some(InterfaceAssociation { public_ip: Some("3.3.3.3".to_string()) })
            },
            NetworkInterface {
                association: Some(InterfaceAssociation { public_ip: Some("4.4.4.4".to_string()) })
            },
        ])),
        Some("3.3.3.3".to_string())
    );
}

#[test]
fn security_group_rules() {
    assert_eq!(SECURITY_GROUP_NAME, "globevpn");
    assert_eq!(SECURITY_GROUP_DESCRIPTION, "Security group for GlobeVPN.");
    let rules = ingress_rules();
    assert_eq!(rules.len(), 2);
    assert_eq!(
        (rules[0].protocol.as_str(), rules[0].cidr_ip.as_str(), rules[0].from_port, rules[0].to_port),
        ("tcp", "0.0.0.0/0", 22, 22)
    );
    assert_eq!(
        (rules[1].protocol.as_str(), rules[1].cidr_ip.as_str(), rules[1].from_port, rules[1].to_port),
        ("udp", "0.0.0.0/0", 1194, 1194)
    );
}
