use vstd::prelude::*;

use crate::text::{join2, join3, texts, CommandLine};

verus! {

/// The path of the SSH key of `key_name`, seen from a session directory.
pub open spec fn ssh_key_path_spec(key_name: Seq<char>) -> Seq<char> {
    "../"@ + key_name + ".pem"@
}

/// The path of the SSH key of `key_name`, seen from a session directory.
pub fn ssh_key_path(key_name: &str) -> (path: String)
    ensures
        path@ == ssh_key_path_spec(key_name@),
        path@ == "../"@ + key_name@ + ".pem"@,
{
    join3("../", key_name, ".pem")
}

/// The `scp` command that copies the OpenVPN key to the instance at `ip`.
pub fn copy_key_command(ip: &str, key_name: &str) -> (cmd: CommandLine)
    ensures
        cmd.program@ == "scp"@,
        cmd.arg_texts()[1] == "../"@ + key_name@ + ".pem"@,
        cmd.arg_texts() == seq![
            "-i"@,
            ssh_key_path_spec(key_name@),
            "-o"@,
            "StrictHostKeyChecking no"@,
            "auth.key"@,
            "ubuntu@"@ + ip@ + ":/home/ubuntu"@,
        ],
{
    let mut args: Vec<String> = Vec::new();
    args.push("-i".to_owned());
    args.push(ssh_key_path(key_name));
    args.push("-o".to_owned());
    args.push("StrictHostKeyChecking no".to_owned());
    args.push("auth.key".to_owned());
    args.push(join3("ubuntu@", ip, ":/home/ubuntu"));
    let cmd = CommandLine { program: "scp".to_owned(), args };
    assert(cmd.arg_texts() =~= seq![
        "-i"@,
        ssh_key_path_spec(key_name@),
        "-o"@,
        "StrictHostKeyChecking no"@,
        "auth.key"@,
        "ubuntu@"@ + ip@ + ":/home/ubuntu"@,
    ]);
    cmd
}

/// The `ssh` command that moves the copied key into the OpenVPN server's
/// directory on the instance at `ip`.
pub fn install_key_command(ip: &str, key_name: &str) -> (cmd: CommandLine)
    ensures
        cmd.program@ == "ssh"@,
        cmd.arg_texts()[1] == "../"@ + key_name@ + ".pem"@,
        cmd.arg_texts() == seq![
            "-i"@,
            ssh_key_path_spec(key_name@),
            "-o"@,
            "StrictHostKeyChecking no"@,
            "ubuntu@"@ + ip@,
            "-t"@,
            "sudo mv auth.key /etc/openvpn/server"@,
        ],
{
    let mut args: Vec<String> = Vec::new();
    args.push("-i".to_owned());
    args.push(ssh_key_path(key_name));
    args.push("-o".to_owned());
    args.push("StrictHostKeyChecking no".to_owned());
    args.push(join2("ubuntu@", ip));
    args.push("-t".to_owned());
    args.push("sudo mv auth.key /etc/openvpn/server".to_owned());
    let cmd = CommandLine { program: "ssh".to_owned(), args };
    assert(cmd.arg_texts() =~= seq![
        "-i"@,
        ssh_key_path_spec(key_name@),
        "-o"@,
        "StrictHostKeyChecking no"@,
        "ubuntu@"@ + ip@,
        "-t"@,
        "sudo mv auth.key /etc/openvpn/server"@,
    ]);
    cmd
}

/// The command that runs the OpenVPN client against the server at `ip`,
/// with every setting on the command line and no configuration file.
pub fn openvpn_client_command(ip: &str) -> (cmd: CommandLine)
    ensures
        cmd.program@ == "sudo"@,
        cmd.arg_texts() == seq![
            "openvpn"@,
            "--remote"@,
            ip@,
            "--nobind"@,
            "--dev"@,
            "tun"@,
            "--secret"@,
            "auth.key"@,
            "--cipher"@,
            "AES-256-CBC"@,
            "--ifconfig"@,
            "10.8.0.1"@,
            "10.8.0.2"@,
            "--redirect-gateway"@,
            "def1"@,
            "--auth-nocache"@,
        ],
{
    let mut args: Vec<String> = Vec::new();
    args.push("openvpn".to_owned());
    args.push("--remote".to_owned());
    args.push(ip.to_owned());
    args.push("--nobind".to_owned());
    args.push("--dev".to_owned());
    args.push("tun".to_owned());
    args.push("--secret".to_owned());
    args.push("auth.key".to_owned());
    args.push("--cipher".to_owned());
    args.push("AES-256-CBC".to_owned());
    args.push("--ifconfig".to_owned());
    args.push("10.8.0.1".to_owned());
    args.push("10.8.0.2".to_owned());
    args.push("--redirect-gateway".to_owned());
    args.push("def1".to_owned());
    args.push("--auth-nocache".to_owned());
    let cmd = CommandLine { program: "sudo".to_owned(), args };
    assert(cmd.arg_texts() =~= seq![
        "openvpn"@,
        "--remote"@,
        ip@,
        "--nobind"@,
        "--dev"@,
        "tun"@,
        "--secret"@,
        "auth.key"@,
        "--cipher"@,
        "AES-256-CBC"@,
        "--ifconfig"@,
        "10.8.0.1"@,
        "10.8.0.2"@,
        "--redirect-gateway"@,
        "def1"@,
        "--auth-nocache"@,
    ]);
    cmd
}

/// The key path names the whole key name: it is `../`, then every
/// character of the key name in order, then `.pem`, whatever the key
/// name's length; two key names give the same path only when they are
/// equal.
pub proof fn lemma_ssh_key_path(key_name: Seq<char>, other: Seq<char>)
    ensures
        ssh_key_path_spec(key_name).len() == key_name.len() + 7,
        ssh_key_path_spec(key_name).subrange(0, 3) == "../"@,
        ssh_key_path_spec(key_name).subrange(3, 3 + key_name.len() as int) == key_name,
        ssh_key_path_spec(key_name).subrange(3 + key_name.len() as int, 7 + key_name.len() as int) == ".pem"@,
        ssh_key_path_spec(key_name) == ssh_key_path_spec(other) ==> key_name == other,
{
    reveal_strlit("../");
    reveal_strlit(".pem");
    let p = ssh_key_path_spec(key_name);
    let q = ssh_key_path_spec(other);
    assert(p.subrange(0, 3) =~= "../"@);
    assert(p.subrange(3, 3 + key_name.len() as int) =~= key_name);
    assert(p.subrange(3 + key_name.len() as int, 7 + key_name.len() as int) =~= ".pem"@);
    if p == q {
        assert(q.len() == other.len() + 7);
        assert(key_name.len() == other.len());
        assert(q.subrange(3, 3 + other.len() as int) =~= other);
        assert(key_name =~= other);
    }
}

} // verus!
