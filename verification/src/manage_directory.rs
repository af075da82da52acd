use vstd::prelude::*;

use crate::random_id::{is_uuid_v4_text, random_uuid_text};
use crate::text::{join3, CommandLine};

verus! {

/// The program's operating directory, under the user's home directory.
pub const MAIN_DIRECTORY: &'static str = ".globevpn";

/// The name of the directory of one session in `region`, told apart by the
/// identifier `id`.
pub fn session_directory_name(region: &str, id: &str) -> (name: String)
    ensures
        name@ == region@ + "-"@ + id@,
{
    join3(region, "-", id)
}

/// A fresh session directory name: the region, a hyphen, a random UUID.
pub fn new_session_directory_name(region: &str) -> (name: String)
    ensures
        exists|id: Seq<char>| is_uuid_v4_text(id) && name@ == region@ + "-"@ + id,
{
    let id = random_uuid_text();
    session_directory_name(region, id.as_str())
}

/// The `openvpn` command that generates a new secret key in `auth.key`.
pub fn generate_key_command() -> (cmd: CommandLine)
    ensures
        cmd.program@ == "openvpn"@,
        cmd.arg_texts() == seq!["--genkey"@, "--secret"@, "auth.key"@, "--cipher"@, "AES-256-CBC"@],
{
    let mut args: Vec<String> = Vec::new();
    args.push("--genkey".to_owned());
    args.push("--secret".to_owned());
    args.push("auth.key".to_owned());
    args.push("--cipher".to_owned());
    args.push("AES-256-CBC".to_owned());
    let cmd = CommandLine { program: "openvpn".to_owned(), args };
    assert(cmd.arg_texts() =~= seq!["--genkey"@, "--secret"@, "auth.key"@, "--cipher"@, "AES-256-CBC"@]);
    cmd
}

} // verus!
