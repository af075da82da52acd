use vstd::prelude::*;

use crate::random_id::{is_uuid_v4_text, random_uuid_text};
use crate::text::join2;

verus! {

/// The name of the key pair made for the identifier `id`.
pub fn key_pair_name(id: &str) -> (name: String)
    ensures
        name@ == "globevpn-"@ + id@,
{
    join2("globevpn-", id)
}

/// A fresh key pair name: `globevpn-` followed by a random UUID.
pub fn new_key_pair_name() -> (name: String)
    ensures
        exists|id: Seq<char>| is_uuid_v4_text(id) && name@ == "globevpn-"@ + id,
{
    let id = random_uuid_text();
    key_pair_name(id.as_str())
}

/// The file the private key of `key_name` is saved in.
pub fn key_file_name(key_name: &str) -> (file: String)
    ensures
        file@ == key_name@ + ".pem"@,
{
    join2(key_name, ".pem")
}

} // verus!
