use vstd::prelude::*;

use crate::regions::region_info_spec;
use crate::text::{opt_text, same_text};

verus! {

/// One row of the image table: a region and the image to launch there,
/// where one is known.
pub struct RegionAmiView {
    pub region: Seq<char>,
    pub ami: Option<Seq<char>>,
}

pub open spec fn ami_entry(region: Seq<char>, ami: Option<Seq<char>>) -> RegionAmiView {
    RegionAmiView { region, ami }
}

/// The image table.
pub open spec fn region_amis_spec() -> Seq<RegionAmiView> {
    seq![
        ami_entry("eu-central-1"@, Some("ami-06e97680b8bf6528e"@)),
        ami_entry("eu-west-1"@, None),
        ami_entry("eu-west-2"@, Some("ami-061e7843348aee109"@)),
        ami_entry("eu-south-1"@, None),
        ami_entry("eu-west-3"@, None),
        ami_entry("eu-north-1"@, None),
        ami_entry("us-east-1"@, Some("ami-09b8d4b4d39180649"@)),
        ami_entry("us-east-2"@, None),
        ami_entry("us-west-1"@, None),
        ami_entry("us-west-2"@, None),
        ami_entry("ca-central-1"@, None),
        ami_entry("sa-east-1"@, Some("ami-0d5990429ef5c2da8"@)),
        ami_entry("ap-southeast-2"@, Some("ami-081d9e6c6f75745e3"@)),
        ami_entry("ap-east-1"@, None),
        ami_entry("ap-southeast-3"@, None),
        ami_entry("ap-south-1"@, None),
        ami_entry("ap-northeast-3"@, None),
        ami_entry("ap-northeast-2"@, None),
        ami_entry("ap-southeast-1"@, None),
        ami_entry("ap-northeast-1"@, None),
        ami_entry("af-south-1"@, None),
        ami_entry("me-south-1"@, None),
        ami_entry("me-central-1"@, None),
    ]
}

pub open spec fn ami_row_view(row: (&str, Option<&str>)) -> RegionAmiView {
    RegionAmiView { region: row.0@, ami: opt_text(row.1) }
}

/// The image table, row by row.
pub fn region_amis() -> (table: Vec<(&'static str, Option<&'static str>)>)
    ensures
        table@.len() == region_amis_spec().len(),
        forall|i: int| 0 <= i < table@.len() ==> ami_row_view(#[trigger] table@[i]) == region_amis_spec()[i],
{
    vec![
        ("eu-central-1", Some("ami-06e97680b8bf6528e")),
        ("eu-west-1", None),
        ("eu-west-2", Some("ami-061e7843348aee109")),
        ("eu-south-1", None),
        ("eu-west-3", None),
        ("eu-north-1", None),
        ("us-east-1", Some("ami-09b8d4b4d39180649")),
        ("us-east-2", None),
        ("us-west-1", None),
        ("us-west-2", None),
        ("ca-central-1", None),
        ("sa-east-1", Some("ami-0d5990429ef5c2da8")),
        ("ap-southeast-2", Some("ami-081d9e6c6f75745e3")),
        ("ap-east-1", None),
        ("ap-southeast-3", None),
        ("ap-south-1", None),
        ("ap-northeast-3", None),
        ("ap-northeast-2", None),
        ("ap-southeast-1", None),
        ("ap-northeast-1", None),
        ("af-south-1", None),
        ("me-south-1", None),
        ("me-central-1", None),
    ]
}

/// The image the table gives for `region`: that of its first row named
/// `region`, or none where no row names it.
pub open spec fn ami_of(region: Seq<char>) -> Option<Seq<char>> {
    if exists|i: int| 0 <= i < region_amis_spec().len() && #[trigger] region_amis_spec()[i].region == region {
        let i = choose|i: int|
            0 <= i < region_amis_spec().len() && region_amis_spec()[i].region == region
                && forall|j: int| 0 <= j < i ==> #[trigger] region_amis_spec()[j].region != region;
        region_amis_spec()[i].ami
    } else {
        None
    }
}

/// The image to launch in `region`: `None` where the region is unknown or
/// has no image yet.
pub fn get_ami(region: &str) -> (ami: Option<&'static str>)
    ensures
        opt_text(ami) == ami_of(region@),
{
    let table = region_amis();
    let mut k: usize = 0;
    while k < table.len()
        invariant
            table@.len() == region_amis_spec().len(),
            forall|i: int| 0 <= i < table@.len() ==> ami_row_view(#[trigger] table@[i]) == region_amis_spec()[i],
            k <= table@.len(),
            forall|j: int| 0 <= j < k ==> #[trigger] region_amis_spec()[j].region != region@,
        decreases table@.len() - k,
    {
        let row = table[k];
        assert(ami_row_view(table@[k as int]) == region_amis_spec()[k as int]);
        if same_text(row.0, region) {
            proof {
                let i = choose|i: int|
                    0 <= i < region_amis_spec().len() && region_amis_spec()[i].region == region@
                        && forall|j: int| 0 <= j < i ==> #[trigger] region_amis_spec()[j].region != region@;
                assert(i == k) by {
                    if i < k {
                    } else if i > k {
                        assert(region_amis_spec()[k as int].region != region@);
                    }
                }
            }
            return row.1;
        }
        k = k + 1;
    }
    None
}

/// The image table lists the regions of the region table, row by row in the
/// same order, and holds an image for exactly five of them: eu-central-1,
/// eu-west-2, us-east-1, sa-east-1 and ap-southeast-2.
pub proof fn lemma_ami_table(i: int)
    requires
        0 <= i < region_amis_spec().len(),
    ensures
        region_amis_spec().len() == region_info_spec().len(),
        region_amis_spec()[i].region == region_info_spec()[i].region,
        region_amis_spec()[i].ami is Some <==> (i == 0 || i == 2 || i == 6 || i == 11 || i == 12),
        region_amis_spec()[i].ami is Some ==> {
            ||| (region_amis_spec()[i].region == "eu-central-1"@
                && region_amis_spec()[i].ami == Some("ami-06e97680b8bf6528e"@))
            ||| (region_amis_spec()[i].region == "eu-west-2"@
                && region_amis_spec()[i].ami == Some("ami-061e7843348aee109"@))
            ||| (region_amis_spec()[i].region == "us-east-1"@
                && region_amis_spec()[i].ami == Some("ami-09b8d4b4d39180649"@))
            ||| (region_amis_spec()[i].region == "sa-east-1"@
                && region_amis_spec()[i].ami == Some("ami-0d5990429ef5c2da8"@))
            ||| (region_amis_spec()[i].region == "ap-southeast-2"@
                && region_amis_spec()[i].ami == Some("ami-081d9e6c6f75745e3"@))
        },
{
}

/// [`get_ami`] gives an image only for a region the table names, and only
/// one of the five images of the table, each for its own region.
pub proof fn lemma_ami_by_region(region: Seq<char>)
    ensures
        ami_of(region) is Some ==> {
            ||| (region == "eu-central-1"@ && ami_of(region) == Some("ami-06e97680b8bf6528e"@))
            ||| (region == "eu-west-2"@ && ami_of(region) == Some("ami-061e7843348aee109"@))
            ||| (region == "us-east-1"@ && ami_of(region) == Some("ami-09b8d4b4d39180649"@))
            ||| (region == "sa-east-1"@ && ami_of(region) == Some("ami-0d5990429ef5c2da8"@))
            ||| (region == "ap-southeast-2"@ && ami_of(region) == Some("ami-081d9e6c6f75745e3"@))
        },
        ami_of(region) is Some ==> exists|i: int|
            0 <= i < region_info_spec().len() && #[trigger] region_info_spec()[i].region == region,
{
    if ami_of(region) is Some {
        let i = choose|i: int|
            0 <= i < region_amis_spec().len() && region_amis_spec()[i].region == region
                && forall|j: int| 0 <= j < i ==> #[trigger] region_amis_spec()[j].region != region;
        assert(exists|i: int| 0 <= i < region_amis_spec().len() && #[trigger] region_amis_spec()[i].region == region);
        lemma_ami_table(i);
        assert(region_info_spec()[i].region == region);
    }
}

/// eu-central-1 gets the image `ami-06e97680b8bf6528e`.
pub proof fn lemma_ami_of_default_region()
    ensures
        ami_of("eu-central-1"@) == Some("ami-06e97680b8bf6528e"@),
{
    let t = region_amis_spec();
    assert(t[0].region == "eu-central-1"@);
    let i = choose|i: int|
        0 <= i < t.len() && t[i].region == "eu-central-1"@
            && forall|j: int| 0 <= j < i ==> #[trigger] t[j].region != "eu-central-1"@;
    assert(i == 0) by {
        if i > 0 {
            assert(t[0].region != "eu-central-1"@);
        }
    }
}

} // verus!
