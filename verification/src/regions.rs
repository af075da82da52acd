use vstd::prelude::*;

use crate::text::{opt_text, same_text};

verus! {

/// What the program knows of one AWS region: its name, the image that
/// serves OpenVPN there (where one is known), and whether the region still
/// offers T2 instances.
pub struct RegionInfo<'a> {
    pub region: &'a str,
    pub ami: Option<&'a str>,
    pub has_t2: bool,
}

/// The mathematical value of a [`RegionInfo`].
pub struct RegionInfoView {
    pub region: Seq<char>,
    pub ami: Option<Seq<char>>,
    pub has_t2: bool,
}

impl<'a> View for RegionInfo<'a> {
    type V = RegionInfoView;

    open spec fn view(&self) -> RegionInfoView {
        RegionInfoView { region: self.region@, ami: opt_text(self.ami), has_t2: self.has_t2 }
    }
}

impl<'a> RegionInfo<'a> {
    pub fn new(region: &'a str, ami: Option<&'a str>, has_t2: bool) -> (info: Self)
        ensures
            info.region == region,
            info.ami == ami,
            info.has_t2 == has_t2,
    {
        RegionInfo { region, ami, has_t2 }
    }
}

pub open spec fn region_entry(region: Seq<char>, ami: Option<Seq<char>>, has_t2: bool) -> RegionInfoView {
    RegionInfoView { region, ami, has_t2 }
}

/// The regions the program can launch in, in the order it offers them.
pub open spec fn region_info_spec() -> Seq<RegionInfoView> {
    seq![
        region_entry("eu-central-1"@, Some("ami-0163e22b06e9d08d4"@), true),
        region_entry("eu-west-1"@, None, true),
        region_entry("eu-west-2"@, None, true),
        region_entry("eu-south-1"@, Some("ami-09412495bdfcff6e0"@), false),
        region_entry("eu-west-3"@, None, true),
        region_entry("eu-north-1"@, None, true),
        region_entry("us-east-1"@, None, true),
        region_entry("us-east-2"@, None, true),
        region_entry("us-west-1"@, None, true),
        region_entry("us-west-2"@, None, true),
        region_entry("ca-central-1"@, None, true),
        region_entry("sa-east-1"@, None, true),
        region_entry("ap-southeast-2"@, None, true),
        region_entry("ap-east-1"@, None, true),
        region_entry("ap-southeast-3"@, None, true),
        region_entry("ap-south-1"@, None, true),
        region_entry("ap-northeast-3"@, None, true),
        region_entry("ap-northeast-2"@, None, true),
        region_entry("ap-southeast-1"@, None, true),
        region_entry("ap-northeast-1"@, None, true),
        region_entry("af-south-1"@, None, true),
        region_entry("me-south-1"@, None, true),
        region_entry("me-central-1"@, None, true),
    ]
}

/// The table of regions.
pub fn region_info_table() -> (table: Vec<RegionInfo<'static>>)
    ensures
        table@.len() == region_info_spec().len(),
        forall|i: int| 0 <= i < table@.len() ==> #[trigger] table@[i]@ == region_info_spec()[i],
{
    let table = vec![
        RegionInfo::new("eu-central-1", Some("ami-0163e22b06e9d08d4"), true),
        RegionInfo::new("eu-west-1", None, true),
        RegionInfo::new("eu-west-2", None, true),
        RegionInfo::new("eu-south-1", Some("ami-09412495bdfcff6e0"), false),
        RegionInfo::new("eu-west-3", None, true),
        RegionInfo::new("eu-north-1", None, true),
        RegionInfo::new("us-east-1", None, true),
        RegionInfo::new("us-east-2", None, true),
        RegionInfo::new("us-west-1", None, true),
        RegionInfo::new("us-west-2", None, true),
        RegionInfo::new("ca-central-1", None, true),
        RegionInfo::new("sa-east-1", None, true),
        RegionInfo::new("ap-southeast-2", None, true),
        RegionInfo::new("ap-east-1", None, true),
        RegionInfo::new("ap-southeast-3", None, true),
        RegionInfo::new("ap-south-1", None, true),
        RegionInfo::new("ap-northeast-3", None, true),
        RegionInfo::new("ap-northeast-2", None, true),
        RegionInfo::new("ap-southeast-1", None, true),
        RegionInfo::new("ap-northeast-1", None, true),
        RegionInfo::new("af-south-1", None, true),
        RegionInfo::new("me-south-1", None, true),
        RegionInfo::new("me-central-1", None, true),
    ];
    table
}

/// The index of the first entry of `table` whose name is `region`.
pub open spec fn is_first_match(table: Seq<RegionInfoView>, region: Seq<char>, i: int) -> bool {
    &&& 0 <= i < table.len()
    &&& table[i].region == region
    &&& forall|j: int| 0 <= j < i ==> table[j].region != region
}

/// Whether the table names `region`.
pub open spec fn is_known_region(region: Seq<char>) -> bool {
    exists|i: int| 0 <= i < region_info_spec().len() && #[trigger] region_info_spec()[i].region == region
}

/// The entry the table holds for `region`: its first one of that name.
pub open spec fn region_info_of(region: Seq<char>) -> RegionInfoView {
    region_info_spec()[choose|i: int| is_first_match(region_info_spec(), region, i)]
}

/// Looks a region up in the table: its first entry of that name, or `None`
/// where the table does not name it.
pub fn find_region_info(region: &str) -> (info: Option<RegionInfo<'static>>)
    ensures
        match info {
            Some(found) => {
                &&& is_known_region(region@)
                &&& found.region@ == region@
                &&& found@ == region_info_of(region@)
            },
            None => !is_known_region(region@),
        },
{
    let table = region_info_table();
    let mut k: usize = 0;
    while k < table.len()
        invariant
            table@.len() == region_info_spec().len(),
            forall|i: int| 0 <= i < table@.len() ==> #[trigger] table@[i]@ == region_info_spec()[i],
            k <= table@.len(),
            forall|j: int| 0 <= j < k ==> #[trigger] region_info_spec()[j].region != region@,
        decreases table@.len() - k,
    {
        let entry = &table[k];
        assert(table@[k as int]@ == region_info_spec()[k as int]);
        if same_text(entry.region, region) {
            proof {
                assert(is_first_match(region_info_spec(), region@, k as int));
                let i = choose|i: int| is_first_match(region_info_spec(), region@, i);
                assert(i == k) by {
                    if i > k {
                        assert(region_info_spec()[k as int].region != region@);
                    }
                }
            }
            return Some(RegionInfo::new(entry.region, entry.ami, entry.has_t2));
        }
        k = k + 1;
    }
    proof {
        if is_known_region(region@) {
            let i = choose|i: int| 0 <= i < region_info_spec().len() && #[trigger] region_info_spec()[i].region == region@;
            assert(region_info_spec()[i].region != region@);
        }
    }
    None
}

/// Looks a region up in the table.  The region must be one of the table's
/// (the command line only accepts those).
pub fn get_region_info(region: &str) -> (info: RegionInfo<'static>)
    requires
        is_known_region(region@),
    ensures
        info.region@ == region@,
        info@ == region_info_of(region@),
{
    match find_region_info(region) {
        Some(info) => info,
        None => unreached(),
    }
}

proof fn lemma_first_match_below(table: Seq<RegionInfoView>, region: Seq<char>, k: int)
    requires
        0 <= k < table.len(),
        table[k].region == region,
    ensures
        exists|i: int| is_first_match(table, region, i),
    decreases k,
{
    if forall|j: int| 0 <= j < k ==> table[j].region != region {
        assert(is_first_match(table, region, k));
    } else {
        let j = choose|j: int| 0 <= j < k && table[j].region == region;
        lemma_first_match_below(table, region, j);
    }
}

/// A region the table names has a first entry of that name, and
/// [`region_info_of`] is an entry of the table with that name.
pub proof fn lemma_region_info_of(region: Seq<char>)
    requires
        is_known_region(region),
    ensures
        exists|i: int| is_first_match(region_info_spec(), region, i),
        region_info_of(region).region == region,
        exists|i: int| 0 <= i < region_info_spec().len() && region_info_spec()[i] == region_info_of(region),
{
    let k = choose|k: int| 0 <= k < region_info_spec().len() && #[trigger] region_info_spec()[k].region == region;
    lemma_first_match_below(region_info_spec(), region, k);
    let i = choose|i: int| is_first_match(region_info_spec(), region, i);
    assert(0 <= i < region_info_spec().len() && region_info_spec()[i] == region_info_of(region));
}

/// The regions of the table, in order: the names the command line accepts.
pub proof fn lemma_region_names()
    ensures
        region_info_spec().len() == 23,
        region_info_spec().map_values(|e: RegionInfoView| e.region) == seq![
            "eu-central-1"@, "eu-west-1"@, "eu-west-2"@, "eu-south-1"@, "eu-west-3"@,
            "eu-north-1"@, "us-east-1"@, "us-east-2"@, "us-west-1"@, "us-west-2"@,
            "ca-central-1"@, "sa-east-1"@, "ap-southeast-2"@, "ap-east-1"@, "ap-southeast-3"@,
            "ap-south-1"@, "ap-northeast-3"@, "ap-northeast-2"@, "ap-southeast-1"@,
            "ap-northeast-1"@, "af-south-1"@, "me-south-1"@, "me-central-1"@,
        ],
{
    assert(region_info_spec().map_values(|e: RegionInfoView| e.region) =~= seq![
        "eu-central-1"@, "eu-west-1"@, "eu-west-2"@, "eu-south-1"@, "eu-west-3"@,
        "eu-north-1"@, "us-east-1"@, "us-east-2"@, "us-west-1"@, "us-west-2"@,
        "ca-central-1"@, "sa-east-1"@, "ap-southeast-2"@, "ap-east-1"@, "ap-southeast-3"@,
        "ap-south-1"@, "ap-northeast-3"@, "ap-northeast-2"@, "ap-southeast-1"@,
        "ap-northeast-1"@, "af-south-1"@, "me-south-1"@, "me-central-1"@,
    ]);
}

/// Row by row, only two entries of the table have an image: eu-central-1
/// (`ami-0163e22b06e9d08d4`) and eu-south-1 (`ami-09412495bdfcff6e0`); and
/// only eu-south-1 lacks T2 instances.
pub proof fn lemma_table_images(i: int)
    requires
        0 <= i < region_info_spec().len(),
    ensures
        region_info_spec()[i].ami is Some ==> (i == 0 || i == 3),
        region_info_spec()[i].ami is Some ==> {
            ||| (region_info_spec()[i].region == "eu-central-1"@
                && region_info_spec()[i].ami == Some("ami-0163e22b06e9d08d4"@))
            ||| (region_info_spec()[i].region == "eu-south-1"@
                && region_info_spec()[i].ami == Some("ami-09412495bdfcff6e0"@))
        },
        !region_info_spec()[i].has_t2 ==> i == 3 && region_info_spec()[i].region == "eu-south-1"@,
{
}

/// Only eu-central-1 and eu-south-1 have an image: every other region the
/// table names has none (so no launch can be planned there), and only
/// eu-south-1 lacks T2 instances.
pub proof fn lemma_images_by_region(region: Seq<char>)
    requires
        is_known_region(region),
    ensures
        region_info_of(region).ami is Some ==> {
            ||| (region == "eu-central-1"@ && region_info_of(region).ami == Some("ami-0163e22b06e9d08d4"@))
            ||| (region == "eu-south-1"@ && region_info_of(region).ami == Some("ami-09412495bdfcff6e0"@))
        },
        (region != "eu-central-1"@ && region != "eu-south-1"@) ==> region_info_of(region).ami is None,
        region != "eu-south-1"@ ==> region_info_of(region).has_t2,
{
    lemma_region_info_of(region);
    let i = choose|i: int| 0 <= i < region_info_spec().len() && region_info_spec()[i] == region_info_of(region);
    lemma_table_images(i);
}

/// eu-central-1 has the image `ami-0163e22b06e9d08d4` and T2 instances;
/// eu-south-1 has the image `ami-09412495bdfcff6e0` and no T2 instances.
pub proof fn lemma_image_regions()
    ensures
        is_known_region("eu-central-1"@),
        region_info_of("eu-central-1"@).ami == Some("ami-0163e22b06e9d08d4"@),
        region_info_of("eu-central-1"@).has_t2,
        is_known_region("eu-south-1"@),
        region_info_of("eu-south-1"@).ami == Some("ami-09412495bdfcff6e0"@),
        !region_info_of("eu-south-1"@).has_t2,
{
    let t = region_info_spec();
    assert(t[0].region == "eu-central-1"@);
    assert(is_first_match(t, "eu-central-1"@, 0));
    let i = choose|i: int| is_first_match(t, "eu-central-1"@, i);
    assert(i == 0) by {
        if i > 0 {
            assert(t[0].region != "eu-central-1"@);
        }
    }
    reveal_strlit("eu-south-1");
    reveal_strlit("eu-central-1");
    reveal_strlit("eu-west-1");
    reveal_strlit("eu-west-2");
    assert(t[3].region == "eu-south-1"@);
    assert(t[0].region.len() != "eu-south-1"@.len());
    assert(t[1].region.len() != "eu-south-1"@.len());
    assert(t[2].region.len() != "eu-south-1"@.len());
    assert(is_first_match(t, "eu-south-1"@, 3));
    let j = choose|j: int| is_first_match(t, "eu-south-1"@, j);
    assert(j == 3) by {
        if j < 3 {
            assert(t[j].region.len() != "eu-south-1"@.len());
        } else if j > 3 {
            assert(t[3].region != "eu-south-1"@);
        }
    }
}

/// Every region of the table, and so every region the command line offers,
/// is one that [`get_region_info`] accepts.
pub proof fn lemma_table_regions_are_known(i: int)
    requires
        0 <= i < region_info_spec().len(),
    ensures
        is_known_region(region_info_spec()[i].region),
{
}

} // verus!
