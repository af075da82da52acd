use vstd::prelude::*;

use crate::regions::{is_known_region, region_info_spec, region_info_table};

verus! {

/// The region used when the command line names none.
pub const DEFAULT_REGION: &'static str = "eu-central-1";

/// The size of instance to spin up.  Nano is cheaper; AWS offers 750 free
/// hours per month of the lowest available generation of Micro for the
/// first year.
#[derive(Debug, Copy, Clone, PartialEq, Eq, Structural)]
pub enum InstanceSize {
    Nano,
    Micro,
}

/// The command line of the program.
pub struct Args {
    /// Where the user will appear from when establishing connections.
    pub region: String,
    /// Which instance size to spin up.
    pub size: InstanceSize,
    /// Choose T3 over T2 even when both are available.
    pub t3: bool,
}

impl Default for Args {
    /// The command line when no option is given.
    fn default() -> (args: Args)
        ensures
            args.region@ == DEFAULT_REGION@,
            args.size == InstanceSize::Micro,
            !args.t3,
    {
        Args { region: DEFAULT_REGION.to_owned(), size: InstanceSize::Micro, t3: false }
    }
}

/// The names of the regions the command line accepts, in the order of the
/// region table.
pub fn regions() -> (names: Vec<&'static str>)
    ensures
        names@.len() == region_info_spec().len(),
        forall|i: int| 0 <= i < names@.len() ==> (#[trigger] names@[i])@ == region_info_spec()[i].region,
{
    let table = region_info_table();
    let mut names: Vec<&'static str> = Vec::new();
    let mut i: usize = 0;
    while i < table.len()
        invariant
            table@.len() == region_info_spec().len(),
            forall|k: int| 0 <= k < table@.len() ==> #[trigger] table@[k]@ == region_info_spec()[k],
            i <= table@.len(),
            names@.len() == i,
            forall|k: int| 0 <= k < i ==> (#[trigger] names@[k])@ == region_info_spec()[k].region,
        decreases table@.len() - i,
    {
        assert(table@[i as int]@ == region_info_spec()[i as int]);
        names.push(table[i].region);
        i = i + 1;
    }
    names
}

/// The default region is one of the table's, so the command line without
/// options is accepted and [`crate::regions::get_region_info`] finds it.
pub proof fn lemma_default_region_is_known()
    ensures
        is_known_region(DEFAULT_REGION@),
{
    assert(region_info_spec()[0].region == DEFAULT_REGION@);
}

} // verus!
