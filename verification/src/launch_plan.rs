use vstd::prelude::*;

use crate::arguments::Args;
use crate::instance_type::{get_instance_type, Ec2InstanceType};
use crate::regions::{
    find_region_info, is_known_region, lemma_image_regions, lemma_images_by_region, region_info_of,
};

verus! {

/// What the program launches for a command line.
pub struct LaunchPlan {
    /// The region to launch in.
    pub region: String,
    /// The image to launch.
    pub ami: String,
    /// The instance type to launch.
    pub instance_type: Ec2InstanceType,
    /// The SSH key pair the instance is reachable with; one per region.
    pub key_name: String,
}

/// Why a command line cannot be served.
#[derive(Debug, Copy, Clone, PartialEq, Eq, Structural)]
pub enum PlanError {
    /// The region is not in the region table.
    UnknownRegion,
    /// The region table holds no image for the region.
    NoAmiForRegion,
}

/// Decides what to launch for `args`: the region's image and the instance
/// type [`get_instance_type`] picks, with a key pair named after the
/// region.
pub fn plan_launch(args: &Args) -> (plan: Result<LaunchPlan, PlanError>)
    ensures
        match plan {
            Err(PlanError::UnknownRegion) => !is_known_region(args.region@),
            Err(PlanError::NoAmiForRegion) => {
                &&& is_known_region(args.region@)
                &&& region_info_of(args.region@).ami is None
            },
            Ok(p) => {
                &&& is_known_region(args.region@)
                &&& region_info_of(args.region@).ami == Some(p.ami@)
                &&& p.region@ == args.region@
                &&& p.key_name@ == args.region@
                &&& p.instance_type.is_t3() == (args.t3 || !region_info_of(args.region@).has_t2)
                &&& p.instance_type.size() == args.size
            },
        },
        (args.region@ != "eu-central-1"@ && args.region@ != "eu-south-1"@) ==> plan is Err,
        (is_known_region(args.region@) && args.region@ != "eu-central-1"@ && args.region@ != "eu-south-1"@)
            ==> plan == Err::<LaunchPlan, PlanError>(PlanError::NoAmiForRegion),
        args.region@ == "eu-central-1"@ ==> (plan matches Ok(p) && p.ami@ == "ami-0163e22b06e9d08d4"@
            && p.instance_type.is_t3() == args.t3),
        args.region@ == "eu-south-1"@ ==> (plan matches Ok(p) && p.ami@ == "ami-09412495bdfcff6e0"@
            && p.instance_type.is_t3()),
{
    proof {
        lemma_image_regions();
        if is_known_region(args.region@) {
            lemma_images_by_region(args.region@);
        }
    }
    let info = match find_region_info(args.region.as_str()) {
        Some(info) => info,
        None => return Err(PlanError::UnknownRegion),
    };
    let ami = match info.ami {
        Some(ami) => ami,
        None => return Err(PlanError::NoAmiForRegion),
    };
    let instance_type = get_instance_type(args, &info);
    Ok(LaunchPlan {
        region: args.region.clone(),
        ami: ami.to_owned(),
        instance_type,
        key_name: args.region.clone(),
    })
}

} // verus!
