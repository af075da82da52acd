use vstd::prelude::*;

use crate::arguments::{Args, InstanceSize};
use crate::regions::RegionInfo;

verus! {

/// The EC2 instance types the program launches.
#[derive(Debug, Copy, Clone, PartialEq, Eq, Structural)]
pub enum Ec2InstanceType {
    T2Nano,
    T2Micro,
    T3Nano,
    T3Micro,
}

impl Ec2InstanceType {
    /// Whether the type is of the T3 generation.
    pub open spec fn is_t3(self) -> bool {
        self is T3Nano || self is T3Micro
    }

    /// The size of the type.
    pub open spec fn size(self) -> InstanceSize {
        match self {
            Ec2InstanceType::T2Nano | Ec2InstanceType::T3Nano => InstanceSize::Nano,
            Ec2InstanceType::T2Micro | Ec2InstanceType::T3Micro => InstanceSize::Micro,
        }
    }
}

/// Picks the instance type to launch: T3 when the user asks for it or the
/// region has no T2 instances, T2 otherwise, in the size the user asked
/// for.
pub fn get_instance_type(args: &Args, region_info: &RegionInfo) -> (instance_type: Ec2InstanceType)
    ensures
        instance_type.is_t3() == (args.t3 || !region_info.has_t2),
        instance_type.size() == args.size,
        (args.t3 || !region_info.has_t2) && args.size == InstanceSize::Nano ==> instance_type == Ec2InstanceType::T3Nano,
        (args.t3 || !region_info.has_t2) && args.size == InstanceSize::Micro ==> instance_type == Ec2InstanceType::T3Micro,
        !(args.t3 || !region_info.has_t2) && args.size == InstanceSize::Nano ==> instance_type == Ec2InstanceType::T2Nano,
        !(args.t3 || !region_info.has_t2) && args.size == InstanceSize::Micro ==> instance_type == Ec2InstanceType::T2Micro,
{
    if args.t3 || !region_info.has_t2 {
        match args.size {
            InstanceSize::Nano => Ec2InstanceType::T3Nano,
            InstanceSize::Micro => Ec2InstanceType::T3Micro,
        }
    } else {
        match args.size {
            InstanceSize::Nano => Ec2InstanceType::T2Nano,
            InstanceSize::Micro => Ec2InstanceType::T2Micro,
        }
    }
}

/// The generation and size of each instance type: T2 Nano, T2 Micro, T3
/// Nano, T3 Micro.
pub proof fn lemma_instance_type_names()
    ensures
        !Ec2InstanceType::T2Nano.is_t3() && Ec2InstanceType::T2Nano.size() == InstanceSize::Nano,
        !Ec2InstanceType::T2Micro.is_t3() && Ec2InstanceType::T2Micro.size() == InstanceSize::Micro,
        Ec2InstanceType::T3Nano.is_t3() && Ec2InstanceType::T3Nano.size() == InstanceSize::Nano,
        Ec2InstanceType::T3Micro.is_t3() && Ec2InstanceType::T3Micro.size() == InstanceSize::Micro,
{
}

/// An instance type is fixed by its generation and its size.
pub proof fn lemma_instance_type_determined(a: Ec2InstanceType, b: Ec2InstanceType)
    requires
        a.is_t3() == b.is_t3(),
        a.size() == b.size(),
    ensures
        a == b,
{
}

} // verus!
