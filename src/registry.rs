//! The relations that the library offers, by name, with the arguments that
//! each one takes.

use vstd::prelude::*;

use crate::table::ColumnType;

verus! {

/// One relation that the library offers.
#[derive(Clone, Copy, Debug, PartialEq, Eq, Structural)]
pub enum Relation {
    Cpu,
    Memory,
    Os,
    System,
    Disks,
    Network,
    Processes,
    Load,
    Users,
    Components,
    Version,
    Environment,
    Uptime,
    Ports,
    Gpu,
    Swap,
    CpuCores,
    Fds,
    Docker,
    Services,
}

/// The name under which relation `r` is called.
pub open spec fn relation_name(r: Relation) -> Seq<char> {
    match r {
        Relation::Cpu => "sazgar_cpu"@,
        Relation::Memory => "sazgar_memory"@,
        Relation::Os => "sazgar_os"@,
        Relation::System => "sazgar_system"@,
        Relation::Disks => "sazgar_disks"@,
        Relation::Network => "sazgar_network"@,
        Relation::Processes => "sazgar_processes"@,
        Relation::Load => "sazgar_load"@,
        Relation::Users => "sazgar_users"@,
        Relation::Components => "sazgar_components"@,
        Relation::Version => "sazgar_version"@,
        Relation::Environment => "sazgar_environment"@,
        Relation::Uptime => "sazgar_uptime"@,
        Relation::Ports => "sazgar_ports"@,
        Relation::Gpu => "sazgar_gpu"@,
        Relation::Swap => "sazgar_swap"@,
        Relation::CpuCores => "sazgar_cpu_cores"@,
        Relation::Fds => "sazgar_fds"@,
        Relation::Docker => "sazgar_docker"@,
        Relation::Services => "sazgar_services"@,
    }
}

/// The type of the one positional argument that relation `r` takes, if any.
pub open spec fn positional_type(r: Relation) -> Option<ColumnType> {
    match r {
        Relation::Environment | Relation::Ports | Relation::Swap => Some(ColumnType::Varchar),
        Relation::Fds => Some(ColumnType::Integer),
        _ => None,
    }
}

/// Relation `r` takes a named `unit` argument.
pub open spec fn takes_unit(r: Relation) -> bool {
    r == Relation::Memory || r == Relation::Disks
}

/// Every relation, in the order of registration.
pub open spec fn all_relations() -> Seq<Relation> {
    seq![
        Relation::Cpu,
        Relation::Memory,
        Relation::Os,
        Relation::System,
        Relation::Disks,
        Relation::Network,
        Relation::Processes,
        Relation::Load,
        Relation::Users,
        Relation::Components,
        Relation::Version,
        Relation::Environment,
        Relation::Uptime,
        Relation::Ports,
        Relation::Gpu,
        Relation::Swap,
        Relation::CpuCores,
        Relation::Fds,
        Relation::Docker,
        Relation::Services,
    ]
}

impl Relation {
    /// Every relation, in the order of registration.
    pub fn all() -> (r: Vec<Relation>)
        ensures
            r@ == all_relations(),
    {
        let r = vec![
            Relation::Cpu,
            Relation::Memory,
            Relation::Os,
            Relation::System,
            Relation::Disks,
            Relation::Network,
            Relation::Processes,
            Relation::Load,
            Relation::Users,
            Relation::Components,
            Relation::Version,
            Relation::Environment,
            Relation::Uptime,
            Relation::Ports,
            Relation::Gpu,
            Relation::Swap,
            Relation::CpuCores,
            Relation::Fds,
            Relation::Docker,
            Relation::Services,
        ];
        assert(r@ =~= all_relations());
        r
    }

    /// The name under which this relation is called.
    pub fn name(&self) -> (r: &'static str)
        ensures
            r@ == relation_name(*self),
    {
        match self {
            Relation::Cpu => "sazgar_cpu",
            Relation::Memory => "sazgar_memory",
            Relation::Os => "sazgar_os",
            Relation::System => "sazgar_system",
            Relation::Disks => "sazgar_disks",
            Relation::Network => "sazgar_network",
            Relation::Processes => "sazgar_processes",
            Relation::Load => "sazgar_load",
            Relation::Users => "sazgar_users",
            Relation::Components => "sazgar_components",
            Relation::Version => "sazgar_version",
            Relation::Environment => "sazgar_environment",
            Relation::Uptime => "sazgar_uptime",
            Relation::Ports => "sazgar_ports",
            Relation::Gpu => "sazgar_gpu",
            Relation::Swap => "sazgar_swap",
            Relation::CpuCores => "sazgar_cpu_cores",
            Relation::Fds => "sazgar_fds",
            Relation::Docker => "sazgar_docker",
            Relation::Services => "sazgar_services",
        }
    }

    /// The type of the one positional argument that this relation takes, if
    /// any.
    pub fn positional_parameter(&self) -> (r: Option<ColumnType>)
        ensures
            r == positional_type(*self),
    {
        match self {
            Relation::Environment | Relation::Ports | Relation::Swap => Some(ColumnType::Varchar),
            Relation::Fds => Some(ColumnType::Integer),
            _ => None,
        }
    }

    /// Whether this relation takes a named `unit` argument.
    pub fn takes_unit(&self) -> (r: bool)
        ensures
            r == takes_unit(*self),
    {
        match self {
            Relation::Memory | Relation::Disks => true,
            _ => false,
        }
    }
}

} // verus!
