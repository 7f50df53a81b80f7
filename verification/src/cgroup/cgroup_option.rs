//! The resource-limit configuration aggregate for one sandbox's cgroup
//! leaf.

use vstd::prelude::*;
use crate::cgroup::cpu_limit::CpuLimit;
use crate::cgroup::limit_value::CGroupLimitValue;

verus! {

/// Desired limits for a cgroup leaf; an unset field issues no write.
#[derive(Debug, Clone, Default)]
pub struct CGroupOption {
    pub cpu_max: Option<CpuLimit>,
    pub cpus: Option<Vec<u32>>,
    pub memory_max: Option<CGroupLimitValue<u32>>,
    pub pids_max: Option<CGroupLimitValue<u32>>,
}

} // verus!
