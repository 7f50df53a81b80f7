//! The cgroup v2 layer: the controller enumeration, the "max-or-number"
//! limit values, the CPU bandwidth pair, the descendant counters, the
//! resource-limit configuration aggregate, and the control-file driver.

pub mod cgroup;
pub mod cgroup_option;
pub mod cgroup_stat;
pub mod controller;
pub mod cpu_limit;
pub mod limit_value;
