//! Control-plane core of a microVM monitor: the machine-shape rules, the
//! block-device table, kernel command-line wiring, the readiness dispatch
//! table, the vCPU exit policy and the cgroup jail set-up plan.

pub mod machine_config;
pub mod text;
pub mod cgroup;
pub mod inherit;
pub mod cmdline;
pub mod block;
pub mod net;
pub mod dispatch;
pub mod logger_api;
pub mod vmm;
pub mod vcpu;
pub mod bytes;
