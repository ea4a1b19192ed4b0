//! Deployment orchestration core: service model, lifecycle dispatch, the
//! chart-release and provisioning deployers as step machines, progress
//! reporting decisions and error classification.

pub mod deployer;
pub mod diagnostics;
pub mod dispatch;
pub mod errors;
pub mod laws;
pub mod model;
pub mod operation;
pub mod outside;
pub mod progress;
pub mod provisioner;
pub mod release;
pub mod versions;
