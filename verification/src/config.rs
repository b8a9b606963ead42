//! What the watchdog is told at start-up: where the hypervisor is, and how
//! each machine is to be watched.

use vstd::prelude::*;

verus! {

/// The whole configuration: one hypervisor and the machines to watch on it.
#[derive(Debug, Clone)]
pub struct Config {
    pub proxmox_auth: ProxmoxAuth,
    pub vm_configs: Vec<VmConfig>,
}

/// Where the hypervisor's API is and how to log in to it.
#[derive(Debug, Clone)]
pub struct ProxmoxAuth {
    pub url: String,
    pub user: String,
    pub password: String,
    /// Accept a certificate that cannot be validated.
    pub allow_invalid_cert: bool,
}

/// How one machine is watched.
#[derive(Debug, Clone)]
pub struct VmConfig {
    pub host_name: String,
    /// The hypervisor node that runs the machine.
    pub node: String,
    pub vmid: String,
    pub friendly_name: String,
    /// How many seconds ahead of now the guest may ask to be reset before
    /// the request is flagged as unusually far away.
    pub max_no_warning_interval: u64,
    /// How many seconds pass between a missed heartbeat and the reset.
    pub grace_period: u64,
    /// How many seconds the machine is left alone after a reset or after
    /// it was powered on.
    pub reset_duration: u64,
    pub telegram_bot_token: Option<String>,
    pub telegram_chat_id: Option<String>,
    /// Announce a reset instead of performing it.
    pub dry_run: bool,
}

} // verus!
