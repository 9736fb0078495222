//! Gateway host system information schemas.
use vstd::prelude::*;
use crate::checks::{
    also, non_negative_integer, opt_non_negative_integer, outcome, require_non_negative_integer,
    require_opt_non_negative_integer, Outcome,
};
use crate::json::NumberValue;

verus! {

/// Empty request payload for gateway host system information.
#[derive(Debug, Clone, Default)]
pub struct SystemInfoParams {}

impl SystemInfoParams {
    /// The struct has no fields, so every value is valid.
    pub fn validate(&self) -> (r: Result<(), String>)
        ensures
            r is Ok,
    {
        Ok(())
    }
}

/// Gateway host system information: identity, resources and uptime.
#[derive(Debug, Clone)]
pub struct SystemInfoResult {
    pub machine_name: String,
    pub hostname: String,
    pub platform: String,
    pub release: String,
    pub arch: String,
    pub os_label: String,
    pub lan_address: Option<String>,
    pub port: Option<i64>,
    pub node_version: String,
    pub pid: i64,
    pub uptime_ms: i64,
    pub cpu_count: i64,
    pub cpu_model: Option<String>,
    pub load_average: Option<[NumberValue; 3]>,
    pub memory_total_bytes: i64,
    pub memory_free_bytes: i64,
    pub disk_total_bytes: Option<i64>,
    pub disk_available_bytes: Option<i64>,
    pub disk_path: Option<String>,
}

impl SystemInfoResult {
    /// The process id, port, uptime, CPU count and memory and disk sizes are
    /// `>= 0`; the strings are free.
    pub open spec fn check(&self) -> Outcome {
        also(non_negative_integer("pid"@, self.pid as int),
        also(opt_non_negative_integer("port"@, self.port),
        also(non_negative_integer("uptimeMs"@, self.uptime_ms as int),
        also(non_negative_integer("cpuCount"@, self.cpu_count as int),
        also(non_negative_integer("memoryTotalBytes"@, self.memory_total_bytes as int),
        also(non_negative_integer("memoryFreeBytes"@, self.memory_free_bytes as int),
        also(opt_non_negative_integer("diskTotalBytes"@, self.disk_total_bytes),
        opt_non_negative_integer("diskAvailableBytes"@, self.disk_available_bytes))))))))
    }

    pub fn validate(&self) -> (r: Result<(), String>)
        ensures
            outcome(r) == self.check(),
    {
        let r = require_non_negative_integer("pid", self.pid);
        if r.is_err() {
            return r;
        }
        let r = require_opt_non_negative_integer("port", self.port);
        if r.is_err() {
            return r;
        }
        let r = require_non_negative_integer("uptimeMs", self.uptime_ms);
        if r.is_err() {
            return r;
        }
        let r = require_non_negative_integer("cpuCount", self.cpu_count);
        if r.is_err() {
            return r;
        }
        let r = require_non_negative_integer("memoryTotalBytes", self.memory_total_bytes);
        if r.is_err() {
            return r;
        }
        let r = require_non_negative_integer("memoryFreeBytes", self.memory_free_bytes);
        if r.is_err() {
            return r;
        }
        let r = require_opt_non_negative_integer("diskTotalBytes", self.disk_total_bytes);
        if r.is_err() {
            return r;
        }
        require_opt_non_negative_integer("diskAvailableBytes", self.disk_available_bytes)
    }
}

pub type SystemInfoParamsType = SystemInfoParams;
pub type SystemInfoResultType = SystemInfoResult;

// ---------------------------------------------------------------------------
// What each schema accepts
// ---------------------------------------------------------------------------

/// A `SystemInfoResult` passes validation exactly when every condition below holds;
/// a value that breaks one is rejected.
pub proof fn system_info_result_accepts(x: SystemInfoResult)
    ensures
        x.check() is Ok <==> {
            &&& x.pid as int >= 0
            &&& (x.port matches Some(n) ==> n >= 0)
            &&& x.uptime_ms as int >= 0
            &&& x.cpu_count as int >= 0
            &&& x.memory_total_bytes as int >= 0
            &&& x.memory_free_bytes as int >= 0
            &&& (x.disk_total_bytes matches Some(n) ==> n >= 0)
            &&& (x.disk_available_bytes matches Some(n) ==> n >= 0)
        },
{
}

} // verus!
