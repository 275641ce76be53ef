use vstd::prelude::*;

verus! {

/// One configured upstream identity service: where to reach it, the key sent
/// with authentication calls, and (optionally) where and how to probe its
/// health endpoint.
#[derive(Debug, Clone)]
pub struct AuthService {
    pub name: String,
    pub url: String,
    pub api_key: String,
    pub monitoring_path: Option<String>,
    pub monitoring_api_key: Option<String>,
}

/// Validated process-level configuration consumed by the core. The backend
/// catalog (`auth_service`) is immutable after construction and shared
/// read-only by the dispatcher and the health monitor.
#[derive(Debug)]
pub struct PluginConfig {
    pub verify_cert: bool,
    pub auth_service: Vec<AuthService>,
    pub connect_timeout_sec: i64,
    pub response_timeout_sec: i64,
    pub monitoring_enable: bool,
    pub check_interval_sec: Option<i64>,
}

/// A service can be probed only when both a monitoring API key and a
/// monitoring path are configured for it.
pub open spec fn monitoring_ready(s: AuthService) -> bool {
    s.monitoring_api_key is Some && s.monitoring_path is Some
}

pub open spec fn all_monitoring_ready(s: Seq<AuthService>) -> bool {
    forall|i: int| 0 <= i < s.len() ==> monitoring_ready(#[trigger] s[i])
}

/// A configuration is coherent when monitoring, if enabled, has an interval
/// and every catalog entry carries the data the monitor needs.
pub open spec fn config_wf(c: PluginConfig) -> bool {
    c.monitoring_enable ==> (c.check_interval_sec is Some && all_monitoring_ready(
        c.auth_service@,
    ))
}

/// Decides whether every catalog entry is ready to be probed.
pub fn services_monitoring_ready(services: &Vec<AuthService>) -> (r: bool)
    ensures
        r == all_monitoring_ready(services@),
{
    let n = services.len();
    let mut i: usize = 0;
    while i < n
        invariant
            n == services@.len(),
            i <= n,
            forall|j: int| 0 <= j < i ==> monitoring_ready(#[trigger] services@[j]),
        decreases n - i,
    {
        if services[i].monitoring_api_key.is_none() || services[i].monitoring_path.is_none() {
            return false;
        }
        i = i + 1;
    }
    true
}

/// Decides `config_wf`: the check a host must pass before handing the
/// configuration to the monitor and the dispatcher.
pub fn validate_config(c: &PluginConfig) -> (r: bool)
    ensures
        r == config_wf(*c),
{
    if !c.monitoring_enable {
        return true;
    }
    c.check_interval_sec.is_some() && services_monitoring_ready(&c.auth_service)
}

} // verus!
