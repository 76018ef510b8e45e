//! Server metrics: the navigation count and the number of active sessions,
//! as plain values that the server exports.
use vstd::prelude::*;

verus! {

/// The metrics of a server.
pub struct Metrics {
    /// Navigations performed (the counter wraps around on overflow).
    pub navigations_total: u64,
    /// Browser sessions currently open.
    pub active_sessions: i64,
}

impl Metrics {
    /// Metrics with nothing counted.
    pub fn new() -> (r: Self)
        ensures
            r.navigations_total == 0,
            r.active_sessions == 0,
    {
        Metrics { navigations_total: 0, active_sessions: 0 }
    }
}

/// Counts one navigation.
pub fn record_navigation(metrics: &mut Metrics)
    ensures
        final(metrics).navigations_total == (if old(metrics).navigations_total == u64::MAX {
            0
        } else {
            old(metrics).navigations_total + 1
        }),
        final(metrics).active_sessions == old(metrics).active_sessions,
{
    metrics.navigations_total = if metrics.navigations_total == u64::MAX {
        0
    } else {
        metrics.navigations_total + 1
    };
}

/// Sets the number of active sessions.
pub fn set_active_sessions(metrics: &mut Metrics, count: i64)
    ensures
        final(metrics).active_sessions == count,
        final(metrics).navigations_total == old(metrics).navigations_total,
{
    metrics.active_sessions = count;
}

} // verus!
