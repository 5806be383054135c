use vstd::prelude::*;

verus! {

/// Fixed configuration of the ingestion core, supplied once at construction:
/// which device to listen for, how much history to keep, and when the last
/// reading stops being representative.
pub struct MonitorConfig {
    /// Company identifier that the manufacturer data of an accepted
    /// advertisement must carry.
    pub target_company_id: u16,
    /// Exact device name that an accepted advertisement must carry.
    pub target_device_name: String,
    /// Capacity of the rolling history of reading values; the oldest value is
    /// evicted once it is full.
    pub history_capacity: usize,
    /// A reading older than this many seconds is classified stale.
    pub staleness_threshold_secs: u64,
}

impl MonitorConfig {
    /// The stock configuration: Xiaomi's company identifier, the wristband's
    /// advertised name, one minute of history and a ten-second staleness
    /// threshold.
    pub fn mi_band() -> (cfg: MonitorConfig)
        ensures
            cfg.target_company_id == 0x0157,
            cfg.target_device_name@ == "Mi Smart Band 4"@,
            cfg.history_capacity == 60,
            cfg.staleness_threshold_secs == 10,
    {
        MonitorConfig {
            target_company_id: 0x0157,
            target_device_name: "Mi Smart Band 4".to_owned(),
            history_capacity: 60,
            staleness_threshold_secs: 10,
        }
    }
}

}
