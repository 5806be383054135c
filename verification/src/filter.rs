use crate::config::MonitorConfig;
use vstd::prelude::*;

verus! {

/// Offset of the measurement byte inside the vendor-defined payload; a
/// payload must extend past it to carry a reading.
pub const READING_BYTE_OFFSET: usize = 3;

/// Manufacturer-specific block of an advertisement: a company identifier and
/// a vendor-defined payload.
pub struct ManufacturerData {
    pub company_id: u16,
    pub payload: Vec<u8>,
}

/// A raw advertisement record as the scanning collaborator hands it over.
/// Every field may be absent; absence is a normal filtering outcome, never an
/// error.
pub struct Advertisement {
    pub manufacturer_data: Option<ManufacturerData>,
    pub device_name: Option<String>,
    pub signal_strength: Option<i16>,
}

/// A typed reading decoded from an accepted advertisement. Every payload byte
/// value is stored literally as the reading, the vendor's `0xFF` idle marker
/// included: the core does not interpret the measurement scale.
pub struct Reading {
    pub value: u8,
    pub device_name: String,
    pub signal_strength: i16,
    /// Seconds on the caller's monotonic clock at which the record arrived.
    pub observed_at: u64,
}

/// An advertisement is accepted iff manufacturer data is present, its company
/// identifier equals the configured target, the device name is present and
/// equals the configured label exactly, and the payload extends past the
/// reading byte's offset.
pub open spec fn accepts(cfg: MonitorConfig, adv: Advertisement) -> bool {
    &&& adv.manufacturer_data is Some
    &&& adv.manufacturer_data->0.company_id == cfg.target_company_id
    &&& adv.device_name is Some
    &&& adv.device_name->0@ == cfg.target_device_name@
    &&& adv.manufacturer_data->0.payload@.len() > READING_BYTE_OFFSET
}

/// The measurement byte of an accepted advertisement.
pub open spec fn decoded_value(adv: Advertisement) -> u8 {
    adv.manufacturer_data->0.payload@[READING_BYTE_OFFSET as int]
}

/// The signal strength carried by a record, with absence reported as 0.
pub open spec fn recorded_signal(adv: Advertisement) -> i16 {
    if adv.signal_strength is Some {
        adv.signal_strength->0
    } else {
        0
    }
}

/// Validate a raw advertisement record against the configured target and
/// decode it into a reading observed at `now`, or reject it. Rejection has no
/// side effect and raises no fatal condition.
pub fn filter_advertisement(cfg: &MonitorConfig, adv: &Advertisement, now: u64) -> (decoded: Option<
    Reading,
>)
    ensures
        (decoded is Some) <==> accepts(*cfg, *adv),
        decoded is Some ==> decoded->0.value == decoded_value(*adv),
        decoded is Some ==> decoded->0.device_name@ == adv.device_name->0@,
        decoded is Some ==> decoded->0.signal_strength == recorded_signal(*adv),
        decoded is Some ==> decoded->0.observed_at == now,
{
    match &adv.manufacturer_data {
        None => None,
        Some(md) => {
            if md.company_id != cfg.target_company_id {
                return None;
            }
            match &adv.device_name {
                None => None,
                Some(name) => {
                    if !(*name == cfg.target_device_name) {
                        return None;
                    }
                    if md.payload.len() > READING_BYTE_OFFSET {
                        let value = md.payload[READING_BYTE_OFFSET];
                        let signal_strength: i16 = match &adv.signal_strength {
                            Some(s) => *s,
                            None => 0,
                        };
                        Some(
                            Reading {
                                value,
                                device_name: name.clone(),
                                signal_strength,
                                observed_at: now,
                            },
                        )
                    } else {
                        None
                    }
                },
            }
        },
    }
}

/// Law: a record from another company or under another device name is never
/// accepted; by `ingest`'s contract the store, its history and its generation
/// counter are then left unchanged.
pub proof fn lemma_mismatch_rejected(cfg: MonitorConfig, adv: Advertisement)
    requires
        (adv.manufacturer_data is Some && adv.manufacturer_data->0.company_id
            != cfg.target_company_id) || !(adv.device_name is Some && adv.device_name->0@
            == cfg.target_device_name@),
    ensures
        !accepts(cfg, adv),
{
}

/// Law: a payload that does not extend past the reading byte's offset is
/// rejected, whatever the rest of the record holds; by `ingest`'s contract
/// the store is then left unchanged, and no fatal condition arises.
pub proof fn lemma_short_payload_rejected(cfg: MonitorConfig, adv: Advertisement)
    requires
        adv.manufacturer_data is Some ==> adv.manufacturer_data->0.payload@.len()
            <= READING_BYTE_OFFSET,
    ensures
        !accepts(cfg, adv),
{
}

}
