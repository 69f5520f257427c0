//! A basic service set: one access point's radio as a scan reports it, with the information
//! elements of its beacon or probe response.
use std::collections::HashMap;
use vstd::prelude::*;
use vstd::string::StringSliceAdditionalSpecFns;

use crate::band::{in_band, spec_band_of, Band};
use crate::bits::{le_bytes_u16, u16_le_bytes};
use crate::bss::capability_info::CapabilityInfo;
use crate::bss::scan_width::ScanWidth;
use crate::bss::nl80211::{
    attribute_map, find_payload, keyed_by_type, last_payload, payload_exactly_six, payload_first_six, payload_u16, payload_u32,
    payload_u64, payload_u8, payload_uint, NlAttribute, Nl80211ParseError,
    NL80211_BSS_BEACON_IES, NL80211_BSS_BEACON_INTERVAL, NL80211_BSS_BEACON_TSF,
    NL80211_BSS_BSSID, NL80211_BSS_CAPABILITY, NL80211_BSS_CHAN_WIDTH, NL80211_BSS_FREQUENCY,
    NL80211_BSS_FREQUENCY_OFFSET, NL80211_BSS_INFORMATION_ELEMENTS,
    NL80211_BSS_LAST_SEEN_BOOTTIME, NL80211_BSS_MLD_ADDR, NL80211_BSS_MLO_LINK_ID,
    NL80211_BSS_PARENT_BSSID, NL80211_BSS_PARENT_TSF, NL80211_BSS_PRESP_DATA,
    NL80211_BSS_SEEN_MS_AGO, NL80211_BSS_SIGNAL_MBM, NL80211_BSS_SIGNAL_UNSPEC,
    NL80211_BSS_STATUS, NL80211_BSS_TSF, NL80211_CMD_NEW_SCAN_RESULTS,
};
use crate::bss::utc::{
    chrono_minus_nanos, chrono_timestamp_valid, utc_from_timestamp, utc_minus_nanos, utc_now, UtcTime,
};
use crate::channel_width::{spec_channel_width_of, ChannelWidth};
use crate::ies::elements::eht_capabilities::EhtCapabilities;
use crate::ies::elements::ht_operation::SecondaryChannelOffset;
use crate::ies::ie::{from_bytes, spec_ies_decoded, Ie, IeData};
use crate::ies::search::{
    announced_channel, bss_load, first_announced_channel, first_bss_load, first_named_ssid,
    last_capabilities_indices, last_eht_capabilities_index, last_eht_operation,
    last_he_capabilities_index, last_he_operation, last_ht_operation, last_operations,
    last_vht_operation, lemma_last_capabilities_index, named_ssid,
};

verus! {

/// The association status of the station with a BSS, as nl80211 reports it.
#[derive(Debug, Clone, Copy, PartialEq, Eq, Structural, Hash)]
pub enum BssStatus {
    Authenticated,
    Associated,
    IbssJoined,
}

impl BssStatus {
    /// The status with nl80211 code `v`, if the code is defined.
    pub open spec fn spec_from_u32(v: u32) -> Option<BssStatus> {
        if v == 0 {
            Some(BssStatus::Authenticated)
        } else if v == 1 {
            Some(BssStatus::Associated)
        } else if v == 2 {
            Some(BssStatus::IbssJoined)
        } else {
            None
        }
    }

    /// Decodes an nl80211 status code; `None` for an undefined code.
    pub fn from_u32(v: u32) -> (r: Option<BssStatus>)
        ensures
            r == Self::spec_from_u32(v),
    {
        match v {
            0 => Some(BssStatus::Authenticated),
            1 => Some(BssStatus::Associated),
            2 => Some(BssStatus::IbssJoined),
            _ => None,
        }
    }
}

/// The frequency of channel `chan` in `band`; in the 2.4 GHz band the primary frequency
/// stands for it.
pub open spec fn spec_chan_to_freq(band: Band, primary: u32, chan: u8) -> int {
    match band {
        Band::FiveGhz => 5000 + 5 * chan,
        Band::SixGhz => 5950 + 5 * chan,
        Band::TwoPointFourGhz => primary as int,
    }
}

/// The center channel that two channel center frequency segments give: segment 1 when it is
/// set and 8 channels (40 MHz) from segment 0, else segment 0 when it is set.
pub open spec fn spec_segments_center(s0: u8, s1: u8) -> Option<u8> {
    if s1 != 0 && (s1 - s0 == 8 || s0 - s1 == 8) {
        Some(s1)
    } else if s0 != 0 {
        Some(s0)
    } else {
        None
    }
}

/// The center channel that the last EHT Operation element announces: CCFS1 when set, else
/// CCFS0 when set.
pub open spec fn spec_eht_center_channel(ies: Seq<Ie>) -> Option<u8> {
    match last_eht_operation(ies) {
        Some(op) => match op.eht_operation_information {
            Some(info) => if info.ccfs1 != 0 {
                Some(info.ccfs1)
            } else if info.ccfs0 != 0 {
                Some(info.ccfs0)
            } else {
                None
            },
            None => None,
        },
        None => None,
    }
}

/// The center channel that the last HE Operation element announces: from its 6 GHz
/// operation information when that gives one, else from its VHT operation information.
pub open spec fn spec_he_center_channel(ies: Seq<Ie>) -> Option<u8> {
    match last_he_operation(ies) {
        Some(op) => {
            let six = match op.six_ghz_operation_information {
                Some(s) => spec_segments_center(
                    s.channel_center_frequency_segment_0,
                    s.channel_center_frequency_segment_1,
                ),
                None => None,
            };
            if six is Some {
                six
            } else {
                match op.vht_operation_information {
                    Some(v) => spec_segments_center(
                        v.channel_center_frequency_segment_0,
                        v.channel_center_frequency_segment_1,
                    ),
                    None => None,
                }
            }
        },
        None => None,
    }
}

/// The center channel that the last VHT Operation element announces.
pub open spec fn spec_vht_center_channel(ies: Seq<Ie>) -> Option<u8> {
    match last_vht_operation(ies) {
        Some(op) => spec_segments_center(
            op.vht_operation_information.channel_center_frequency_segment_0,
            op.vht_operation_information.channel_center_frequency_segment_1,
        ),
        None => None,
    }
}

/// The center frequency of the full channel of a BSS on `primary` MHz with elements `ies`: the
/// primary frequency when the channel is 20 MHz wide; else from the center channel of the last
/// EHT, else HE, else VHT Operation element that announces one; else 10 MHz above or below the
/// primary frequency when the last HT Operation element announces a secondary channel there;
/// else the primary frequency.
pub open spec fn spec_center_frequency_mhz(primary: u32, ies: Seq<Ie>) -> int {
    let band = spec_band_of(primary);
    if spec_channel_width_of(ies) == ChannelWidth::TwentyMhz {
        primary as int
    } else if spec_eht_center_channel(ies) is Some {
        spec_chan_to_freq(band, primary, spec_eht_center_channel(ies)->0)
    } else if spec_he_center_channel(ies) is Some {
        spec_chan_to_freq(band, primary, spec_he_center_channel(ies)->0)
    } else if spec_vht_center_channel(ies) is Some {
        spec_chan_to_freq(band, primary, spec_vht_center_channel(ies)->0)
    } else {
        match last_ht_operation(ies) {
            Some(op) => match op.ht_operation_information.spec_secondary_channel_offset() {
                SecondaryChannelOffset::AbovePrimary => primary + 10,
                SecondaryChannelOffset::BelowPrimary => primary - 10,
                SecondaryChannelOffset::NoSecondary => primary as int,
            },
            None => primary as int,
        }
    }
}

/// On a 20 MHz channel the center frequency is the primary frequency.
pub proof fn lemma_twenty_mhz_center(primary: u32, ies: Seq<Ie>)
    requires
        spec_channel_width_of(ies) == ChannelWidth::TwentyMhz,
    ensures
        spec_center_frequency_mhz(primary, ies) == primary,
{
}

/// On a channel wider than 20 MHz whose last EHT Operation element carries operation
/// information, the center frequency is that of channel CCFS1 (the center of the whole channel)
/// when CCFS1 is set, else that of channel CCFS0 when it is set: 5000 MHz plus 5 MHz per
/// channel in the 5 GHz band, 5950 MHz plus 5 MHz per channel in the 6 GHz band, and the
/// primary frequency in the 2.4 GHz band.
pub proof fn lemma_eht_center_from_segments(primary: u32, ies: Seq<Ie>)
    requires
        spec_channel_width_of(ies) != ChannelWidth::TwentyMhz,
        last_eht_operation(ies) is Some,
        last_eht_operation(ies)->0.eht_operation_information is Some,
        last_eht_operation(ies)->0.eht_operation_information->0.ccfs1 != 0
            || last_eht_operation(ies)->0.eht_operation_information->0.ccfs0 != 0,
    ensures
        ({
            let info = last_eht_operation(ies)->0.eht_operation_information->0;
            let chan: int = if info.ccfs1 != 0 { info.ccfs1 as int } else { info.ccfs0 as int };
            &&& spec_band_of(primary) == Band::FiveGhz ==> spec_center_frequency_mhz(primary, ies) == 5000 + 5 * chan
            &&& spec_band_of(primary) == Band::SixGhz ==> spec_center_frequency_mhz(primary, ies) == 5950 + 5 * chan
            &&& spec_band_of(primary) == Band::TwoPointFourGhz ==> spec_center_frequency_mhz(primary, ies) == primary
        }),
{
}

/// Without EHT or HE center channels, on a channel wider than 20 MHz, a VHT Operation element
/// gives the center of the whole channel: segment 1 when it is set 8 channels (40 MHz) from
/// segment 0 (the center of a contiguous 160 MHz channel), else segment 0 when it is set; in
/// the 5 GHz band that channel's frequency is 5000 MHz plus 5 MHz per channel.
pub proof fn lemma_vht_center_from_segments(primary: u32, ies: Seq<Ie>)
    requires
        spec_channel_width_of(ies) != ChannelWidth::TwentyMhz,
        spec_eht_center_channel(ies) is None,
        spec_he_center_channel(ies) is None,
        last_vht_operation(ies) is Some,
        spec_band_of(primary) == Band::FiveGhz,
    ensures
        ({
            let i = last_vht_operation(ies)->0.vht_operation_information;
            let s0 = i.channel_center_frequency_segment_0;
            let s1 = i.channel_center_frequency_segment_1;
            &&& (s1 != 0 && (s1 - s0 == 8 || s0 - s1 == 8)) ==> spec_center_frequency_mhz(primary, ies) == 5000 + 5 * s1
            &&& (!(s1 != 0 && (s1 - s0 == 8 || s0 - s1 == 8)) && s0 != 0) ==> spec_center_frequency_mhz(primary, ies)
                == 5000 + 5 * s0
        }),
{
}

/// With no EHT, HE or VHT Operation element giving a center channel, on a channel wider than
/// 20 MHz, the center lies 10 MHz above the primary frequency when the last HT Operation element
/// puts the secondary channel above it, 10 MHz below when it puts it below, and on the primary
/// frequency otherwise.
pub proof fn lemma_ht_center_from_secondary_offset(primary: u32, ies: Seq<Ie>)
    requires
        spec_channel_width_of(ies) != ChannelWidth::TwentyMhz,
        spec_eht_center_channel(ies) is None,
        spec_he_center_channel(ies) is None,
        spec_vht_center_channel(ies) is None,
        last_ht_operation(ies) is Some,
    ensures
        ({
            let off = last_ht_operation(ies)->0.ht_operation_information.spec_secondary_channel_offset();
            &&& off == SecondaryChannelOffset::AbovePrimary ==> spec_center_frequency_mhz(primary, ies) == primary + 10
            &&& off == SecondaryChannelOffset::BelowPrimary ==> spec_center_frequency_mhz(primary, ies) == primary - 10
            &&& off == SecondaryChannelOffset::NoSecondary ==> spec_center_frequency_mhz(primary, ies) == primary
        }),
{
}

/// A BSS whose elements hold no operation element has a 20 MHz channel centered on its primary
/// frequency.
pub proof fn lemma_no_operation_elements(primary: u32, ies: Seq<Ie>)
    requires
        last_eht_operation(ies) is None,
        last_he_operation(ies) is None,
        last_vht_operation(ies) is None,
        last_ht_operation(ies) is None,
    ensures
        spec_center_frequency_mhz(primary, ies) == primary,
        spec_channel_width_of(ies) == ChannelWidth::TwentyMhz,
{
}

/// The channel number that a frequency gives in the band whose range holds it: channel 14 at
/// 2484 MHz, else the distance in 5 MHz steps from the band's channel 0; 0 outside the bands
/// and for the frequencies of a band that lie below its channel 0 (2401 to 2406 MHz, and 5945
/// to 5949 MHz), which no channel number describes.
pub open spec fn spec_channel_from_freq(freq: u32) -> u8 {
    if in_band(Band::TwoPointFourGhz, freq) {
        if freq == 2484 {
            14
        } else if freq >= 2407 {
            ((freq - 2407) / 5) as u8
        } else {
            0
        }
    } else if in_band(Band::FiveGhz, freq) {
        ((freq - 5000) / 5) as u8
    } else if in_band(Band::SixGhz, freq) {
        if freq >= 5950 {
            ((freq - 5950) / 5) as u8
        } else {
            0
        }
    } else {
        0
    }
}

/// The channel number of a BSS on `freq` MHz with elements `ies`: the channel the first DS
/// Parameter Set or HT Operation element announces, else the one the frequency gives.
pub open spec fn spec_channel_number(freq: u32, ies: Seq<Ie>) -> u8 {
    match first_announced_channel(ies) {
        Some(c) => c,
        None => spec_channel_from_freq(freq),
    }
}

/// How resolving the dependencies between elements turns `before` into `after`: when the list
/// holds both, the last EHT Capabilities element is read again with the last HE Capabilities
/// element; every other element stays.
pub open spec fn spec_dependencies_resolved(before: Seq<Ie>, after: Seq<Ie>) -> bool {
    match (last_eht_capabilities_index(before), last_he_capabilities_index(before)) {
        (Some(e), Some(h)) => {
            &&& after.len() == before.len()
            &&& forall|j: int| 0 <= j < before.len() && j != e ==> #[trigger] after[j] == before[j]
            &&& after[e].id == before[e].id
            &&& after[e].id_ext == before[e].id_ext
            &&& after[e].bytes == before[e].bytes
            &&& after[e].data matches IeData::EhtCapabilities(c)
            &&& EhtCapabilities::spec_parse_outcome(
                before[e].data->EhtCapabilities_0,
                c,
                &before[h].data->HeCapabilities_0,
            )
        },
        _ => after == before,
    }
}

/// Reads the last EHT Capabilities element of `ies` again with the last HE Capabilities
/// element, when the list holds both.
pub fn resolve_dependencies(ies: &mut Vec<Ie>)
    ensures
        spec_dependencies_resolved(old(ies)@, final(ies)@),
{
    let (eht, he) = last_capabilities_indices(ies.as_slice());
    proof {
        lemma_last_capabilities_index(ies@);
    }
    if let (Some(e), Some(h)) = (eht, he) {
        let ghost before = ies@;
        let mut taken = ies.remove(e);
        proof {
            assert(taken == before[e as int]);
        }
        let he_index = if h < e { h } else { h - 1 };
        if let IeData::EhtCapabilities(caps) = &mut taken.data {
            if let IeData::HeCapabilities(he_caps) = &ies[he_index].data {
                let _ = caps.parse_with_he_capabilities(he_caps);
            }
        }
        ies.insert(e, taken);
        proof {
            assert forall|j: int| 0 <= j < before.len() && j != e implies #[trigger] ies@[j] == before[j] by {
                if j < e {
                } else {
                }
            }
        }
    }
}

/// `x / d` rounded toward zero, as Rust's integer division does.
pub open spec fn trunc_div(x: int, d: int) -> int {
    if x >= 0 {
        x / d
    } else {
        -((-x) / d)
    }
}

/// The unsigned value an attribute's payload holds in its first `n` bytes, if the attribute
/// is present and long enough.
pub open spec fn attr_uint(attrs: Seq<NlAttribute>, kind: u16, n: nat) -> Option<nat> {
    match last_payload(attrs, kind) {
        Some(p) => payload_uint(p, n),
        None => None,
    }
}

/// The name under which a required attribute is reported when missing or too short.
pub open spec fn required_attr_name(kind: u16) -> Seq<char> {
    if kind == NL80211_BSS_BSSID {
        "Nl80211Bss::Bssid"@
    } else if kind == NL80211_BSS_FREQUENCY {
        "Nl80211Bss::Frequency"@
    } else if kind == NL80211_BSS_SIGNAL_MBM {
        "Nl80211Bss::SignalMbm"@
    } else if kind == NL80211_BSS_BEACON_INTERVAL {
        "Nl80211Bss::BeaconInterval"@
    } else if kind == NL80211_BSS_CAPABILITY {
        "Nl80211Bss::Capability"@
    } else {
        "Nl80211Bss::Tsf"@
    }
}

/// Whether a required attribute is present with a payload of at least `n` bytes.
pub open spec fn attr_ok(attrs: Seq<NlAttribute>, kind: u16, n: nat) -> bool {
    last_payload(attrs, kind) matches Some(p) && p.len() >= n
}

/// The first required attribute, in the order BSSID, frequency, signal, beacon interval,
/// capability and TSF, that is missing or too short for its type.
pub open spec fn first_required_failure(attrs: Seq<NlAttribute>) -> Option<u16> {
    if !attr_ok(attrs, NL80211_BSS_BSSID, 6) {
        Some(NL80211_BSS_BSSID)
    } else if !attr_ok(attrs, NL80211_BSS_FREQUENCY, 4) {
        Some(NL80211_BSS_FREQUENCY)
    } else if !attr_ok(attrs, NL80211_BSS_SIGNAL_MBM, 4) {
        Some(NL80211_BSS_SIGNAL_MBM)
    } else if !attr_ok(attrs, NL80211_BSS_BEACON_INTERVAL, 2) {
        Some(NL80211_BSS_BEACON_INTERVAL)
    } else if !attr_ok(attrs, NL80211_BSS_CAPABILITY, 2) {
        Some(NL80211_BSS_CAPABILITY)
    } else if !attr_ok(attrs, NL80211_BSS_TSF, 8) {
        Some(NL80211_BSS_TSF)
    } else {
        None
    }
}

/// Whether `e` reports that required attribute `kind` is missing or too short.
pub open spec fn reports_required(e: Nl80211ParseError, attrs: Seq<NlAttribute>, kind: u16) -> bool {
    if last_payload(attrs, kind) is None {
        e matches Nl80211ParseError::MissingAttribute(n) && n@ == required_attr_name(kind)
    } else {
        e matches Nl80211ParseError::InvalidPayload(n) && n@ == required_attr_name(kind)
    }
}

/// When the BSS was last seen, given the boot time it was last seen at or how many
/// milliseconds ago, the boot time now, and the UTC time now: the boot time taken back from
/// now when reported (the difference saturating at 0 and read as a signed 64-bit count of
/// nanoseconds), else the milliseconds taken back from now, else unknown.
pub open spec fn spec_last_seen_utc(
    last_seen_boottime: Option<u64>,
    seen_ms_ago: Option<u32>,
    boottime_now_ns: u64,
    now: UtcTime,
) -> Option<UtcTime> {
    let ago: Option<i64> = match last_seen_boottime {
        Some(b) => Some((if boottime_now_ns >= b { boottime_now_ns - b } else { 0 }) as i64),
        None => match seen_ms_ago {
            Some(ms) => Some((ms * 1_000_000) as i64),
            None => None,
        },
    };
    match ago {
        Some(a) => match chrono_minus_nanos(now.secs, now.nanos, a) {
            Some(v) => Some(UtcTime { secs: v.0, nanos: v.1 }),
            None => None,
        },
        None => None,
    }
}

/// When the BSS was last seen; see `spec_last_seen_utc`. `now` must be a date and time chrono
/// represents.
pub fn last_seen_utc_from(
    last_seen_boottime: Option<u64>,
    seen_ms_ago: Option<u32>,
    boottime_now_ns: u64,
    now: UtcTime,
) -> (r: Option<UtcTime>)
    requires
        chrono_timestamp_valid(now.secs, now.nanos),
    ensures
        r == spec_last_seen_utc(last_seen_boottime, seen_ms_ago, boottime_now_ns, now),
{
    match last_seen_boottime {
        Some(b) => {
            let ago = if boottime_now_ns >= b { boottime_now_ns - b } else { 0 };
            utc_minus_nanos(now, ago as i64)
        },
        None => match seen_ms_ago {
            Some(ms) => utc_minus_nanos(now, ms as i64 * 1_000_000),
            None => None,
        },
    }
}

/// When the BSS was last seen, given what the clock read now: unknown when the clock could not
/// be read, else as `spec_last_seen_utc` gives it.
pub open spec fn spec_last_seen_utc_at(
    last_seen_boottime: Option<u64>,
    seen_ms_ago: Option<u32>,
    boottime_now_ns: u64,
    now: Option<UtcTime>,
) -> Option<UtcTime> {
    match now {
        Some(n) => spec_last_seen_utc(last_seen_boottime, seen_ms_ago, boottime_now_ns, n),
        None => None,
    }
}

/// When the BSS was last seen, given what the clock read now (`None` when it could not be
/// read); see `spec_last_seen_utc_at`. A time read must be one chrono represents.
pub fn last_seen_utc_at(
    last_seen_boottime: Option<u64>,
    seen_ms_ago: Option<u32>,
    boottime_now_ns: u64,
    now: Option<UtcTime>,
) -> (r: Option<UtcTime>)
    requires
        now matches Some(n) ==> chrono_timestamp_valid(n.secs, n.nanos),
    ensures
        r == spec_last_seen_utc_at(last_seen_boottime, seen_ms_ago, boottime_now_ns, now),
{
    match now {
        Some(n) => last_seen_utc_from(last_seen_boottime, seen_ms_ago, boottime_now_ns, n),
        None => None,
    }
}

/// The optional attributes of a scan result decoded as the BSS holds them; `ies` are the
/// elements of the frame before their dependencies are resolved.
pub open spec fn spec_optional_attrs_read(b: Bss, attrs: Seq<NlAttribute>) -> bool {
    &&& b.spec_status() == (match attr_uint(attrs, NL80211_BSS_STATUS, 4) {
        Some(v) => BssStatus::spec_from_u32(v as u32),
        None => None,
    })
    &&& b.spec_is_from_probe_response() == (last_payload(attrs, NL80211_BSS_PRESP_DATA) is Some)
    &&& (b.spec_parent_bssid() is Some <==> (last_payload(attrs, NL80211_BSS_PARENT_BSSID) matches Some(p) && p.len() == 6))
    &&& (b.spec_parent_bssid() matches Some(a) ==> last_payload(attrs, NL80211_BSS_PARENT_BSSID) == Some(a@))
    &&& b.spec_parent_tsf() == (match attr_uint(attrs, NL80211_BSS_PARENT_TSF, 8) {
        Some(v) => Some(v as u64),
        None => None,
    })
    &&& b.spec_beacon_tsf() == (match attr_uint(attrs, NL80211_BSS_BEACON_TSF, 8) {
        Some(v) => Some(v as u64),
        None => None,
    })
    &&& b.spec_frequency_offset_khz() == (match attr_uint(attrs, NL80211_BSS_FREQUENCY_OFFSET, 4) {
        Some(v) => Some(v as u32),
        None => None,
    })
    &&& b.spec_signal_percent() == (match attr_uint(attrs, NL80211_BSS_SIGNAL_UNSPEC, 1) {
        Some(v) => Some(v as u8),
        None => None,
    })
    &&& b.spec_scan_width() == (match last_payload(attrs, NL80211_BSS_CHAN_WIDTH) {
        Some(p) => ScanWidth::spec_from_u32(
            match payload_uint(p, 4) {
                Some(v) => v as u32,
                None => 0,
            },
        ),
        None => None,
    })
    &&& b.spec_last_seen_boottime() == (match attr_uint(attrs, NL80211_BSS_LAST_SEEN_BOOTTIME, 8) {
        Some(v) => Some(v as u64),
        None => None,
    })
    &&& b.spec_seen_ms_ago() == (match attr_uint(attrs, NL80211_BSS_SEEN_MS_AGO, 4) {
        Some(v) => Some(v as u32),
        None => None,
    })
    &&& b.spec_mlo_link_id() == (match attr_uint(attrs, NL80211_BSS_MLO_LINK_ID, 1) {
        Some(v) => Some(v as u8),
        None => None,
    })
    &&& (b.spec_mld_address() is Some <==> (last_payload(attrs, NL80211_BSS_MLD_ADDR) matches Some(p) && p.len() == 6))
    &&& (b.spec_mld_address() matches Some(a) ==> last_payload(attrs, NL80211_BSS_MLD_ADDR) == Some(a@))
    &&& (b.spec_beacon_ies() is Some <==> last_payload(attrs, NL80211_BSS_BEACON_IES) is Some)
    &&& (b.spec_beacon_ies() matches Some(v) ==> spec_ies_decoded(v, last_payload(attrs, NL80211_BSS_BEACON_IES)->0))
}

/// A basic service set (BSS): one access point's radio as a scan reports it.
#[derive(Debug, Clone)]
pub struct Bss {
    bssid: [u8; 6],
    frequency_mhz: u32,
    signal_dbm: i32,
    beacon_interval_tu: u16,
    ies: Vec<Ie>,
    tsf: u64,
    capability_info: CapabilityInfo,
    last_seen_utc: Option<UtcTime>,
    status: Option<BssStatus>,
    is_from_probe_response: bool,
    parent_bssid: Option<[u8; 6]>,
    parent_tsf: Option<u64>,
    beacon_tsf: Option<u64>,
    frequency_offset_khz: Option<u32>,
    signal_percent: Option<u8>,
    beacon_ies: Option<Vec<Ie>>,
    scan_width: Option<ScanWidth>,
    last_seen_boottime: Option<u64>,
    seen_ms_ago: Option<u32>,
    mlo_link_id: Option<u8>,
    mld_address: Option<[u8; 6]>,
    link_quality: u8,
    noise_dbm: i32,
}

impl Bss {
    /// The 6-byte BSSID (MAC address) of the BSS.
    pub closed spec fn spec_bssid(&self) -> Seq<u8> {
        self.bssid@
    }

    /// The 6-byte BSSID (MAC address) of the BSS.
    pub fn bssid(&self) -> (b: &[u8; 6])
        ensures
            b@ == self.spec_bssid(),
    {
        &self.bssid
    }

    /// The operating frequency in MHz.
    pub closed spec fn spec_frequency_mhz(&self) -> u32 {
        self.frequency_mhz
    }

    /// The operating frequency in MHz.
    pub fn frequency_mhz(&self) -> (v: u32)
        ensures
            v == self.spec_frequency_mhz(),
    {
        self.frequency_mhz
    }

    /// The received signal strength in dBm.
    pub closed spec fn spec_signal_dbm(&self) -> i32 {
        self.signal_dbm
    }

    /// The received signal strength in dBm.
    pub fn signal_dbm(&self) -> (v: i32)
        ensures
            v == self.spec_signal_dbm(),
    {
        self.signal_dbm
    }

    /// The beacon interval in time units (1 TU = 1024 microseconds).
    pub closed spec fn spec_beacon_interval_tu(&self) -> u16 {
        self.beacon_interval_tu
    }

    /// The beacon interval in time units (1 TU = 1024 microseconds).
    pub fn beacon_interval_tu(&self) -> (v: u16)
        ensures
            v == self.spec_beacon_interval_tu(),
    {
        self.beacon_interval_tu
    }

    /// The capability information flags advertised by the BSS.
    pub closed spec fn spec_capability_info(&self) -> CapabilityInfo {
        self.capability_info
    }

    /// The capability information flags advertised by the BSS.
    pub fn capability_info(&self) -> (v: &CapabilityInfo)
        ensures
            *v == self.spec_capability_info(),
    {
        &self.capability_info
    }

    /// The information elements of the BSS's beacon or probe response.
    pub closed spec fn spec_ies(&self) -> Seq<Ie> {
        self.ies@
    }

    /// The information elements of the BSS's beacon or probe response.
    pub fn ies(&self) -> (v: &[Ie])
        ensures
            v@ == self.spec_ies(),
    {
        self.ies.as_slice()
    }

    /// The timing synchronization function (TSF) timer value, in microseconds.
    pub closed spec fn spec_tsf(&self) -> u64 {
        self.tsf
    }

    /// The timing synchronization function (TSF) timer value, in microseconds.
    pub fn tsf(&self) -> (v: u64)
        ensures
            v == self.spec_tsf(),
    {
        self.tsf
    }

    /// The UTC date and time when the BSS was last seen, or `None` if unavailable.
    pub closed spec fn spec_last_seen_utc(&self) -> Option<UtcTime> {
        self.last_seen_utc
    }

    /// The UTC date and time when the BSS was last seen, or `None` if unavailable.
    pub fn last_seen_utc(&self) -> (v: Option<UtcTime>)
        ensures
            v == self.spec_last_seen_utc(),
    {
        self.last_seen_utc
    }

    /// The association status of the station with the BSS, if any.
    pub closed spec fn spec_status(&self) -> Option<BssStatus> {
        self.status
    }

    /// The association status of the station with the BSS, if any.
    pub fn status(&self) -> (v: Option<BssStatus>)
        ensures
            v == self.spec_status(),
    {
        self.status
    }

    /// Whether the data came from a probe response rather than a beacon.
    pub closed spec fn spec_is_from_probe_response(&self) -> bool {
        self.is_from_probe_response
    }

    /// Whether the data came from a probe response rather than a beacon.
    pub fn is_from_probe_response(&self) -> (v: bool)
        ensures
            v == self.spec_is_from_probe_response(),
    {
        self.is_from_probe_response
    }

    /// The BSSID of the BSS whose frame reported this one, if any.
    pub closed spec fn spec_parent_bssid(&self) -> Option<[u8; 6]> {
        self.parent_bssid
    }

    /// The BSSID of the BSS whose frame reported this one, if any.
    pub fn parent_bssid(&self) -> (v: Option<[u8; 6]>)
        ensures
            v == self.spec_parent_bssid(),
    {
        self.parent_bssid
    }

    /// The TSF of the reporting BSS when the frame was received, if known.
    pub closed spec fn spec_parent_tsf(&self) -> Option<u64> {
        self.parent_tsf
    }

    /// The TSF of the reporting BSS when the frame was received, if known.
    pub fn parent_tsf(&self) -> (v: Option<u64>)
        ensures
            v == self.spec_parent_tsf(),
    {
        self.parent_tsf
    }

    /// The TSF of the last beacon, if known.
    pub closed spec fn spec_beacon_tsf(&self) -> Option<u64> {
        self.beacon_tsf
    }

    /// The TSF of the last beacon, if known.
    pub fn beacon_tsf(&self) -> (v: Option<u64>)
        ensures
            v == self.spec_beacon_tsf(),
    {
        self.beacon_tsf
    }

    /// The offset of the frequency in kHz, if any.
    pub closed spec fn spec_frequency_offset_khz(&self) -> Option<u32> {
        self.frequency_offset_khz
    }

    /// The offset of the frequency in kHz, if any.
    pub fn frequency_offset_khz(&self) -> (v: Option<u32>)
        ensures
            v == self.spec_frequency_offset_khz(),
    {
        self.frequency_offset_khz
    }

    /// The signal strength as a percentage, if the driver reports it.
    pub closed spec fn spec_signal_percent(&self) -> Option<u8> {
        self.signal_percent
    }

    /// The signal strength as a percentage, if the driver reports it.
    pub fn signal_percent(&self) -> (v: Option<u8>)
        ensures
            v == self.spec_signal_percent(),
    {
        self.signal_percent
    }

    /// The control channel width of the scan, if reported.
    pub closed spec fn spec_scan_width(&self) -> Option<ScanWidth> {
        self.scan_width
    }

    /// The control channel width of the scan, if reported.
    pub fn scan_width(&self) -> (v: Option<ScanWidth>)
        ensures
            v == self.spec_scan_width(),
    {
        self.scan_width
    }

    /// The boot time, in nanoseconds, when the BSS was last seen, if reported.
    pub closed spec fn spec_last_seen_boottime(&self) -> Option<u64> {
        self.last_seen_boottime
    }

    /// The boot time, in nanoseconds, when the BSS was last seen, if reported.
    pub fn last_seen_boottime(&self) -> (v: Option<u64>)
        ensures
            v == self.spec_last_seen_boottime(),
    {
        self.last_seen_boottime
    }

    /// How many milliseconds ago the BSS was last seen, if reported.
    pub closed spec fn spec_seen_ms_ago(&self) -> Option<u32> {
        self.seen_ms_ago
    }

    /// How many milliseconds ago the BSS was last seen, if reported.
    pub fn seen_ms_ago(&self) -> (v: Option<u32>)
        ensures
            v == self.spec_seen_ms_ago(),
    {
        self.seen_ms_ago
    }

    /// The multi-link operation link ID, if the BSS is affiliated with an AP MLD.
    pub closed spec fn spec_mlo_link_id(&self) -> Option<u8> {
        self.mlo_link_id
    }

    /// The multi-link operation link ID, if the BSS is affiliated with an AP MLD.
    pub fn mlo_link_id(&self) -> (v: Option<u8>)
        ensures
            v == self.spec_mlo_link_id(),
    {
        self.mlo_link_id
    }

    /// The link quality from 0 to 100, as Windows reports it.
    pub closed spec fn spec_link_quality(&self) -> u8 {
        self.link_quality
    }

    /// The link quality from 0 to 100, as Windows reports it.
    pub fn link_quality(&self) -> (v: u8)
        ensures
            v == self.spec_link_quality(),
    {
        self.link_quality
    }

    /// The noise measurement in dBm, as macOS reports it.
    pub closed spec fn spec_noise_dbm(&self) -> i32 {
        self.noise_dbm
    }

    /// The noise measurement in dBm, as macOS reports it.
    pub fn noise_dbm(&self) -> (v: i32)
        ensures
            v == self.spec_noise_dbm(),
    {
        self.noise_dbm
    }

    /// The information elements of the last beacon, if reported apart from those of the probe
    /// response.
    pub closed spec fn spec_beacon_ies(&self) -> Option<Seq<Ie>> {
        match self.beacon_ies {
            Some(v) => Some(v@),
            None => None,
        }
    }

    /// The information elements of the last beacon, if reported apart from those of the probe
    /// response.
    pub fn beacon_ies(&self) -> (r: Option<&[Ie]>)
        ensures
            r is Some <==> self.spec_beacon_ies() is Some,
            r matches Some(v) ==> v@ == self.spec_beacon_ies()->0,
    {
        match &self.beacon_ies {
            Some(v) => Some(v.as_slice()),
            None => None,
        }
    }

    /// The MAC address of the AP MLD the BSS is affiliated with, if any.
    pub closed spec fn spec_mld_address(&self) -> Option<[u8; 6]> {
        self.mld_address
    }

    /// The MAC address of the AP MLD the BSS is affiliated with, if any.
    pub fn mld_address(&self) -> (r: Option<&[u8; 6]>)
        ensures
            r is Some <==> self.spec_mld_address() is Some,
            r matches Some(a) ==> *a == self.spec_mld_address()->0,
    {
        match &self.mld_address {
            Some(a) => Some(a),
            None => None,
        }
    }

    /// The frequency band the BSS operates on.
    pub fn band(&self) -> (b: Band)
        ensures
            b == spec_band_of(self.spec_frequency_mhz()),
    {
        Band::from_freq_mhz(self.frequency_mhz)
    }

    /// The channel width the BSS's elements announce; see `spec_channel_width_of`.
    pub fn channel_width(&self) -> (w: ChannelWidth)
        ensures
            w == spec_channel_width_of(self.spec_ies()),
    {
        ChannelWidth::from(self.ies.as_slice())
    }

    /// The frequency of channel `chan` in the BSS's band.
    fn chan_to_freq(band: Band, primary: u32, chan: u8) -> (f: u32)
        ensures
            f == spec_chan_to_freq(band, primary, chan),
    {
        match band {
            Band::FiveGhz => 5000 + chan as u32 * 5,
            Band::SixGhz => 5950 + chan as u32 * 5,
            Band::TwoPointFourGhz => primary,
        }
    }

    /// The center channel two channel center frequency segments give.
    fn segments_center(s0: u8, s1: u8) -> (c: Option<u8>)
        ensures
            c == spec_segments_center(s0, s1),
    {
        if s1 != 0 && (if s1 > s0 { s1 - s0 } else { s0 - s1 }) == 8 {
            Some(s1)
        } else if s0 != 0 {
            Some(s0)
        } else {
            None
        }
    }

    /// The center frequency of the full channel in MHz; see `spec_center_frequency_mhz`. For
    /// 20 MHz channels this is the primary frequency (`lemma_twenty_mhz_center`); for wider
    /// ones it comes from the center channel frequency segments of the operation elements
    /// (EHT, then HE, VHT and HT).
    pub fn center_frequency_mhz(&self) -> (f: u32)
        requires
            0 <= spec_center_frequency_mhz(self.spec_frequency_mhz(), self.spec_ies()) <= u32::MAX,
        ensures
            f == spec_center_frequency_mhz(self.spec_frequency_mhz(), self.spec_ies()),
    {
        let primary = self.frequency_mhz;
        if self.channel_width() == ChannelWidth::TwentyMhz {
            return primary;
        }
        let band = self.band();
        let ops = last_operations(self.ies.as_slice());
        if let Some(op) = ops.eht {
            if let Some(info) = op.eht_operation_information {
                if info.ccfs1 != 0 {
                    return Self::chan_to_freq(band, primary, info.ccfs1);
                }
                if info.ccfs0 != 0 {
                    return Self::chan_to_freq(band, primary, info.ccfs0);
                }
            }
        }
        if let Some(op) = ops.he {
            if let Some(six) = &op.six_ghz_operation_information {
                if let Some(c) = Self::segments_center(
                    six.channel_center_frequency_segment_0,
                    six.channel_center_frequency_segment_1,
                ) {
                    return Self::chan_to_freq(band, primary, c);
                }
            }
            if let Some(vht) = &op.vht_operation_information {
                if let Some(c) = Self::segments_center(
                    vht.channel_center_frequency_segment_0,
                    vht.channel_center_frequency_segment_1,
                ) {
                    return Self::chan_to_freq(band, primary, c);
                }
            }
        }
        if let Some(op) = ops.vht {
            let info = &op.vht_operation_information;
            if let Some(c) = Self::segments_center(
                info.channel_center_frequency_segment_0,
                info.channel_center_frequency_segment_1,
            ) {
                return Self::chan_to_freq(band, primary, c);
            }
        }
        if let Some(op) = ops.ht {
            match op.ht_operation_information.secondary_channel_offset() {
                SecondaryChannelOffset::AbovePrimary => return primary + 10,
                SecondaryChannelOffset::BelowPrimary => return primary - 10,
                SecondaryChannelOffset::NoSecondary => {},
            }
        }
        primary
    }

    /// The 802.11 channel number; see `spec_channel_number`.
    pub fn channel_number(&self) -> (c: u8)
        ensures
            c == spec_channel_number(self.spec_frequency_mhz(), self.spec_ies()),
    {
        if let Some(c) = announced_channel(self.ies.as_slice()) {
            return c;
        }
        let freq = self.frequency_mhz;
        if Band::TwoPointFourGhz.contains_freq_mhz(freq) {
            if freq == 2484 {
                14
            } else {
                match freq.checked_sub(2407) {
                    Some(d) => (d / 5) as u8,
                    None => 0,
                }
            }
        } else if Band::FiveGhz.contains_freq_mhz(freq) {
            ((freq - 5000) / 5) as u8
        } else if Band::SixGhz.contains_freq_mhz(freq) {
            match freq.checked_sub(5950) {
                Some(d) => (d / 5) as u8,
                None => 0,
            }
        } else {
            0
        }
    }

    /// The SSID (network name): the text of the first SSID element that holds valid UTF-8 and
    /// does not hide the name; `None` for hidden networks, whose SSID is empty or NUL bytes only.
    pub fn ssid(&self) -> (r: Option<&str>)
        ensures
            r is Some <==> first_named_ssid(self.spec_ies()) is Some,
            r matches Some(s) ==> s.spec_bytes() == first_named_ssid(self.spec_ies())->0,
    {
        named_ssid(self.ies.as_slice())
    }

    /// How busy the channel is, from 0 to 255 (100%), as the first BSS Load element reports
    /// it; `None` without one.
    pub fn channel_utilization(&self) -> (r: Option<u8>)
        ensures
            r == (match first_bss_load(self.spec_ies()) {
                Some(load) => Some(load.channel_utilization),
                None => None,
            }),
    {
        match bss_load(self.ies.as_slice()) {
            Some(load) => Some(load.channel_utilization),
            None => None,
        }
    }

    /// The number of associated stations, as the first BSS Load element reports it; `None`
    /// without one.
    pub fn station_count(&self) -> (r: Option<u16>)
        ensures
            r == (match first_bss_load(self.spec_ies()) {
                Some(load) => Some(load.station_count),
                None => None,
            }),
    {
        match bss_load(self.ies.as_slice()) {
            Some(load) => Some(load.station_count),
            None => None,
        }
    }

}

impl PartialEq for Bss {
    /// Two BSSs are the same BSS when they have the same BSSID.
    fn eq(&self, other: &Bss) -> (b: bool) {
        let mut i: usize = 0;
        while i < 6
            invariant
                i <= 6,
                forall|j: int| 0 <= j < i ==> self.bssid[j] == other.bssid[j],
            decreases 6 - i,
        {
            if self.bssid[i] != other.bssid[i] {
                return false;
            }
            i = i + 1;
        }
        proof {
            assert(self.bssid@ =~= other.bssid@);
        }
        true
    }
}

/// Hashing an array (std's `Hash` for `[T; N]`) feeds its elements to the hasher; nothing is
/// stated of the hasher's state afterwards.
pub assume_specification<Elem: std::hash::Hash, const LEN: usize, Hs: std::hash::Hasher>[<[Elem; LEN] as std::hash::Hash>::hash::<Hs>](
    data: &[Elem; LEN],
    state: &mut Hs,
);

impl core::hash::Hash for Bss {
    /// Hashes the BSSID alone, so that BSSs equal by BSSID hash equally.
    fn hash<H: core::hash::Hasher>(&self, state: &mut H) {
        self.bssid.hash(state);
    }
}

impl vstd::std_specs::cmp::PartialEqSpecImpl for Bss {
    open spec fn obeys_eq_spec() -> bool {
        true
    }

    open spec fn eq_spec(&self, other: &Bss) -> bool {
        self.spec_bssid() == other.spec_bssid()
    }
}

impl Eq for Bss {
}

impl Bss {
    /// The bytes of the frame's information elements: the payload of the attribute that holds
    /// them, or nothing.
    pub open spec fn spec_ie_bytes(attrs: Seq<NlAttribute>) -> Seq<u8> {
        match last_payload(attrs, NL80211_BSS_INFORMATION_ELEMENTS) {
            Some(p) => p,
            None => seq![],
        }
    }

    /// Whether `b` is the BSS that the attributes of a scan result describe, its elements'
    /// dependencies resolved, seen at the boot time `boottime_now_ns` and dated from some UTC
    /// time read from the clock (undated when the clock could not be read).
    pub open spec fn spec_read_from(b: Bss, attrs: Seq<NlAttribute>, boottime_now_ns: u64) -> bool {
        &&& b.spec_bssid() == last_payload(attrs, NL80211_BSS_BSSID)->0.subrange(0, 6)
        &&& b.spec_frequency_mhz() == attr_uint(attrs, NL80211_BSS_FREQUENCY, 4)->0
        &&& b.spec_signal_dbm() == trunc_div(((attr_uint(attrs, NL80211_BSS_SIGNAL_MBM, 4)->0) as u32) as i32 as int, 100)
        &&& b.spec_beacon_interval_tu() == attr_uint(attrs, NL80211_BSS_BEACON_INTERVAL, 2)->0
        &&& b.spec_capability_info().spec_parsed_from(last_payload(attrs, NL80211_BSS_CAPABILITY)->0)
        &&& b.spec_tsf() == attr_uint(attrs, NL80211_BSS_TSF, 8)->0
        &&& spec_optional_attrs_read(b, attrs)
        &&& exists|pre: Seq<Ie>|
            spec_ies_decoded(pre, Self::spec_ie_bytes(attrs)) && #[trigger] spec_dependencies_resolved(pre, b.spec_ies())
        &&& exists|now: Option<UtcTime>|
            (now matches Some(n) ==> chrono_timestamp_valid(n.secs, n.nanos)) && b.spec_last_seen_utc() == #[trigger] spec_last_seen_utc_at(
                b.spec_last_seen_boottime(),
                b.spec_seen_ms_ago(),
                boottime_now_ns,
                now,
            )
        &&& b.spec_link_quality() == 0
        &&& b.spec_noise_dbm() == 0
    }

    /// Reads a required attribute's payload.
    fn required_payload<'a>(
        attrs: &'a [NlAttribute],
        map: &HashMap<u16, &'a [u8]>,
        kind: u16,
        n: usize,
        name: &'static str,
    ) -> (r: Result<&'a [u8], Nl80211ParseError>)
        requires
            keyed_by_type(map@, attrs@),
        ensures
            r is Ok <==> attr_ok(attrs@, kind, n as nat),
            r matches Ok(p) ==> p@ == last_payload(attrs@, kind)->0,
            r matches Err(e) ==> (last_payload(attrs@, kind) is None ==> e == Nl80211ParseError::MissingAttribute(name))
                && (last_payload(attrs@, kind) is Some ==> e == Nl80211ParseError::InvalidPayload(name)),
    {
        match find_payload(map, kind) {
            None => Err(Nl80211ParseError::MissingAttribute(name)),
            Some(p) => if p.len() < n {
                Err(Nl80211ParseError::InvalidPayload(name))
            } else {
                Ok(p)
            },
        }
    }

    /// Makes a BSS from the message of an nl80211 scan result: the command it carries and the
    /// attributes nested in its BSS attribute. The boot time now, in nanoseconds, dates the
    /// BSS when it reports the boot time it was last seen at.
    pub fn try_from_nl80211(cmd: u8, attrs: &[NlAttribute], boottime_now_ns: u64) -> (r: Result<Bss, Nl80211ParseError>)
        ensures
            cmd != NL80211_CMD_NEW_SCAN_RESULTS ==> r == Err::<Bss, Nl80211ParseError>(
                Nl80211ParseError::UnexpectedCommand { expected: NL80211_CMD_NEW_SCAN_RESULTS, got: cmd },
            ),
            cmd == NL80211_CMD_NEW_SCAN_RESULTS && first_required_failure(attrs@) is Some ==> (r matches Err(e)
                && reports_required(e, attrs@, first_required_failure(attrs@)->0)),
            cmd == NL80211_CMD_NEW_SCAN_RESULTS && first_required_failure(attrs@) is None ==> (r matches Ok(b)
                && Self::spec_read_from(b, attrs@, boottime_now_ns)),
    {
        if cmd != NL80211_CMD_NEW_SCAN_RESULTS {
            return Err(Nl80211ParseError::UnexpectedCommand { expected: NL80211_CMD_NEW_SCAN_RESULTS, got: cmd });
        }
        let map = attribute_map(attrs);
        let p = Self::required_payload(attrs, &map, NL80211_BSS_BSSID, 6, "Nl80211Bss::Bssid")?;
        let bssid = match payload_first_six(p) {
            Some(a) => a,
            None => return Err(Nl80211ParseError::InvalidPayload("Nl80211Bss::Bssid")),
        };
        let p = Self::required_payload(attrs, &map, NL80211_BSS_FREQUENCY, 4, "Nl80211Bss::Frequency")?;
        let frequency_mhz = match payload_u32(p) {
            Some(v) => v,
            None => return Err(Nl80211ParseError::InvalidPayload("Nl80211Bss::Frequency")),
        };
        let p = Self::required_payload(attrs, &map, NL80211_BSS_SIGNAL_MBM, 4, "Nl80211Bss::SignalMbm")?;
        let signal_mbm = match payload_u32(p) {
            Some(v) => v as i32 as i64,
            None => return Err(Nl80211ParseError::InvalidPayload("Nl80211Bss::SignalMbm")),
        };
        let signal_dbm = (if signal_mbm >= 0 { signal_mbm / 100 } else { -((-signal_mbm) / 100) }) as i32;
        let p = Self::required_payload(attrs, &map, NL80211_BSS_BEACON_INTERVAL, 2, "Nl80211Bss::BeaconInterval")?;
        let beacon_interval_tu = match payload_u16(p) {
            Some(v) => v,
            None => return Err(Nl80211ParseError::InvalidPayload("Nl80211Bss::BeaconInterval")),
        };
        let p = Self::required_payload(attrs, &map, NL80211_BSS_CAPABILITY, 2, "Nl80211Bss::Capability")?;
        let capability_info = match CapabilityInfo::from_bytes(p) {
            Some(c) => c,
            None => return Err(Nl80211ParseError::InvalidPayload("Nl80211Bss::Capability")),
        };
        let p = Self::required_payload(attrs, &map, NL80211_BSS_TSF, 8, "Nl80211Bss::Tsf")?;
        let tsf = match payload_u64(p) {
            Some(v) => v,
            None => return Err(Nl80211ParseError::InvalidPayload("Nl80211Bss::Tsf")),
        };
        let status = match find_payload(&map, NL80211_BSS_STATUS) {
            Some(p) => match payload_u32(p) {
                Some(v) => BssStatus::from_u32(v),
                None => None,
            },
            None => None,
        };
        let ies = match find_payload(&map, NL80211_BSS_INFORMATION_ELEMENTS) {
            Some(p) => from_bytes(p),
            None => {
                let v = from_bytes(&[]);
                v
            },
        };
        let is_from_probe_response = find_payload(&map, NL80211_BSS_PRESP_DATA).is_some();
        let parent_bssid = match find_payload(&map, NL80211_BSS_PARENT_BSSID) {
            Some(p) => payload_exactly_six(p),
            None => None,
        };
        let parent_tsf = match find_payload(&map, NL80211_BSS_PARENT_TSF) {
            Some(p) => payload_u64(p),
            None => None,
        };
        let beacon_tsf = match find_payload(&map, NL80211_BSS_BEACON_TSF) {
            Some(p) => payload_u64(p),
            None => None,
        };
        let frequency_offset_khz = match find_payload(&map, NL80211_BSS_FREQUENCY_OFFSET) {
            Some(p) => payload_u32(p),
            None => None,
        };
        let signal_percent = match find_payload(&map, NL80211_BSS_SIGNAL_UNSPEC) {
            Some(p) => payload_u8(p),
            None => None,
        };
        let beacon_ies = match find_payload(&map, NL80211_BSS_BEACON_IES) {
            Some(p) => Some(from_bytes(p)),
            None => None,
        };
        let scan_width = match find_payload(&map, NL80211_BSS_CHAN_WIDTH) {
            Some(p) => ScanWidth::from_u32(
                match payload_u32(p) {
                    Some(v) => v,
                    None => 0,
                },
            ),
            None => None,
        };
        let last_seen_boottime = match find_payload(&map, NL80211_BSS_LAST_SEEN_BOOTTIME) {
            Some(p) => payload_u64(p),
            None => None,
        };
        let seen_ms_ago = match find_payload(&map, NL80211_BSS_SEEN_MS_AGO) {
            Some(p) => payload_u32(p),
            None => None,
        };
        let now = utc_now();
        let last_seen_utc = last_seen_utc_at(last_seen_boottime, seen_ms_ago, boottime_now_ns, now);
        let mlo_link_id = match find_payload(&map, NL80211_BSS_MLO_LINK_ID) {
            Some(p) => payload_u8(p),
            None => None,
        };
        let mld_address = match find_payload(&map, NL80211_BSS_MLD_ADDR) {
            Some(p) => payload_exactly_six(p),
            None => None,
        };
        let ghost pre = ies@;
        let mut ies = ies;
        resolve_dependencies(&mut ies);
        let bss = Bss {
            bssid,
            frequency_mhz,
            signal_dbm,
            beacon_interval_tu,
            ies,
            tsf,
            capability_info,
            last_seen_utc,
            status,
            is_from_probe_response,
            parent_bssid,
            parent_tsf,
            beacon_tsf,
            frequency_offset_khz,
            signal_percent,
            beacon_ies,
            scan_width,
            last_seen_boottime,
            seen_ms_ago,
            mlo_link_id,
            mld_address,
            link_quality: 0,
            noise_dbm: 0,
        };
        proof {
            assert(spec_dependencies_resolved(pre, bss.spec_ies()));
            assert(bss.spec_last_seen_utc() == spec_last_seen_utc_at(bss.spec_last_seen_boottime(), bss.spec_seen_ms_ago(), boottime_now_ns, now));
        }
        Ok(bss)
    }
}

/// The fields of a Windows WLAN BSS entry that a BSS is made from, with the bytes of its
/// information elements.
#[derive(Debug, Clone)]
pub struct WlanBssEntry {
    pub bssid: [u8; 6],
    pub center_frequency_khz: u32,
    pub rssi: i32,
    pub beacon_period: u16,
    pub capability_information: u16,
    /// When the entry was received: 100-nanosecond intervals since 1601-01-01 UTC.
    pub host_timestamp: u64,
    pub timestamp: u64,
    pub link_quality: u32,
    pub ies: Vec<u8>,
}

/// The 100-nanosecond intervals between 1601-01-01 (the Windows epoch) and 1970-01-01 (the
/// Unix epoch).
pub const WINDOWS_TO_UNIX_EPOCH_100NS: u64 = 116_444_736_000_000_000;

/// The microseconds since the Unix epoch of a Windows timestamp, 0 for one before the epoch.
pub open spec fn spec_unix_micros(host_timestamp: u64) -> int {
    (if host_timestamp >= WINDOWS_TO_UNIX_EPOCH_100NS { host_timestamp - WINDOWS_TO_UNIX_EPOCH_100NS } else { 0 }) / 10
}

/// The band of a channel, as Core WLAN reports it.
#[derive(Debug, Clone, Copy, PartialEq, Eq, Structural, Hash)]
pub enum ChannelBand {
    Unknown,
    TwoGhz,
    FiveGhz,
    SixGhz,
}

/// The frequency of a channel: channel 14 of the 2.4 GHz band is 2484 MHz, other channels lie
/// 5 MHz apart from 2407 MHz (2.4 GHz band), 5950 MHz (6 GHz band) or 5000 MHz (otherwise).
pub open spec fn spec_channel_to_frequency_mhz(channel: u32, band: ChannelBand) -> int {
    match band {
        ChannelBand::TwoGhz => if channel == 14 {
            2484
        } else {
            2407 + channel * 5
        },
        ChannelBand::SixGhz => 5950 + channel * 5,
        _ => 5000 + channel * 5,
    }
}

/// The frequency of a channel in MHz; see `spec_channel_to_frequency_mhz`. The frequency must
/// fit in 32 bits.
pub fn channel_to_frequency_mhz(channel: u32, band: ChannelBand) -> (f: u32)
    requires
        spec_channel_to_frequency_mhz(channel, band) <= u32::MAX,
    ensures
        f == spec_channel_to_frequency_mhz(channel, band),
{
    match band {
        ChannelBand::TwoGhz => match channel {
            14 => 2484,
            _ => 2407 + channel * 5,
        },
        ChannelBand::SixGhz => 5950 + channel * 5,
        _ => 5000 + channel * 5,
    }
}

/// The fields of a Core WLAN network that a BSS is made from. The beacon interval comes in
/// time units, already converted from the milliseconds Core WLAN reports.
#[derive(Debug, Clone)]
pub struct CoreWlanNetwork {
    pub bssid: Option<[u8; 6]>,
    pub channel: Option<(u32, ChannelBand)>,
    pub information_element_data: Option<Vec<u8>>,
    pub rssi: i32,
    pub beacon_interval_tu: u16,
    pub noise: i32,
}

impl Bss {
    /// Makes a BSS from a Windows WLAN BSS entry: the frequency in whole MHz, the capability
    /// flags from the capability word's bytes (least significant first), the time last seen
    /// from the host timestamp, and the link quality capped at 100.
    pub fn from_wlan_entry(entry: &WlanBssEntry) -> (b: Bss)
        ensures
            b.spec_bssid() == entry.bssid@,
            b.spec_frequency_mhz() == entry.center_frequency_khz / 1000,
            b.spec_signal_dbm() == entry.rssi,
            b.spec_beacon_interval_tu() == entry.beacon_period,
            b.spec_capability_info().spec_parsed_from(le_bytes_u16(entry.capability_information)),
            b.spec_tsf() == entry.timestamp,
            b.spec_link_quality() == (if entry.link_quality > 100 { 100 } else { entry.link_quality }),
            b.spec_last_seen_utc() is Some <==> chrono_timestamp_valid(
                (spec_unix_micros(entry.host_timestamp) / 1_000_000) as i64,
                ((spec_unix_micros(entry.host_timestamp) % 1_000_000) * 1000) as u32,
            ),
            b.spec_last_seen_utc() matches Some(t) ==> t.secs == spec_unix_micros(entry.host_timestamp) / 1_000_000
                && t.nanos == (spec_unix_micros(entry.host_timestamp) % 1_000_000) * 1000,
            exists|pre: Seq<Ie>| spec_ies_decoded(pre, entry.ies@) && #[trigger] spec_dependencies_resolved(pre, b.spec_ies()),
            b.spec_status() is None,
            !b.spec_is_from_probe_response(),
            b.spec_beacon_ies() is None,
            b.spec_noise_dbm() == 0,
    {
        let mut ies = from_bytes(entry.ies.as_slice());
        let ghost pre = ies@;
        resolve_dependencies(&mut ies);
        let cap = u16_le_bytes(entry.capability_information);
        let capability_info = match CapabilityInfo::from_bytes(cap.as_slice()) {
            Some(c) => c,
            None => CapabilityInfo {
                ess: false,
                ibss: false,
                reserved_1: false,
                reserved_2: false,
                privacy: false,
                short_preamble: false,
                critical_update_flag: false,
                nontransmitted_bssids_critical_update_flag: false,
                spectrum_management: false,
                qos: false,
                short_slot_time: false,
                apsd: false,
                radio_measurement: false,
                epd: false,
                reserved_3: false,
                reserved_4: false,
            },
        };
        let since = if entry.host_timestamp >= WINDOWS_TO_UNIX_EPOCH_100NS {
            entry.host_timestamp - WINDOWS_TO_UNIX_EPOCH_100NS
        } else {
            0
        };
        let unix_us = since / 10;
        let last_seen_utc = utc_from_timestamp((unix_us / 1_000_000) as i64, ((unix_us % 1_000_000) * 1_000) as u32);
        let bss = Bss {
            bssid: entry.bssid,
            frequency_mhz: entry.center_frequency_khz / 1_000,
            signal_dbm: entry.rssi,
            beacon_interval_tu: entry.beacon_period,
            ies,
            tsf: entry.timestamp,
            capability_info,
            last_seen_utc,
            status: None,
            is_from_probe_response: false,
            parent_bssid: None,
            parent_tsf: None,
            beacon_tsf: None,
            frequency_offset_khz: None,
            signal_percent: None,
            beacon_ies: None,
            scan_width: None,
            last_seen_boottime: None,
            seen_ms_ago: None,
            mlo_link_id: None,
            mld_address: None,
            link_quality: if entry.link_quality > 100 { 100 } else { entry.link_quality as u8 },
            noise_dbm: 0,
        };
        proof {
            assert(spec_dependencies_resolved(pre, bss.spec_ies()));
        }
        bss
    }

    /// Makes a BSS from a Core WLAN network, with an all-zero BSSID when none is reported;
    /// `None` when the network reports no channel.
    pub fn from_core_wlan_network(network: &CoreWlanNetwork) -> (r: Option<Bss>)
        requires
            network.channel matches Some(c) ==> spec_channel_to_frequency_mhz(c.0, c.1) <= u32::MAX,
        ensures
            r is Some <==> network.channel is Some,
            r matches Some(b) ==> {
                &&& b.spec_bssid() == (match network.bssid {
                    Some(a) => a@,
                    None => seq![0u8, 0u8, 0u8, 0u8, 0u8, 0u8],
                })
                &&& b.spec_frequency_mhz() == spec_channel_to_frequency_mhz((network.channel->0).0, (network.channel->0).1)
                &&& b.spec_signal_dbm() == network.rssi
                &&& b.spec_beacon_interval_tu() == network.beacon_interval_tu
                &&& b.spec_noise_dbm() == network.noise
                &&& exists|pre: Seq<Ie>|
                    spec_ies_decoded(
                        pre,
                        match network.information_element_data {
                            Some(d) => d@,
                            None => seq![],
                        },
                    ) && #[trigger] spec_dependencies_resolved(pre, b.spec_ies())
                &&& b.spec_last_seen_utc() is None
                &&& b.spec_status() is None
                &&& b.spec_beacon_ies() is None
            },
    {
        let bssid = match network.bssid {
            Some(a) => a,
            None => {
                let zero = [0u8, 0u8, 0u8, 0u8, 0u8, 0u8];
                proof {
                    assert(zero@ =~= seq![0u8, 0u8, 0u8, 0u8, 0u8, 0u8]);
                }
                zero
            },
        };
        let (number, band) = match network.channel {
            Some(c) => c,
            None => return None,
        };
        let mut ies = match &network.information_element_data {
            Some(d) => from_bytes(d.as_slice()),
            None => from_bytes(&[]),
        };
        let ghost pre = ies@;
        resolve_dependencies(&mut ies);
        let bss = Bss {
            bssid,
            frequency_mhz: channel_to_frequency_mhz(number, band),
            signal_dbm: network.rssi,
            beacon_interval_tu: network.beacon_interval_tu,
            ies,
            tsf: 0,
            capability_info: CapabilityInfo {
                ess: false,
                ibss: false,
                reserved_1: false,
                reserved_2: false,
                privacy: false,
                short_preamble: false,
                critical_update_flag: false,
                nontransmitted_bssids_critical_update_flag: false,
                spectrum_management: false,
                qos: false,
                short_slot_time: false,
                apsd: false,
                radio_measurement: false,
                epd: false,
                reserved_3: false,
                reserved_4: false,
            },
            last_seen_utc: None,
            status: None,
            is_from_probe_response: false,
            parent_bssid: None,
            parent_tsf: None,
            beacon_tsf: None,
            frequency_offset_khz: None,
            signal_percent: None,
            beacon_ies: None,
            scan_width: None,
            last_seen_boottime: None,
            seen_ms_ago: None,
            mlo_link_id: None,
            mld_address: None,
            link_quality: 0,
            noise_dbm: network.noise,
        };
        proof {
            assert(spec_dependencies_resolved(pre, bss.spec_ies()));
        }
        Some(bss)
    }
}

} // verus!
