//! Parsing the external device-listing tool's output into the device model.
//!
//! The tool prints comma-separated records. Enumeration strips any leading
//! byte-order mark, reads the records, and classifies each one: the
//! record-type field must say `Device`, the direction field decides the
//! kind (`Render` is playback, `Capture` is microphone, anything else is
//! skipped), and the state and role fields together decide active status.
//! Records with an empty name are dropped, as are, when the filter is
//! enabled, the virtual mixing device's non-microphone sub-channels.

use vstd::prelude::*;
use crate::errors::Error;
use crate::media::Device;
use crate::media::DeviceKind;
use crate::media::DeviceView;
use crate::media::Media;
use crate::strutil::contains_str;
use crate::strutil::spec_contains;
use crate::strutil::spec_strip_bom;
use crate::strutil::str_eq;
use crate::strutil::strip_bom;

verus! {

/// The records (after the header row) that the csv reader draws from a
/// comma-separated text, each a sequence of fields. The reader's behaviour
/// is a function of the text alone, so the result only carries a name here.
pub uninterp spec fn csv_records(s: Seq<char>) -> Seq<Seq<Seq<char>>>;

/// Relies on csv::Reader::from_reader and Reader::records: reads
/// comma-separated text, skipping the header row and any record the reader
/// cannot parse.
#[verifier::external_body]
fn parse_csv_records(text: &str) -> (r: Vec<Vec<String>>)
    ensures
        r.deep_view() == csv_records(text@),
{
    let mut reader = csv::Reader::from_reader(text.as_bytes());
    let mut out: Vec<Vec<String>> = Vec::new();
    for result in reader.records() {
        if let Ok(record) = result {
            out.push(record.iter().map(|field| field.to_string()).collect());
        }
    }
    out
}

/// The device one record describes, if any: the record-type field must say
/// `Device`, the direction field picks the kind, the state and role fields
/// decide active status, empty names are dropped, and the enabled filter
/// drops the virtual mixer's non-microphone sub-channels.
pub open spec fn record_device(rec: Seq<Seq<char>>, filter_enabled: bool) -> Option<DeviceView> {
    if rec.len() > 2 && rec[1] == "Device"@ && (rec[2] == "Render"@ || rec[2] == "Capture"@) {
        let kind = if rec[2] == "Render"@ {
            DeviceKind::Audio
        } else {
            DeviceKind::Micro
        };
        let name = rec[0];
        let is_active = rec.len() > 7 && rec[7] == "Active"@ && (rec[5] == "Render"@ || rec[5]
            == "Capture"@);
        if name.len() == 0 {
            None
        } else if filter_enabled && spec_contains(name, "SteelSeries Sonar"@) && !(kind is Micro) {
            None
        } else {
            Some(DeviceView { name, kind, is_active })
        }
    } else {
        None
    }
}

/// The devices a record list describes, in record order.
pub open spec fn spec_devices_of(records: Seq<Seq<Seq<char>>>, filter_enabled: bool) -> Seq<
    DeviceView,
>
    decreases records.len(),
{
    if records.len() == 0 {
        Seq::empty()
    } else {
        let rest = spec_devices_of(records.drop_last(), filter_enabled);
        match record_device(records.last(), filter_enabled) {
            Some(d) => rest.push(d),
            None => rest,
        }
    }
}

/// The first device of a list that is active and of the playback kind.
pub open spec fn first_active_audio(devs: Seq<DeviceView>) -> Option<DeviceView>
    decreases devs.len(),
{
    if devs.len() == 0 {
        None
    } else if devs[0].is_active && devs[0].kind is Audio {
        Some(devs[0])
    } else {
        first_active_audio(devs.drop_first())
    }
}

/// Appending a device changes the first active playback device only when
/// there was none.
proof fn lemma_first_active_audio_push(s: Seq<DeviceView>, d: DeviceView)
    ensures
        first_active_audio(s.push(d)) == (if first_active_audio(s) is Some {
            first_active_audio(s)
        } else if d.is_active && d.kind is Audio {
            Some(d)
        } else {
            None
        }),
    decreases s.len(),
{
    if s.len() == 0 {
        assert(s.push(d)[0] == d);
        assert(s.push(d).drop_first() =~= Seq::<DeviceView>::empty());
    } else {
        assert(s.push(d)[0] == s[0]);
        assert(s.push(d).drop_first() =~= s.drop_first().push(d));
        lemma_first_active_audio_push(s.drop_first(), d);
    }
}

/// Parses one run of the device-listing tool's output: strips any leading
/// byte-order mark, reads the comma-separated records, and classifies each
/// into a device. Returns the first active playback device (if any) and the
/// full device list; a listing that yields zero devices is an error of its
/// own.
pub fn parse_device_listing(listing: &str, filter_enabled: bool) -> (r: Result<
    (Option<Device>, Vec<Device>),
    Error,
>)
    ensures
        ({
            let devs = spec_devices_of(csv_records(spec_strip_bom(listing@)), filter_enabled);
            match r {
                Ok((active, devices)) => {
                    &&& devs.len() > 0
                    &&& devices@.map_values(|d: Device| d@) == devs
                    &&& match active {
                        Some(a) => first_active_audio(devs) == Some(a@),
                        None => first_active_audio(devs) is None,
                    }
                },
                Err(e) => devs.len() == 0 && e == Error::FoundNoDevices,
            }
        }),
{
    let clean = strip_bom(listing);
    let records = parse_csv_records(clean);
    let ghost recs = records.deep_view();
    let mut devices: Vec<Device> = Vec::new();
    let mut active: Option<Device> = None;
    let mut i: usize = 0;
    proof {
        assert(recs.subrange(0, 0) =~= Seq::<Seq<Seq<char>>>::empty());
        assert(devices@.map_values(|d: Device| d@) =~= spec_devices_of(
            recs.subrange(0, 0),
            filter_enabled,
        ));
    }
    while i < records.len()
        invariant
            i <= records@.len(),
            recs == records.deep_view(),
            recs.len() == records@.len(),
            devices@.map_values(|d: Device| d@) == spec_devices_of(
                recs.subrange(0, i as int),
                filter_enabled,
            ),
            match active {
                Some(a) => first_active_audio(
                    spec_devices_of(recs.subrange(0, i as int), filter_enabled),
                ) == Some(a@),
                None => first_active_audio(
                    spec_devices_of(recs.subrange(0, i as int), filter_enabled),
                ) is None,
            },
        decreases records@.len() - i,
    {
        let ghost prefix = recs.subrange(0, i as int);
        let ghost prefix1 = recs.subrange(0, i + 1 as int);
        proof {
            assert(prefix1.drop_last() =~= prefix);
            assert(prefix1.last() == recs[i as int]);
        }
        let rec = &records[i];
        let keep: Option<Device> = classify_record(rec, filter_enabled);
        proof {
            assert(recs[i as int] == records@[i as int].deep_view());
        }
        match keep {
            Some(d) => {
                proof {
                    assert(record_device(recs[i as int], filter_enabled) == Some(d@));
                    assert((devices@.push(d)).map_values(|x: Device| x@) =~= devices@.map_values(
                        |x: Device| x@,
                    ).push(d@));
                    lemma_first_active_audio_push(
                        spec_devices_of(prefix, filter_enabled),
                        d@,
                    );
                }
                let set_active = match &active {
                    None => d.is_active && d.kind.is_audio(),
                    Some(_) => false,
                };
                if set_active {
                    active = Some(d.clone_device());
                }
                devices.push(d);
            },
            None => {
                proof {
                    assert(record_device(recs[i as int], filter_enabled) is None);
                }
            },
        }
        i = i + 1;
    }
    proof {
        assert(recs.subrange(0, recs.len() as int) =~= recs);
    }
    if devices.is_empty() {
        return Err(Error::FoundNoDevices);
    }
    Ok((active, devices))
}

/// Classifies one record, handing back the device it describes, if any.
fn classify_record(rec: &Vec<String>, filter_enabled: bool) -> (r: Option<Device>)
    ensures
        match r {
            Some(d) => record_device(rec.deep_view(), filter_enabled) == Some(d@),
            None => record_device(rec.deep_view(), filter_enabled) is None,
        },
{
    if !(rec.len() > 2 && str_eq(rec[1].as_str(), "Device")) {
        return None;
    }
    let is_render = str_eq(rec[2].as_str(), "Render");
    let is_capture = str_eq(rec[2].as_str(), "Capture");
    if !(is_render || is_capture) {
        return None;
    }
    let kind = if is_render {
        DeviceKind::Audio
    } else {
        DeviceKind::Micro
    };
    let is_active = rec.len() > 7 && str_eq(rec[7].as_str(), "Active") && (str_eq(
        rec[5].as_str(),
        "Render",
    ) || str_eq(rec[5].as_str(), "Capture"));
    if rec[0].as_str().is_empty() {
        return None;
    }
    if filter_enabled && contains_str(rec[0].as_str(), "SteelSeries Sonar") && !kind.is_micro() {
        return None;
    }
    Some(Device { name: rec[0].clone(), kind, is_active })
}

impl Media {
    /// Replaces the cached device list and active device with what one run
    /// of the device-listing tool's output describes. A listing that yields
    /// zero devices is rejected and leaves the cache unchanged.
    pub fn update_devices_info(&mut self, listing: &str) -> (r: Result<(), Error>)
        requires
            old(self).wf(),
        ensures
            final(self).wf(),
            ({
                let devs = spec_devices_of(
                    csv_records(spec_strip_bom(listing@)),
                    old(self).filter_enabled,
                );
                match r {
                    Ok(_) => {
                        &&& devs.len() > 0
                        &&& final(self).devices@.map_values(|d: Device| d@) == devs
                        &&& match final(self).active {
                            Some(a) => first_active_audio(devs) == Some(a@),
                            None => first_active_audio(devs) is None,
                        }
                        &&& final(self).volume == old(self).volume
                        &&& final(self).filter_enabled == old(self).filter_enabled
                    },
                    Err(e) => {
                        &&& e == Error::FoundNoDevices
                        &&& devs.len() == 0
                        &&& *final(self) == *old(self)
                    },
                }
            }),
    {
        match parse_device_listing(listing, self.filter_enabled) {
            Ok((active, devices)) => {
                self.devices = devices;
                self.active = active;
                Ok(())
            },
            Err(e) => Err(e),
        }
    }
}

} // verus!
