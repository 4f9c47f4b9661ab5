//! The media subsystem's cached view of audio and microphone devices and of
//! the audio volume, with the arithmetic and selection rules for volume
//! changes, cyclic device switching and mute toggles.
//!
//! The cache is refreshed from the output of an external device-listing tool
//! (see the listing module) and from the exit codes of external volume
//! tools; running those tools is the caller's job.

use vstd::prelude::*;
use crate::errors::Error;
use crate::strutil::str_eq;

verus! {

/// The kind of a media device.
#[derive(Debug, Clone, Copy, PartialEq, Eq, Structural)]
pub enum DeviceKind {
    /// A playback (render) device.
    Audio,
    /// A capture (microphone) device.
    Micro,
}

impl DeviceKind {
    /// Whether this is the playback kind.
    pub fn is_audio(&self) -> (r: bool)
        ensures
            r == (*self is Audio),
    {
        match self {
            DeviceKind::Audio => true,
            DeviceKind::Micro => false,
        }
    }

    /// Whether this is the microphone kind.
    pub fn is_micro(&self) -> (r: bool)
        ensures
            r == (*self is Micro),
    {
        match self {
            DeviceKind::Audio => false,
            DeviceKind::Micro => true,
        }
    }
}

/// One enumerated media device. Produced transiently by each enumeration;
/// never persisted.
#[derive(Debug, Clone, PartialEq)]
pub struct Device {
    pub name: String,
    pub kind: DeviceKind,
    pub is_active: bool,
}

/// The mathematical model of a [`Device`].
#[verifier::ext_equal]
pub struct DeviceView {
    pub name: Seq<char>,
    pub kind: DeviceKind,
    pub is_active: bool,
}

impl View for Device {
    type V = DeviceView;

    open spec fn view(&self) -> DeviceView {
        DeviceView { name: self.name@, kind: self.kind, is_active: self.is_active }
    }
}

/// The first active device of a list, if any.
pub open spec fn first_active(s: Seq<Device>) -> Option<Device>
    decreases s.len(),
{
    if s.len() == 0 {
        None
    } else if s[0].is_active {
        Some(s[0])
    } else {
        first_active(s.drop_first())
    }
}

/// The first device of a list carrying the given name, if any.
pub open spec fn find_by_name(s: Seq<Device>, name: Seq<char>) -> Option<Device>
    decreases s.len(),
{
    if s.len() == 0 {
        None
    } else if s[0].name@ == name {
        Some(s[0])
    } else {
        find_by_name(s.drop_first(), name)
    }
}

/// The position of the first active device of a list, if any.
pub open spec fn position_active(s: Seq<Device>) -> Option<int>
    decreases s.len(),
{
    if s.len() == 0 {
        None
    } else if s[0].is_active {
        Some(0)
    } else {
        match position_active(s.drop_first()) {
            Some(i) => Some(i + 1),
            None => None,
        }
    }
}

/// The index cyclic switching starts from: the first active device's
/// position, or 0 when none is active.
pub open spec fn active_index(s: Seq<Device>) -> int {
    match position_active(s) {
        Some(i) => i,
        None => 0,
    }
}

/// The devices of one kind, in enumeration order.
pub open spec fn devices_of_kind(s: Seq<Device>, kind: DeviceKind) -> Seq<Device>
    decreases s.len(),
{
    if s.len() == 0 {
        Seq::empty()
    } else {
        let rest = devices_of_kind(s.drop_last(), kind);
        if s.last().kind == kind {
            rest.push(s.last())
        } else {
            rest
        }
    }
}

/// A volume percentage clamped into 0 through 100.
pub open spec fn spec_clamp_volume(v: int) -> int {
    if v < 0 {
        0
    } else if v > 100 {
        100
    } else {
        v
    }
}

/// The volume percentage the external query tool encodes in its exit code:
/// the code is percent times ten. Readings outside the tool's contract are
/// clamped into range.
pub open spec fn spec_volume_of_code(code: int) -> int {
    if code <= 0 {
        0
    } else if code >= 1000 {
        100
    } else {
        code / 10
    }
}

/// The media subsystem's cached state.
///
/// `devices` and `active` hold the last enumeration result; `volume` holds
/// the last known percentage; `filter_enabled` says whether enumeration
/// hides the virtual mixing device's non-microphone sub-channels.
#[derive(Debug, Clone)]
pub struct Media {
    pub devices: Vec<Device>,
    pub active: Option<Device>,
    pub volume: i32,
    pub filter_enabled: bool,
}

impl Media {
    /// The cache is well formed: the volume percentage is in range.
    pub open spec fn wf(self) -> bool {
        0 <= self.volume <= 100
    }

    /// A fresh, empty cache. The first enumeration fills it.
    pub fn new(filter_enabled: bool) -> (m: Media)
        ensures
            m.wf(),
            m.devices@.len() == 0,
            m.active is None,
            m.volume == 0,
            m.filter_enabled == filter_enabled,
    {
        Media { devices: Vec::new(), active: None, volume: 0, filter_enabled }
    }

    /// The cached device list.
    pub fn get_devices(&self) -> (r: &Vec<Device>)
        ensures
            r@ == self.devices@,
    {
        &self.devices
    }

    /// The cached active audio device, if one was seen.
    pub fn get_active(&self) -> (r: Option<&Device>)
        ensures
            match r {
                Some(d) => self.active matches Some(a) && *d == a,
                None => self.active is None,
            },
    {
        self.active.as_ref()
    }

    /// The cached devices of the playback kind, in enumeration order.
    pub fn get_audio_devices(&self) -> (r: Vec<Device>)
        ensures
            r@ == devices_of_kind(self.devices@, DeviceKind::Audio),
    {
        filter_by_kind(&self.devices, DeviceKind::Audio)
    }

    /// The cached devices of the microphone kind, in enumeration order.
    pub fn get_micro_devices(&self) -> (r: Vec<Device>)
        ensures
            r@ == devices_of_kind(self.devices@, DeviceKind::Micro),
    {
        filter_by_kind(&self.devices, DeviceKind::Micro)
    }

    /// The first active playback device of the cache, or the error saying
    /// none is active.
    pub fn get_active_audio_device(&self) -> (r: Result<Device, Error>)
        ensures
            ({
                let auds = devices_of_kind(self.devices@, DeviceKind::Audio);
                match r {
                    Ok(d) => first_active(auds) == Some(d),
                    Err(e) => first_active(auds) is None && e == Error::ActiveDeviceNotFound,
                }
            }),
    {
        let auds = self.get_audio_devices();
        find_first_active(&auds)
    }

    /// The first active microphone device of the cache, or the error saying
    /// none is active.
    pub fn get_active_micro_device(&self) -> (r: Result<Device, Error>)
        ensures
            ({
                let mics = devices_of_kind(self.devices@, DeviceKind::Micro);
                match r {
                    Ok(d) => first_active(mics) == Some(d),
                    Err(e) => first_active(mics) is None && e == Error::ActiveDeviceNotFound,
                }
            }),
    {
        let mics = self.get_micro_devices();
        find_first_active(&mics)
    }

    /// Replaces the cached volume with the reading the external query tool
    /// encoded in its exit code.
    pub fn update_volume_info(&mut self, exit_code: i32)
        ensures
            final(self).wf(),
            final(self).volume == spec_volume_of_code(exit_code as int),
            final(self).devices@ == old(self).devices@,
            final(self).active == old(self).active,
            final(self).filter_enabled == old(self).filter_enabled,
    {
        self.volume = volume_from_exit_code(exit_code);
    }

    /// The name the volume tools must be pointed at: the cached active audio
    /// device's, or the error saying none is active.
    pub fn active_audio_name(&self) -> (r: Result<String, Error>)
        ensures
            match r {
                Ok(n) => self.active matches Some(d) && n@ == d.name@,
                Err(e) => self.active is None && e == Error::ActiveDeviceNotFound,
            },
    {
        match &self.active {
            Some(d) => Ok(d.name.clone()),
            None => Err(Error::ActiveDeviceNotFound),
        }
    }

    /// Records the outcome of the external volume-set tool: on success the
    /// cache holds the requested percentage (clamped into range) verbatim;
    /// on failure nothing changes and the volume-set error is returned.
    pub fn set_audio_volume(&mut self, volume: i32, tool_ok: bool) -> (r: Result<i32, Error>)
        requires
            old(self).wf(),
        ensures
            final(self).wf(),
            tool_ok ==> {
                &&& r matches Ok(v) && v as int == spec_clamp_volume(volume as int)
                &&& final(self).volume as int == spec_clamp_volume(volume as int)
                &&& final(self).devices@ == old(self).devices@
                &&& final(self).active == old(self).active
                &&& final(self).filter_enabled == old(self).filter_enabled
            },
            !tool_ok ==> r == Result::<i32, Error>::Err(Error::FailedSetVolume) && *final(self)
                == *old(self),
            r matches Ok(v) ==> 0 <= v <= 100,
    {
        if tool_ok {
            let v = clamp_volume(volume);
            self.volume = v;
            Ok(v)
        } else {
            Err(Error::FailedSetVolume)
        }
    }

    /// The argument the external volume-set tool takes for a requested
    /// percentage: the clamped percentage scaled into 0 through 65535.
    pub fn sys_volume_of(volume: i32) -> (r: i32)
        ensures
            r as int == spec_clamp_volume(volume as int) * 65535 / 100,
    {
        let v = clamp_volume(volume);
        (v * 65535) / 100
    }

    /// The percentage a volume raise by `delta` aims for: clamped at 100.
    pub fn increase_audio_volume(&self, delta: i32) -> (t: i32)
        requires
            self.wf(),
            delta >= 0,
        ensures
            t as int == (if self.volume + delta > 100 {
                100int
            } else {
                self.volume + delta
            }),
            0 <= t <= 100,
    {
        if delta > 100 {
            100
        } else if self.volume + delta > 100 {
            100
        } else {
            self.volume + delta
        }
    }

    /// The percentage a volume lowering by `delta` aims for: saturates at 0,
    /// never negative.
    pub fn decrease_audio_volume(&self, delta: i32) -> (t: i32)
        requires
            self.wf(),
            delta >= 0,
        ensures
            t as int == (if self.volume - delta < 0 {
                0int
            } else {
                self.volume - delta
            }),
            0 <= t <= 100,
    {
        if delta > self.volume {
            0
        } else {
            self.volume - delta
        }
    }

    /// The device the playback switch tool must be pointed at for a switch
    /// by name, or the device-not-found error naming the missing device.
    pub fn set_audio_device(&self, name: &str) -> (r: Result<Device, Error>)
        ensures
            ({
                let auds = devices_of_kind(self.devices@, DeviceKind::Audio);
                match r {
                    Ok(d) => find_by_name(auds, name@) == Some(d),
                    Err(e) => find_by_name(auds, name@) is None && (e matches
                        Error::DeviceNotFound(n) && n@ == name@),
                }
            }),
    {
        let auds = self.get_audio_devices();
        find_device_by_name(&auds, name)
    }

    /// The device the capture switch tool must be pointed at for a switch by
    /// name, or the device-not-found error naming the missing device.
    pub fn set_micro_device(&self, name: &str) -> (r: Result<Device, Error>)
        ensures
            ({
                let mics = devices_of_kind(self.devices@, DeviceKind::Micro);
                match r {
                    Ok(d) => find_by_name(mics, name@) == Some(d),
                    Err(e) => find_by_name(mics, name@) is None && (e matches
                        Error::DeviceNotFound(n) && n@ == name@),
                }
            }),
    {
        let mics = self.get_micro_devices();
        find_device_by_name(&mics, name)
    }

    /// The name of the playback device one step forward in cyclic order from
    /// the active one (or from position 0 when none is active), or the error
    /// saying the cache holds no playback device.
    pub fn switch_next_audio_device(&self) -> (r: Result<String, Error>)
        ensures
            ({
                let auds = devices_of_kind(self.devices@, DeviceKind::Audio);
                match r {
                    Ok(n) => auds.len() > 0 && n@ == auds[(active_index(auds) + 1) % (
                    auds.len() as int)].name@,
                    Err(e) => auds.len() == 0 && e == Error::FoundNoDevices,
                }
            }),
    {
        let auds = self.get_audio_devices();
        select_next(&auds)
    }

    /// The name of the playback device one step backward in cyclic order,
    /// wrapping from position 0 to the last device.
    pub fn switch_prev_audio_device(&self) -> (r: Result<String, Error>)
        ensures
            ({
                let auds = devices_of_kind(self.devices@, DeviceKind::Audio);
                match r {
                    Ok(n) => auds.len() > 0 && n@ == auds[(if active_index(auds) == 0 {
                        auds.len() - 1
                    } else {
                        active_index(auds) - 1
                    })].name@,
                    Err(e) => auds.len() == 0 && e == Error::FoundNoDevices,
                }
            }),
    {
        let auds = self.get_audio_devices();
        select_prev(&auds)
    }

    /// The name of the microphone device one step forward in cyclic order.
    pub fn switch_next_micro_device(&self) -> (r: Result<String, Error>)
        ensures
            ({
                let mics = devices_of_kind(self.devices@, DeviceKind::Micro);
                match r {
                    Ok(n) => mics.len() > 0 && n@ == mics[(active_index(mics) + 1) % (
                    mics.len() as int)].name@,
                    Err(e) => mics.len() == 0 && e == Error::FoundNoDevices,
                }
            }),
    {
        let mics = self.get_micro_devices();
        select_next(&mics)
    }

    /// The name of the microphone device one step backward in cyclic order.
    pub fn switch_prev_micro_device(&self) -> (r: Result<String, Error>)
        ensures
            ({
                let mics = devices_of_kind(self.devices@, DeviceKind::Micro);
                match r {
                    Ok(n) => mics.len() > 0 && n@ == mics[(if active_index(mics) == 0 {
                        mics.len() - 1
                    } else {
                        active_index(mics) - 1
                    })].name@,
                    Err(e) => mics.len() == 0 && e == Error::FoundNoDevices,
                }
            }),
    {
        let mics = self.get_micro_devices();
        select_prev(&mics)
    }

    /// The name the mute toggle tool must be pointed at to toggle audio
    /// mute: the cached active audio device's.
    pub fn switch_audio_mute(&self) -> (r: Result<String, Error>)
        ensures
            match r {
                Ok(n) => self.active matches Some(d) && n@ == d.name@,
                Err(e) => self.active is None && e == Error::ActiveDeviceNotFound,
            },
    {
        self.active_audio_name()
    }

    /// The name the mute toggle tool must be pointed at to toggle
    /// microphone mute: the first active microphone device's.
    pub fn switch_micro_mute(&self) -> (r: Result<String, Error>)
        ensures
            ({
                let mics = devices_of_kind(self.devices@, DeviceKind::Micro);
                match r {
                    Ok(n) => first_active(mics) matches Some(d) && n@ == d.name@,
                    Err(e) => first_active(mics) is None && e == Error::ActiveDeviceNotFound,
                }
            }),
    {
        match self.get_active_micro_device() {
            Ok(d) => Ok(d.name),
            Err(e) => Err(e),
        }
    }
}

/// Records the outcome of the external set-default tool for the named
/// device: success, or the switch-failed error naming it.
pub fn confirm_switch(name: &str, tool_ok: bool) -> (r: Result<(), Error>)
    ensures
        tool_ok ==> r is Ok,
        !tool_ok ==> (r matches Err(e) && (e matches Error::FailedSwitchToDevice(n) && n@ == name@)),
{
    if tool_ok {
        Ok(())
    } else {
        Err(Error::FailedSwitchToDevice(name.to_owned()))
    }
}

/// The mute state the external query tool encodes in its exit code: 1 means
/// muted, anything else not muted.
pub fn mute_from_exit_code(exit_code: i32) -> (r: bool)
    ensures
        r == (exit_code == 1),
{
    exit_code == 1
}

/// The volume percentage the external query tool encodes in its exit code.
pub fn volume_from_exit_code(exit_code: i32) -> (r: i32)
    ensures
        r as int == spec_volume_of_code(exit_code as int),
        0 <= r <= 100,
{
    if exit_code <= 0 {
        0
    } else if exit_code >= 1000 {
        100
    } else {
        exit_code / 10
    }
}

/// A volume percentage clamped into 0 through 100.
fn clamp_volume(v: i32) -> (r: i32)
    ensures
        r as int == spec_clamp_volume(v as int),
{
    if v < 0 {
        0
    } else if v > 100 {
        100
    } else {
        v
    }
}

/// The devices of one kind, in order.
fn filter_by_kind(devices: &Vec<Device>, kind: DeviceKind) -> (r: Vec<Device>)
    ensures
        r@ == devices_of_kind(devices@, kind),
{
    let mut r: Vec<Device> = Vec::new();
    let mut i: usize = 0;
    proof {
        assert(devices@.subrange(0, 0) =~= Seq::<Device>::empty());
    }
    while i < devices.len()
        invariant
            i <= devices@.len(),
            r@ == devices_of_kind(devices@.subrange(0, i as int), kind),
        decreases devices@.len() - i,
    {
        let d = &devices[i];
        let keep = match (d.kind, kind) {
            (DeviceKind::Audio, DeviceKind::Audio) => true,
            (DeviceKind::Micro, DeviceKind::Micro) => true,
            _ => false,
        };
        proof {
            assert(devices@.subrange(0, i + 1 as int).drop_last() =~= devices@.subrange(
                0,
                i as int,
            ));
            assert(devices@.subrange(0, i + 1 as int).last() == devices@[i as int]);
        }
        if keep {
            r.push(devices[i].clone_device());
        }
        i = i + 1;
    }
    proof {
        assert(devices@.subrange(0, devices@.len() as int) =~= devices@);
    }
    r
}

impl Device {
    /// A field-for-field copy.
    pub fn clone_device(&self) -> (r: Device)
        ensures
            r == *self,
    {
        Device { name: self.name.clone(), kind: self.kind, is_active: self.is_active }
    }
}

/// The first active device of a list, or the error saying none is active.
fn find_first_active(devices: &Vec<Device>) -> (r: Result<Device, Error>)
    ensures
        match r {
            Ok(d) => first_active(devices@) == Some(d),
            Err(e) => first_active(devices@) is None && e == Error::ActiveDeviceNotFound,
        },
{
    let mut i: usize = 0;
    proof {
        assert(devices@.skip(0) =~= devices@);
    }
    while i < devices.len()
        invariant
            i <= devices@.len(),
            first_active(devices@) == first_active(devices@.skip(i as int)),
        decreases devices@.len() - i,
    {
        proof {
            assert(devices@.skip(i as int)[0] == devices@[i as int]);
            assert(devices@.skip(i as int).drop_first() =~= devices@.skip(i + 1 as int));
        }
        if devices[i].is_active {
            return Ok(devices[i].clone_device());
        }
        i = i + 1;
    }
    proof {
        assert(devices@.skip(i as int) =~= Seq::<Device>::empty());
    }
    Err(Error::ActiveDeviceNotFound)
}

/// The first device of a list carrying the given name, or the
/// device-not-found error naming it.
fn find_device_by_name(devices: &Vec<Device>, name: &str) -> (r: Result<Device, Error>)
    ensures
        match r {
            Ok(d) => find_by_name(devices@, name@) == Some(d),
            Err(e) => find_by_name(devices@, name@) is None && (e matches Error::DeviceNotFound(
                n,
            ) && n@ == name@),
        },
{
    let mut i: usize = 0;
    proof {
        assert(devices@.skip(0) =~= devices@);
    }
    while i < devices.len()
        invariant
            i <= devices@.len(),
            find_by_name(devices@, name@) == find_by_name(devices@.skip(i as int), name@),
        decreases devices@.len() - i,
    {
        proof {
            assert(devices@.skip(i as int)[0] == devices@[i as int]);
            assert(devices@.skip(i as int).drop_first() =~= devices@.skip(i + 1 as int));
        }
        if str_eq(devices[i].name.as_str(), name) {
            return Ok(devices[i].clone_device());
        }
        i = i + 1;
    }
    proof {
        assert(devices@.skip(i as int) =~= Seq::<Device>::empty());
    }
    Err(Error::DeviceNotFound(name.to_owned()))
}

/// The position cyclic switching starts from: the first active device, or 0.
fn find_active_index(devices: &Vec<Device>) -> (r: usize)
    requires
        devices@.len() > 0,
    ensures
        r as int == active_index(devices@),
        r < devices@.len(),
{
    proof {
        lemma_position_active_bounds(devices@);
        assert(devices@.skip(0) =~= devices@);
    }
    let mut i: usize = 0;
    while i < devices.len()
        invariant
            i <= devices@.len(),
            position_active(devices@) matches Some(p) ==> i <= p,
            ({
                let rest = position_active(devices@.skip(i as int));
                match position_active(devices@) {
                    Some(p) => rest == Some(p - i),
                    None => rest is None,
                }
            }),
        decreases devices@.len() - i,
    {
        proof {
            lemma_position_active_bounds(devices@.skip(i + 1 as int));
            assert(devices@.skip(i as int)[0] == devices@[i as int]);
            assert(devices@.skip(i as int).drop_first() =~= devices@.skip(i + 1 as int));
        }
        if devices[i].is_active {
            return i;
        }
        i = i + 1;
    }
    proof {
        assert(devices@.skip(i as int) =~= Seq::<Device>::empty());
    }
    0
}

/// A first-active position is a valid index of the list.
proof fn lemma_position_active_bounds(s: Seq<Device>)
    ensures
        position_active(s) matches Some(p) ==> 0 <= p < s.len(),
    decreases s.len(),
{
    if s.len() > 0 && !s[0].is_active {
        lemma_position_active_bounds(s.drop_first());
    }
}

/// The name one step forward in cyclic order, wrapping past the end.
fn select_next(devices: &Vec<Device>) -> (r: Result<String, Error>)
    ensures
        match r {
            Ok(n) => devices@.len() > 0 && n@ == devices@[(active_index(devices@) + 1) % (
            devices@.len() as int)].name@,
            Err(e) => devices@.len() == 0 && e == Error::FoundNoDevices,
        },
{
    if devices.len() == 0 {
        return Err(Error::FoundNoDevices);
    }
    let cur = find_active_index(devices);
    let next = (cur + 1) % devices.len();
    Ok(devices[next].name.clone())
}

/// The name one step backward in cyclic order, wrapping from the front to
/// the last device.
fn select_prev(devices: &Vec<Device>) -> (r: Result<String, Error>)
    ensures
        match r {
            Ok(n) => devices@.len() > 0 && n@ == devices@[(if active_index(devices@) == 0 {
                devices@.len() - 1
            } else {
                active_index(devices@) - 1
            })].name@,
            Err(e) => devices@.len() == 0 && e == Error::FoundNoDevices,
        },
{
    if devices.len() == 0 {
        return Err(Error::FoundNoDevices);
    }
    let cur = find_active_index(devices);
    let prev = if cur == 0 {
        devices.len() - 1
    } else {
        cur - 1
    };
    Ok(devices[prev].name.clone())
}

} // verus!
