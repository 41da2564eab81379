//! The device directory: enumeration filtering, name/UID lookup, and
//! two-tier UID resolution over an [`crate::host::AudioHost`].
//!
//! Enumeration retains only devices with input capability, determined
//! primarily by the summed channel count of the input stream configuration
//! and, when that query yielded nothing, by the mere presence of input
//! streams. Devices whose name or UID lookup failed get placeholder strings
//! rather than being dropped: partial metadata must not remove a usable
//! device from the list.
//!
//! UID resolution is two-tier: the subsystem's translation facility first,
//! then a full enumeration scan. The second tier exists because the
//! translation facility can be unavailable or unreliable; correctness must
//! not depend on it.

use vstd::prelude::*;

use crate::audio_sys::AudioDeviceID;
use crate::host::AudioHost;
use crate::host::RawDevice;
use crate::host::dev_uid_is;

verus! {

/// A failure reported by the device directory.
///
/// `OsStatus` carries a non-zero subsystem status code, opaque to this
/// layer. `NotFound` marks a well-formed query that legitimately has no
/// answer (an unresolved UID, a device without the requested property).
/// Both are recoverable; no directory operation panics.
#[derive(Clone, Copy, Debug, PartialEq, Eq, Structural)]
pub enum AudioError {
    OsStatus(i32),
    NotFound,
}

/// Maps a subsystem status code to a result: zero is success, anything
/// else is a typed subsystem failure.
pub fn ok(status: i32) -> (r: Result<(), AudioError>)
    ensures
        status == 0 <==> r is Ok,
        r matches Err(e) ==> e == AudioError::OsStatus(status),
{
    if status == 0 {
        Ok(())
    } else {
        Err(AudioError::OsStatus(status))
    }
}

/// One eligible input device, produced fresh on each directory query and
/// never cached across calls (handles can become stale).
#[derive(Debug, Clone)]
pub struct DeviceInfo {
    pub id: AudioDeviceID,
    pub uid: String,
    pub name: String,
    pub input_channels: u32,
}

/// The abstract value of a [`DeviceInfo`]: its strings as character
/// sequences.
pub struct InfoView {
    pub id: AudioDeviceID,
    pub uid: Seq<char>,
    pub name: Seq<char>,
    pub input_channels: u32,
}

impl View for DeviceInfo {
    type V = InfoView;

    open spec fn view(&self) -> InfoView {
        InfoView { id: self.id, uid: self.uid@, name: self.name@, input_channels: self.input_channels }
    }
}

/// A raw device is an eligible input device when its input stream
/// configuration reported at least one channel, or, failing that, when it
/// has at least one input stream.
pub open spec fn eligible(d: RawDevice) -> bool {
    (d.input_channels matches Some(c) && c > 0) || d.has_input_streams
}

/// The channel count that enumeration reports for a raw device: the summed
/// count when the query succeeded, zero otherwise.
pub open spec fn channels_or_zero(d: RawDevice) -> u32 {
    match d.input_channels {
        Some(c) => c,
        None => 0,
    }
}

/// The display name enumeration reports: the queried name, or the
/// placeholder when the query failed.
pub open spec fn display_name(d: RawDevice) -> Seq<char> {
    match d.name {
        Some(n) => n@,
        None => "<unknown>"@,
    }
}

/// The UID enumeration reports: the queried UID, or the placeholder when
/// the query failed.
pub open spec fn display_uid(d: RawDevice) -> Seq<char> {
    match d.uid {
        Some(u) => u@,
        None => "<no-uid>"@,
    }
}

/// The record enumeration produces for one eligible raw device.
pub open spec fn info_of(d: RawDevice) -> InfoView {
    InfoView {
        id: d.id,
        uid: display_uid(d),
        name: display_name(d),
        input_channels: channels_or_zero(d),
    }
}

/// What `list_input_devices` returns for a raw directory: the eligible
/// devices, in enumeration order, with placeholders filled in.
pub open spec fn listed_infos(devs: Seq<RawDevice>) -> Seq<InfoView>
    decreases devs.len(),
{
    if devs.len() == 0 {
        Seq::empty()
    } else {
        let prefix = listed_infos(devs.drop_last());
        if eligible(devs.last()) {
            prefix.push(info_of(devs.last()))
        } else {
            prefix
        }
    }
}

/// The views of a sequence of produced device records.
pub open spec fn infos_view(s: Seq<DeviceInfo>) -> Seq<InfoView> {
    s.map_values(|d: DeviceInfo| d@)
}

/// The first element of `s` satisfying `p`, if any.
pub open spec fn first_where<T>(s: Seq<T>, p: spec_fn(T) -> bool) -> Option<T>
    decreases s.len(),
{
    if s.len() == 0 {
        None
    } else if p(s[0]) {
        Some(s[0])
    } else {
        first_where(s.drop_first(), p)
    }
}

/// When `j` is the first index satisfying `p`, `first_where` picks it.
pub proof fn lemma_first_where_at<T>(s: Seq<T>, p: spec_fn(T) -> bool, j: int)
    requires
        0 <= j < s.len(),
        forall|k: int| 0 <= k < j ==> !p(s[k]),
        p(s[j]),
    ensures
        first_where(s, p) == Some(s[j]),
    decreases j,
{
    if j == 0 {
    } else {
        assert(!p(s[0]));
        assert forall|k: int| 0 <= k < j - 1 implies !p(s.drop_first()[k]) by {
            assert(s.drop_first()[k] == s[k + 1]);
        }
        assert(s.drop_first()[j - 1] == s[j]);
        lemma_first_where_at(s.drop_first(), p, j - 1);
    }
}

/// When nothing in `s` satisfies `p`, `first_where` finds nothing.
pub proof fn lemma_first_where_none<T>(s: Seq<T>, p: spec_fn(T) -> bool)
    requires
        forall|k: int| 0 <= k < s.len() ==> !p(s[k]),
    ensures
        first_where(s, p) is None,
    decreases s.len(),
{
    if s.len() == 0 {
    } else {
        assert(!p(s[0]));
        assert forall|k: int| 0 <= k < s.drop_first().len() implies !p(s.drop_first()[k]) by {
            assert(s.drop_first()[k] == s[k + 1]);
        }
        lemma_first_where_none(s.drop_first(), p);
    }
}

/// When some element of `s` satisfies `p`, `first_where` finds one.
pub proof fn lemma_first_where_finds<T>(s: Seq<T>, p: spec_fn(T) -> bool, j: int)
    requires
        0 <= j < s.len(),
        p(s[j]),
    ensures
        first_where(s, p) is Some,
    decreases j,
{
    if p(s[0]) {
    } else {
        assert(s.drop_first()[j - 1] == s[j]);
        lemma_first_where_finds(s.drop_first(), p, j - 1);
    }
}

/// The first eligible device whose listed UID is `uid`, as enumeration
/// would report it.
pub open spec fn first_info_with_uid(devs: Seq<RawDevice>, uid: Seq<char>) -> Option<InfoView> {
    first_where(listed_infos(devs), |d: InfoView| d.uid == uid)
}

/// The handle that the enumeration-scan tier of UID resolution yields:
/// the first eligible device listed under `uid`, if any.
pub open spec fn fallback_resolution(devs: Seq<RawDevice>, uid: Seq<char>) -> Option<AudioDeviceID> {
    match first_info_with_uid(devs, uid) {
        Some(d) => Some(d.id),
        None => None,
    }
}

/// True when `id` is an answer UID resolution may give for `uid`: either
/// some device carries `uid` as its stable identifier (the translation
/// tier), or the first eligible device listed under `uid` has handle `id`
/// (the enumeration tier).
pub open spec fn resolution_names(devs: Seq<RawDevice>, uid: Seq<char>, id: AudioDeviceID) -> bool {
    (exists|i: int|
        0 <= i < devs.len() && #[trigger] dev_uid_is(devs[i], uid) && devs[i].id == id)
        || fallback_resolution(devs, uid) == Some(id)
}

/// UID resolution fallback law: when some eligible device is listed under
/// `uid`, the enumeration tier names a handle for it, so resolution does
/// not depend on the translation facility: by the contract of
/// `device_id_for_uid`, `NotFound` can only be reported when no eligible
/// device is listed under `uid`.
pub proof fn lemma_fallback_resolution_finds(devs: Seq<RawDevice>, uid: Seq<char>, j: int)
    requires
        0 <= j < listed_infos(devs).len(),
        listed_infos(devs)[j].uid == uid,
    ensures
        fallback_resolution(devs, uid) is Some,
{
    lemma_first_where_finds(listed_infos(devs), |d: InfoView| d.uid == uid, j);
}

/// The summed input channel count of a stream configuration's buffer
/// segments, clamped at the type's top.
pub open spec fn summed_channels(counts: Seq<u32>) -> u32
    decreases counts.len(),
{
    if counts.len() == 0 {
        0u32
    } else {
        let prefix = summed_channels(counts.drop_last());
        if prefix + counts.last() > u32::MAX {
            u32::MAX
        } else {
            (prefix + counts.last()) as u32
        }
    }
}

/// Sums the per-segment channel counts of an input stream configuration,
/// saturating rather than overflowing.
pub fn sum_input_channels(counts: &Vec<u32>) -> (r: u32)
    ensures
        r == summed_channels(counts@),
{
    let n = counts.len();
    let mut total: u32 = 0;
    let mut i: usize = 0;
    while i < n
        invariant
            0 <= i <= n,
            n == counts@.len(),
            total == summed_channels(counts@.take(i as int)),
        decreases n - i,
    {
        total = total.saturating_add(counts[i]);
        proof {
            assert(counts@.take(i + 1).drop_last() =~= counts@.take(i as int));
            assert(counts@.take(i + 1).last() == counts@[i as int]);
        }
        i += 1;
    }
    proof {
        assert(counts@.take(n as int) =~= counts@);
    }
    total
}

/// The first raw device with handle `id`, in enumeration order.
pub open spec fn first_device_with_id(devs: Seq<RawDevice>, id: AudioDeviceID) -> Option<
    RawDevice,
> {
    first_where(devs, |d: RawDevice| d.id == id)
}

/// Enumerates the eligible input devices: every raw device with input
/// capability appears, in enumeration order, with placeholder name and UID
/// where the per-device queries failed.
pub fn list_input_devices<H: AudioHost>(host: &H) -> (r: Result<Vec<DeviceInfo>, AudioError>)
    ensures
        r matches Ok(v) ==> infos_view(v@) == listed_infos(host.devices()),
        r matches Err(e) ==> e is OsStatus,
{
    let raw = match host.enumerate_devices() {
        Ok(raw) => raw,
        Err(e) => return Err(e),
    };
    let n = raw.len();
    let mut out: Vec<DeviceInfo> = Vec::new();
    let mut i: usize = 0;
    while i < n
        invariant
            n == raw@.len(),
            0 <= i <= n,
            raw@ == host.devices(),
            infos_view(out@) == listed_infos(raw@.take(i as int)),
        decreases n - i,
    {
        let d = &raw[i];
        let mut is_input = false;
        let mut input_channels: u32 = 0;
        match d.input_channels {
            Some(c) => {
                input_channels = c;
                if c > 0 {
                    is_input = true;
                }
            },
            None => {},
        }
        if !is_input && d.has_input_streams {
            is_input = true;
        }
        if is_input {
            let name = match &d.name {
                Some(n) => n.clone(),
                None => "<unknown>".to_owned(),
            };
            let uid = match &d.uid {
                Some(u) => u.clone(),
                None => "<no-uid>".to_owned(),
            };
            out.push(DeviceInfo { id: d.id, uid, name, input_channels });
        }
        proof {
            assert(raw@.take(i + 1).drop_last() =~= raw@.take(i as int));
            assert(raw@.take(i + 1).last() == raw@[i as int]);
            assert(infos_view(out@) =~= listed_infos(raw@.take(i + 1)));
        }
        i += 1;
    }
    proof {
        assert(raw@.take(n as int) =~= raw@);
    }
    Ok(out)
}

/// Resolves a stable UID to a device handle: the subsystem's translation
/// facility first, then a full enumeration scan. A matching eligible
/// device is found by the scan even when the translation facility fails.
/// `NotFound` comes back only when the scan ran and no eligible device is
/// listed under `uid`.
pub fn device_id_for_uid<H: AudioHost>(host: &H, uid: &str) -> (r: Result<
    AudioDeviceID,
    AudioError,
>)
    ensures
        r matches Ok(id) ==> resolution_names(host.devices(), uid@, id),
        r matches Err(e) ==> e is OsStatus || fallback_resolution(host.devices(), uid@) is None,
{
    match host.translate_uid(uid) {
        Ok(id) => {
            return Ok(id);
        },
        Err(_) => {},
    }
    let devices = match list_input_devices(host) {
        Ok(v) => v,
        Err(e) => return Err(e),
    };
    let key = uid.to_owned();
    let n = devices.len();
    let mut i: usize = 0;
    while i < n
        invariant
            n == devices@.len(),
            0 <= i <= n,
            key@ == uid@,
            infos_view(devices@) == listed_infos(host.devices()),
            forall|k: int| 0 <= k < i ==> #[trigger] infos_view(devices@)[k].uid != uid@,
        decreases n - i,
    {
        if devices[i].uid == key {
            proof {
                lemma_first_where_at(
                    listed_infos(host.devices()),
                    |d: InfoView| d.uid == uid@,
                    i as int,
                );
            }
            return Ok(devices[i].id);
        }
        i += 1;
    }
    proof {
        lemma_first_where_none(listed_infos(host.devices()), |d: InfoView| d.uid == uid@);
    }
    Err(AudioError::NotFound)
}

/// Looks up the display name of the first enumerated device with handle
/// `device_id`. `NotFound` comes back when no such device is enumerated,
/// or its name query had failed.
pub fn device_name_by_id<H: AudioHost>(host: &H, device_id: AudioDeviceID) -> (r: Result<
    String,
    AudioError,
>)
    ensures
        r matches Ok(n) ==> (first_device_with_id(host.devices(), device_id) matches Some(d)
            && d.name matches Some(nm) && n@ == nm@),
        r matches Err(e) ==> e is OsStatus || (match first_device_with_id(
            host.devices(),
            device_id,
        ) {
            Some(d) => d.name is None,
            None => true,
        }),
{
    let raw = match host.enumerate_devices() {
        Ok(raw) => raw,
        Err(e) => return Err(e),
    };
    let n = raw.len();
    let mut i: usize = 0;
    while i < n
        invariant
            n == raw@.len(),
            0 <= i <= n,
            raw@ == host.devices(),
            forall|k: int| 0 <= k < i ==> #[trigger] raw@[k].id != device_id,
        decreases n - i,
    {
        if raw[i].id == device_id {
            proof {
                lemma_first_where_at(host.devices(), |d: RawDevice| d.id == device_id, i as int);
            }
            return match &raw[i].name {
                Some(nm) => Ok(nm.clone()),
                None => Err(AudioError::NotFound),
            };
        }
        i += 1;
    }
    proof {
        lemma_first_where_none(host.devices(), |d: RawDevice| d.id == device_id);
    }
    Err(AudioError::NotFound)
}

/// Looks up the stable UID of the first enumerated device with handle
/// `device_id`. `NotFound` comes back when no such device is enumerated,
/// or its UID query had failed.
pub fn device_uid_by_id<H: AudioHost>(host: &H, device_id: AudioDeviceID) -> (r: Result<
    String,
    AudioError,
>)
    ensures
        r matches Ok(u) ==> (first_device_with_id(host.devices(), device_id) matches Some(d)
            && d.uid matches Some(du) && u@ == du@),
        r matches Err(e) ==> e is OsStatus || (match first_device_with_id(
            host.devices(),
            device_id,
        ) {
            Some(d) => d.uid is None,
            None => true,
        }),
{
    let raw = match host.enumerate_devices() {
        Ok(raw) => raw,
        Err(e) => return Err(e),
    };
    let n = raw.len();
    let mut i: usize = 0;
    while i < n
        invariant
            n == raw@.len(),
            0 <= i <= n,
            raw@ == host.devices(),
            forall|k: int| 0 <= k < i ==> #[trigger] raw@[k].id != device_id,
        decreases n - i,
    {
        if raw[i].id == device_id {
            proof {
                lemma_first_where_at(host.devices(), |d: RawDevice| d.id == device_id, i as int);
            }
            return match &raw[i].uid {
                Some(du) => Ok(du.clone()),
                None => Err(AudioError::NotFound),
            };
        }
        i += 1;
    }
    proof {
        lemma_first_where_none(host.devices(), |d: RawDevice| d.id == device_id);
    }
    Err(AudioError::NotFound)
}

/// True when `name` is an answer `device_name_for_uid` may give for `uid`:
/// the name of the first device carrying a handle that resolution named,
/// or the listed name of the first eligible device under `uid`.
pub open spec fn name_for_uid_names(devs: Seq<RawDevice>, uid: Seq<char>, name: Seq<char>) -> bool {
    (exists|id: AudioDeviceID|
        #[trigger] resolution_names(devs, uid, id) && (first_device_with_id(devs, id) matches Some(
            d,
        ) && d.name matches Some(nm) && nm@ == name))
        || (first_info_with_uid(devs, uid) matches Some(inf) && inf.name == name)
}

/// Resolves a stable UID to a display name: through the handle that UID
/// resolution yields, then, when that chain fails, by the enumeration
/// scan. `NotFound` comes back only when the scan ran and no eligible
/// device is listed under `uid`.
pub fn device_name_for_uid<H: AudioHost>(host: &H, uid: &str) -> (r: Result<String, AudioError>)
    ensures
        r matches Ok(n) ==> name_for_uid_names(host.devices(), uid@, n@),
        r matches Err(e) ==> e is OsStatus || first_info_with_uid(host.devices(), uid@) is None,
{
    match device_id_for_uid(host, uid) {
        Ok(id) => {
            match device_name_by_id(host, id) {
                Ok(name) => {
                    return Ok(name);
                },
                Err(_) => {},
            }
        },
        Err(_) => {},
    }
    let devices = match list_input_devices(host) {
        Ok(v) => v,
        Err(e) => return Err(e),
    };
    let key = uid.to_owned();
    let n = devices.len();
    let mut i: usize = 0;
    while i < n
        invariant
            n == devices@.len(),
            0 <= i <= n,
            key@ == uid@,
            infos_view(devices@) == listed_infos(host.devices()),
            forall|k: int| 0 <= k < i ==> #[trigger] infos_view(devices@)[k].uid != uid@,
        decreases n - i,
    {
        if devices[i].uid == key {
            proof {
                lemma_first_where_at(
                    listed_infos(host.devices()),
                    |d: InfoView| d.uid == uid@,
                    i as int,
                );
            }
            return Ok(devices[i].name.clone());
        }
        i += 1;
    }
    proof {
        lemma_first_where_none(listed_infos(host.devices()), |d: InfoView| d.uid == uid@);
    }
    Err(AudioError::NotFound)
}

} // verus!
