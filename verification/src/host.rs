//! The host audio subsystem as a capability trait.
//!
//! Everything the library needs from the subsystem is one of four primitive
//! operations: enumerate the raw device records, translate a UID to a handle
//! through the subsystem's translation facility, and read or write the
//! system-wide default input selector. Each operation may fail at any call
//! (the subsystem is asynchronous and fallible); the contracts state only
//! what a successful answer means against the host's model.

use vstd::prelude::*;

use crate::audio_manager::AudioError;
use crate::audio_sys::AudioDeviceID;

verus! {

/// The raw record of one device as the subsystem reports it, before any
/// eligibility filtering. A `None` in `name`, `uid` or `input_channels`
/// records that the corresponding per-device query failed; partial
/// metadata must not remove a device from enumeration.
pub struct RawDevice {
    pub id: AudioDeviceID,
    /// Display name, when the name query succeeded.
    pub name: Option<String>,
    /// Stable unique identifier, when the UID query succeeded.
    pub uid: Option<String>,
    /// Summed input channel count from the device's input stream
    /// configuration, when that query succeeded.
    pub input_channels: Option<u32>,
    /// Whether the device reports at least one input stream; the fallback
    /// eligibility signal when the channel query yields nothing.
    pub has_input_streams: bool,
}

/// True when the device record `d` carries `uid` as its stable identifier.
pub open spec fn dev_uid_is(d: RawDevice, uid: Seq<char>) -> bool {
    d.uid matches Some(u) && u@ == uid
}

/// The host audio subsystem, modelled as a directory of raw device
/// records plus the system-wide default input handle.
///
/// Reads never change the model. Failures are always possible: no method
/// promises success, only what a success means. The model is a per-pass
/// snapshot: on the live subsystem devices come and go between calls, so
/// what is proved against this trait holds of each pass against the state
/// that pass observed — drift during a pass surfaces as the next change
/// notification and is corrected by the next pass.
pub trait AudioHost: Sized {
    /// The raw device records the subsystem currently knows. The default
    /// leaves the model unspecified, for hosts implemented outside the
    /// library; a host whose contracts are to mean anything overrides it.
    open spec fn devices(&self) -> Seq<RawDevice> {
        arbitrary()
    }

    /// The system-wide default input device handle. Unspecified by
    /// default, as `devices` is.
    open spec fn default_input(&self) -> AudioDeviceID {
        arbitrary()
    }

    /// Enumerates all devices known to the subsystem, eligible or not.
    /// A failure is a subsystem status failure, never `NotFound`.
    fn enumerate_devices(&self) -> (r: Result<Vec<RawDevice>, AudioError>)
        ensures
            r matches Ok(v) ==> v@ == self.devices(),
            r matches Err(e) ==> e is OsStatus,
    ;

    /// Asks the subsystem's direct UID-to-handle translation facility.
    /// The facility can be unavailable or unreliable, so it may fail even
    /// for a connected device; a success names a device that carries the
    /// UID.
    fn translate_uid(&self, uid: &str) -> (r: Result<AudioDeviceID, AudioError>)
        ensures
            r matches Ok(id) ==> exists|i: int|
                0 <= i < self.devices().len() && #[trigger] dev_uid_is(self.devices()[i], uid@)
                    && self.devices()[i].id == id,
    ;

    /// Reads the system-wide default input selector.
    fn get_default_input_device(&self) -> (r: Result<AudioDeviceID, AudioError>)
        ensures
            r matches Ok(id) ==> id == self.default_input(),
    ;

    /// Writes the system-wide default input selector. On success the
    /// default is the written handle; on failure it is unchanged. The
    /// write never alters the device directory itself.
    fn set_default_input_device(&mut self, id: AudioDeviceID) -> (r: Result<(), AudioError>)
        ensures
            final(self).devices() == old(self).devices(),
            r is Ok ==> final(self).default_input() == id,
            r is Err ==> final(self).default_input() == old(self).default_input(),
            r matches Err(e) ==> e is OsStatus,
    ;
}

} // verus!
