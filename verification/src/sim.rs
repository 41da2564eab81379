//! An in-memory audio host: a directory snapshot held as plain data, with a
//! switchable translation facility.
//!
//! It implements [`AudioHost`] with every contract proved, which shows the
//! trait's obligations are satisfiable, and it lets the enforcement logic be
//! driven end to end without the real subsystem.

use vstd::prelude::*;

use crate::audio_manager::AudioError;
use crate::audio_sys::AudioDeviceID;
use crate::host::AudioHost;
use crate::host::RawDevice;
use crate::host::dev_uid_is;

verus! {

/// A copy of a raw device record.
fn clone_raw(d: &RawDevice) -> (r: RawDevice)
    ensures
        r == *d,
{
    RawDevice {
        id: d.id,
        name: match &d.name {
            Some(s) => Some(s.clone()),
            None => None,
        },
        uid: match &d.uid {
            Some(s) => Some(s.clone()),
            None => None,
        },
        input_channels: d.input_channels,
        has_input_streams: d.has_input_streams,
    }
}

/// An in-memory host. The fields are open: a caller builds the directory it
/// wants, flips `translation_available` to script the translation facility,
/// and reads `default_input` back after an enforcement pass.
pub struct SimHost {
    pub devices: Vec<RawDevice>,
    pub default_input: AudioDeviceID,
    /// Whether the direct UID-to-handle translation facility answers at
    /// all; when false every translation fails, as it can on the real
    /// subsystem.
    pub translation_available: bool,
}

impl AudioHost for SimHost {
    open spec fn devices(&self) -> Seq<RawDevice> {
        self.devices@
    }

    open spec fn default_input(&self) -> AudioDeviceID {
        self.default_input
    }

    fn enumerate_devices(&self) -> (r: Result<Vec<RawDevice>, AudioError>) {
        let n = self.devices.len();
        let mut out: Vec<RawDevice> = Vec::new();
        let mut i: usize = 0;
        while i < n
            invariant
                0 <= i <= n,
                n == self.devices@.len(),
                out@ == self.devices@.take(i as int),
            decreases n - i,
        {
            out.push(clone_raw(&self.devices[i]));
            proof {
                assert(out@ =~= self.devices@.take(i + 1));
            }
            i += 1;
        }
        proof {
            assert(self.devices@.take(n as int) =~= self.devices@);
        }
        Ok(out)
    }

    fn translate_uid(&self, uid: &str) -> (r: Result<AudioDeviceID, AudioError>) {
        if !self.translation_available {
            return Err(AudioError::OsStatus(-1));
        }
        let key = uid.to_owned();
        let n = self.devices.len();
        let mut i: usize = 0;
        while i < n
            invariant
                0 <= i <= n,
                n == self.devices@.len(),
                key@ == uid@,
            decreases n - i,
        {
            match &self.devices[i].uid {
                Some(u) => {
                    if *u == key {
                        let id = self.devices[i].id;
                        proof {
                            let j = i as int;
                            assert(0 <= j < self.devices().len() && dev_uid_is(
                                self.devices()[j],
                                uid@,
                            ) && self.devices()[j].id == id);
                        }
                        return Ok(id);
                    }
                },
                None => {},
            }
            i += 1;
        }
        Err(AudioError::NotFound)
    }

    fn get_default_input_device(&self) -> (r: Result<AudioDeviceID, AudioError>) {
        Ok(self.default_input)
    }

    fn set_default_input_device(&mut self, id: AudioDeviceID) -> (r: Result<(), AudioError>) {
        self.default_input = id;
        Ok(())
    }
}

} // verus!
