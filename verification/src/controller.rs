//! The lock controller: holds the lock state and performs the enforcement
//! algorithm — resolve the locked UID, and correct the default input device
//! if it drifted, applying self-suppression so that the echo of a write the
//! controller itself just performed is not treated as new drift.

use vstd::prelude::*;

use crate::audio_manager::AudioError;
use crate::audio_manager::device_id_for_uid;
use crate::audio_manager::fallback_resolution;
use crate::audio_manager::resolution_names;
use crate::audio_sys::AudioDeviceID;
use crate::host::AudioHost;
use crate::host::RawDevice;
use crate::host::dev_uid_is;

verus! {

/// A change reported by the host subsystem, republished on the internal
/// event stream.
#[derive(Debug, Clone, Copy, PartialEq, Eq, Structural)]
pub enum AudioEvent {
    DefaultInputChanged,
    DevicesChanged,
    ServiceRestarted,
}

/// A read-only copy of the lock state, for rendering.
#[derive(Debug, Clone)]
pub struct LockSnapshot {
    pub enabled: bool,
    pub locked_uid: Option<String>,
    pub locked_missing: bool,
}

/// The outcome of one enforcement attempt. `changed` reports a corrective
/// write; `locked_missing` reports that the locked UID resolved to no
/// connected device.
#[derive(Debug, Clone, Copy, PartialEq, Eq, Structural)]
pub struct EnforceResult {
    pub changed: bool,
    pub locked_missing: bool,
}

impl Default for EnforceResult {
    /// The no-op outcome: nothing changed, nothing missing.
    fn default() -> (r: Self)
        ensures
            !r.changed && !r.locked_missing,
    {
        EnforceResult { changed: false, locked_missing: false }
    }
}

/// The lock state: whether enforcement is on, which stable UID is pinned,
/// whether that UID currently resolves to no connected device, and the most
/// recent write this controller itself performed, as (handle, timestamp in
/// milliseconds).
struct LockState {
    enabled: bool,
    locked_uid: Option<String>,
    locked_missing: bool,
    last_self_set: Option<(AudioDeviceID, u64)>,
}

/// How long after a self-performed write a matching notification is treated
/// as an echo of that write rather than new drift, in milliseconds.
pub const SELF_SUPPRESS_MS: u64 = 350;

/// The time elapsed from `t` to `now`, in milliseconds; zero when `now` is
/// not past `t`.
pub open spec fn elapsed_ms(t: u64, now: u64) -> u64 {
    if now >= t {
        (now - t) as u64
    } else {
        0
    }
}

/// The view of an optional UID as a character sequence.
pub open spec fn uid_view(uid: Option<String>) -> Option<Seq<char>> {
    match uid {
        Some(s) => Some(s@),
        None => None,
    }
}

/// The no-op and missing-device outcomes, for stating contracts.
pub open spec fn res_of(changed: bool, locked_missing: bool) -> EnforceResult {
    EnforceResult { changed, locked_missing }
}

/// True when no device in `devs` carries `uid` and none is listed under it:
/// neither resolution tier can name a handle for `uid`.
pub open spec fn uid_absent(devs: Seq<RawDevice>, uid: Seq<char>) -> bool {
    (forall|i: int| 0 <= i < devs.len() ==> !(#[trigger] dev_uid_is(devs[i], uid)))
        && fallback_resolution(devs, uid) is None
}

/// True when every handle UID resolution can name for `uid` is `h`: every
/// device carrying `uid` has handle `h`, and the enumeration tier, if it
/// answers, answers `h`.
pub open spec fn resolves_only_to(devs: Seq<RawDevice>, uid: Seq<char>, h: AudioDeviceID) -> bool {
    (forall|i: int|
        0 <= i < devs.len() && #[trigger] dev_uid_is(devs[i], uid) ==> devs[i].id == h)
        && (fallback_resolution(devs, uid) matches Some(x) ==> x == h)
}

/// The idempotence configuration: enforcement is on, a UID is pinned, and
/// every handle it can resolve to is already the current default.
pub open spec fn already_default(
    en: bool,
    uid: Option<Seq<char>>,
    devs: Seq<RawDevice>,
    dflt: AudioDeviceID,
) -> bool {
    en && (uid matches Some(u) && resolves_only_to(devs, u, dflt))
}

/// The self-suppression configuration: enforcement is on, a UID is pinned,
/// every handle it can resolve to is the one this controller itself wrote
/// last, and that write is within the suppression window.
pub open spec fn within_echo_window(
    en: bool,
    uid: Option<Seq<char>>,
    last: Option<(AudioDeviceID, u64)>,
    devs: Seq<RawDevice>,
    now: u64,
) -> bool {
    en && (uid matches Some(u) && (last matches Some((h, t)) && resolves_only_to(devs, u, h)
        && elapsed_ms(t, now) < SELF_SUPPRESS_MS))
}

/// The missing-device configuration: enforcement is on and the pinned UID
/// is absent from the directory.
pub open spec fn target_absent(en: bool, uid: Option<Seq<char>>, devs: Seq<RawDevice>) -> bool {
    en && (uid matches Some(u) && uid_absent(devs, u))
}

/// The lock controller. One per process; the state is mutated only through
/// the operations below.
pub struct Controller {
    state: LockState,
}

impl Controller {
    /// Whether enforcement is on.
    pub closed spec fn enabled(&self) -> bool {
        self.state.enabled
    }

    /// The pinned stable UID, as a character sequence.
    pub closed spec fn locked_uid(&self) -> Option<Seq<char>> {
        uid_view(self.state.locked_uid)
    }

    /// Whether the most recent resolution attempt for the pinned UID found
    /// no connected device.
    pub closed spec fn locked_missing(&self) -> bool {
        self.state.locked_missing
    }

    /// The most recent write this controller itself performed: the handle
    /// written and when, in milliseconds.
    pub closed spec fn last_self_set(&self) -> Option<(AudioDeviceID, u64)> {
        self.state.last_self_set
    }

    /// A fresh controller, reconstructed from the persisted configuration:
    /// no resolution attempted yet, no self-performed write recorded.
    pub fn new(enabled: bool, locked_uid: Option<String>) -> (r: Self)
        ensures
            r.enabled() == enabled,
            r.locked_uid() == uid_view(locked_uid),
            !r.locked_missing(),
            r.last_self_set() is None,
    {
        Controller {
            state: LockState { enabled, locked_uid, locked_missing: false, last_self_set: None },
        }
    }

    /// A read-only copy of the state for rendering.
    pub fn snapshot(&self) -> (r: LockSnapshot)
        ensures
            r.enabled == self.enabled(),
            uid_view(r.locked_uid) == self.locked_uid(),
            r.locked_missing == self.locked_missing(),
    {
        LockSnapshot {
            enabled: self.state.enabled,
            locked_uid: match &self.state.locked_uid {
                Some(u) => Some(u.clone()),
                None => None,
            },
            locked_missing: self.state.locked_missing,
        }
    }

    /// Turns enforcement on or off. Nothing else changes.
    pub fn set_enabled(&mut self, enabled: bool)
        ensures
            final(self).enabled() == enabled,
            final(self).locked_uid() == old(self).locked_uid(),
            final(self).locked_missing() == old(self).locked_missing(),
            final(self).last_self_set() == old(self).last_self_set(),
    {
        self.state.enabled = enabled;
    }

    /// Pins a new UID (or clears the pin). A fresh selection deserves a
    /// fresh resolution attempt, so the missing flag is cleared
    /// unconditionally.
    pub fn set_locked_uid(&mut self, uid: Option<String>)
        ensures
            final(self).enabled() == old(self).enabled(),
            final(self).locked_uid() == uid_view(uid),
            !final(self).locked_missing(),
            final(self).last_self_set() == old(self).last_self_set(),
    {
        self.state.locked_uid = uid;
        self.state.locked_missing = false;
    }

    /// One enforcement pass: resolve the pinned UID and correct the default
    /// input device if it drifted.
    ///
    /// The contract pins each outcome. Disabled or unpinned: an exact no-op.
    /// A UID absent from the directory: the missing outcome, flag set,
    /// nothing written. A reported change: the default input is now a handle
    /// resolution named for the UID, recorded as this controller's own
    /// write at `now_ms`. No reported change: the subsystem was not written.
    /// A clean no-change success is owed only where no work was due: either
    /// the pass was suppressed (the last self-performed write named a handle
    /// the UID resolves to, within the window), or the default already was
    /// such a handle — a pass cannot silently skip a due correction. On
    /// every enabled, pinned pass the missing flag ends as reported, so a
    /// pass that resolves the UID clears a stale flag even when it writes
    /// nothing. When the UID can only resolve to the handle that is already
    /// the default, no pass writes (idempotence); when it can only resolve
    /// to the handle of a self-performed write within the last
    /// [`SELF_SUPPRESS_MS`] milliseconds, no pass writes or even reads the
    /// default (self-suppression). A propagated subsystem failure leaves
    /// the state and the default untouched.
    pub fn enforce<H: AudioHost>(&mut self, host: &mut H, now_ms: u64) -> (r: Result<
        EnforceResult,
        AudioError,
    >)
        ensures
            final(self).enabled() == old(self).enabled(),
            final(self).locked_uid() == old(self).locked_uid(),
            final(host).devices() == old(host).devices(),
            (!old(self).enabled() || old(self).locked_uid() is None) ==> {
                &&& r == Ok::<EnforceResult, AudioError>(res_of(false, false))
                &&& *final(self) == *old(self)
                &&& *final(host) == *old(host)
            },
            r matches Ok(res) ==> (res.locked_missing ==> {
                &&& !res.changed
                &&& final(self).locked_missing()
                &&& final(self).last_self_set() == old(self).last_self_set()
                &&& *final(host) == *old(host)
            }),
            target_absent(old(self).enabled(), old(self).locked_uid(), old(host).devices()) ==> {
                &&& r == Ok::<EnforceResult, AudioError>(res_of(false, true))
                &&& final(self).locked_missing()
                &&& final(self).last_self_set() == old(self).last_self_set()
                &&& *final(host) == *old(host)
            },
            r matches Ok(res) ==> (res.changed ==> {
                &&& old(self).enabled()
                &&& (old(self).locked_uid() matches Some(u) && resolution_names(
                    old(host).devices(),
                    u,
                    final(host).default_input(),
                ))
                &&& final(host).default_input() != old(host).default_input()
                &&& !final(self).locked_missing()
                &&& !res.locked_missing
                &&& final(self).last_self_set() == Some((final(host).default_input(), now_ms))
            }),
            r matches Ok(res) ==> (!res.changed ==> {
                &&& *final(host) == *old(host)
                &&& final(self).last_self_set() == old(self).last_self_set()
            }),
            r matches Ok(res) ==> (final(self).locked_missing() ==> res.locked_missing || old(
                self,
            ).locked_missing()),
            (old(self).enabled() && old(self).locked_uid() is Some) ==> (r matches Ok(res)
                ==> final(self).locked_missing() == res.locked_missing),
            old(self).locked_uid() matches Some(u) ==> ((old(self).enabled() && r == Ok::<
                EnforceResult,
                AudioError,
            >(res_of(false, false))) ==> {
                ||| (old(self).last_self_set() matches Some((h, t)) && resolution_names(
                    old(host).devices(),
                    u,
                    h,
                ) && elapsed_ms(t, now_ms) < SELF_SUPPRESS_MS)
                ||| resolution_names(old(host).devices(), u, old(host).default_input())
            }),
            already_default(
                old(self).enabled(),
                old(self).locked_uid(),
                old(host).devices(),
                old(host).default_input(),
            ) ==> {
                &&& *final(host) == *old(host)
                &&& (r matches Ok(res) ==> !res.changed)
                &&& final(self).last_self_set() == old(self).last_self_set()
            },
            within_echo_window(
                old(self).enabled(),
                old(self).locked_uid(),
                old(self).last_self_set(),
                old(host).devices(),
                now_ms,
            ) ==> {
                &&& r is Ok
                &&& (r matches Ok(res) ==> !res.changed)
                &&& *final(host) == *old(host)
                &&& final(self).last_self_set() == old(self).last_self_set()
            },
            r is Err ==> {
                &&& *final(self) == *old(self)
                &&& final(host).default_input() == old(host).default_input()
            },
    {
        if !self.state.enabled {
            return Ok(EnforceResult { changed: false, locked_missing: false });
        }
        let locked_uid = match &self.state.locked_uid {
            None => {
                return Ok(EnforceResult { changed: false, locked_missing: false });
            },
            Some(u) => u.clone(),
        };
        let locked_id = match device_id_for_uid(&*host, locked_uid.as_str()) {
            Ok(id) => id,
            Err(_) => {
                self.state.locked_missing = true;
                return Ok(EnforceResult { changed: false, locked_missing: true });
            },
        };
        match self.state.last_self_set {
            Some((id, when)) => {
                if id == locked_id {
                    let elapsed: u64 = if now_ms >= when {
                        now_ms - when
                    } else {
                        0
                    };
                    if elapsed < SELF_SUPPRESS_MS {
                        // The resolution just succeeded, so a stale missing
                        // flag is cleared even though the write is skipped.
                        self.state.locked_missing = false;
                        return Ok(EnforceResult { changed: false, locked_missing: false });
                    }
                }
            },
            None => {},
        }
        let current = match host.get_default_input_device() {
            Ok(c) => c,
            Err(e) => {
                return Err(e);
            },
        };
        if current != locked_id {
            match host.set_default_input_device(locked_id) {
                Ok(()) => {},
                Err(e) => {
                    return Err(e);
                },
            }
            self.state.last_self_set = Some((locked_id, now_ms));
            self.state.locked_missing = false;
            Ok(EnforceResult { changed: true, locked_missing: false })
        } else {
            self.state.locked_missing = false;
            Ok(EnforceResult { changed: false, locked_missing: false })
        }
    }
}

} // verus!
