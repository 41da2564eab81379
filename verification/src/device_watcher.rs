//! The change-notification bridge: maps the property descriptors a
//! subsystem callback reports to the internal event stream.
//!
//! A callback may report zero, one or several changed properties in one
//! invocation. Each recognised property becomes its own event; unknown
//! properties are skipped. A callback carrying no property list at all is
//! treated conservatively as "something changed, re-check": it publishes a
//! single `DefaultInputChanged`.

use vstd::prelude::*;

use crate::audio_sys::AudioObjectPropertyAddress;
use crate::audio_sys::K_AUDIO_HARDWARE_PROPERTY_DEFAULT_INPUT_DEVICE;
use crate::audio_sys::K_AUDIO_HARDWARE_PROPERTY_DEVICES;
use crate::audio_sys::K_AUDIO_HARDWARE_PROPERTY_SERVICE_RESTARTED;
use crate::controller::AudioEvent;

verus! {

/// The event a recognised property selector maps to.
pub open spec fn event_for_selector(sel: u32) -> Option<AudioEvent> {
    if sel == K_AUDIO_HARDWARE_PROPERTY_DEFAULT_INPUT_DEVICE {
        Some(AudioEvent::DefaultInputChanged)
    } else if sel == K_AUDIO_HARDWARE_PROPERTY_DEVICES {
        Some(AudioEvent::DevicesChanged)
    } else if sel == K_AUDIO_HARDWARE_PROPERTY_SERVICE_RESTARTED {
        Some(AudioEvent::ServiceRestarted)
    } else {
        None
    }
}

/// The events for a non-empty property list: one per recognised selector,
/// in report order.
pub open spec fn mapped_events(addrs: Seq<AudioObjectPropertyAddress>) -> Seq<AudioEvent>
    decreases addrs.len(),
{
    if addrs.len() == 0 {
        Seq::empty()
    } else {
        mapped_events(addrs.drop_last()) + (match event_for_selector(addrs.last().mSelector) {
            Some(e) => seq![e],
            None => Seq::empty(),
        })
    }
}

/// The events one callback invocation publishes: the mapped selectors, or
/// the conservative single `DefaultInputChanged` when no property was
/// reported.
pub open spec fn events_for_addresses(addrs: Seq<AudioObjectPropertyAddress>) -> Seq<AudioEvent> {
    if addrs.len() == 0 {
        seq![AudioEvent::DefaultInputChanged]
    } else {
        mapped_events(addrs)
    }
}

/// Maps one callback's reported property list to the events to publish.
pub fn events_for_properties(addrs: &Vec<AudioObjectPropertyAddress>) -> (r: Vec<AudioEvent>)
    ensures
        r@ == events_for_addresses(addrs@),
{
    let mut out: Vec<AudioEvent> = Vec::new();
    if addrs.len() == 0 {
        out.push(AudioEvent::DefaultInputChanged);
        proof {
            assert(out@ =~= seq![AudioEvent::DefaultInputChanged]);
        }
        return out;
    }
    let n = addrs.len();
    let mut i: usize = 0;
    while i < n
        invariant
            0 <= i <= n,
            n == addrs@.len(),
            out@ == mapped_events(addrs@.take(i as int)),
        decreases n - i,
    {
        let sel = addrs[i].mSelector;
        if sel == K_AUDIO_HARDWARE_PROPERTY_DEFAULT_INPUT_DEVICE {
            out.push(AudioEvent::DefaultInputChanged);
        } else if sel == K_AUDIO_HARDWARE_PROPERTY_DEVICES {
            out.push(AudioEvent::DevicesChanged);
        } else if sel == K_AUDIO_HARDWARE_PROPERTY_SERVICE_RESTARTED {
            out.push(AudioEvent::ServiceRestarted);
        }
        proof {
            assert(addrs@.take(i + 1).drop_last() =~= addrs@.take(i as int));
            assert(addrs@.take(i + 1).last() == addrs@[i as int]);
            assert(out@ =~= mapped_events(addrs@.take(i + 1)));
        }
        i += 1;
    }
    proof {
        assert(addrs@.take(n as int) =~= addrs@);
    }
    out
}

} // verus!
