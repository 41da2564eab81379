//! Low-level audio-subsystem vocabulary: handle types, property addresses,
//! and the four-character property selector codes.

use vstd::prelude::*;

verus! {

/// A subsystem-scoped device handle. Handles are transient: they may be
/// reused after a reboot, unlike the stable string UID.
pub type AudioDeviceID = u32;

/// A property selector code (a packed four-character tag).
pub type AudioObjectPropertySelector = u32;

/// A (selector, scope, element) triple addressing one property of an
/// audio object.
#[allow(non_snake_case)]
#[derive(Clone, Copy, Debug, PartialEq, Eq, Structural)]
pub struct AudioObjectPropertyAddress {
    pub mSelector: u32,
    pub mScope: u32,
    pub mElement: u32,
}

// Selector and scope constants, each the packed big-endian form of a
// four-character tag.
pub const K_AUDIO_OBJECT_SYSTEM_OBJECT: u32 = 1;

/// "glob"
pub const K_AUDIO_OBJECT_PROPERTY_SCOPE_GLOBAL: u32 = 0x676C6F62;

pub const K_AUDIO_OBJECT_PROPERTY_ELEMENT_MAIN: u32 = 0;

/// "inpt"
pub const K_AUDIO_DEVICE_PROPERTY_SCOPE_INPUT: u32 = 0x696E7074;

/// "dev#"
pub const K_AUDIO_HARDWARE_PROPERTY_DEVICES: u32 = 0x64657623;

/// "dIn "
pub const K_AUDIO_HARDWARE_PROPERTY_DEFAULT_INPUT_DEVICE: u32 = 0x64496E20;

/// "duid"
pub const K_AUDIO_HARDWARE_PROPERTY_DEVICE_FOR_UID: u32 = 0x64756964;

/// "srst"
pub const K_AUDIO_HARDWARE_PROPERTY_SERVICE_RESTARTED: u32 = 0x73727374;

/// "name"
pub const K_AUDIO_OBJECT_PROPERTY_NAME: u32 = 0x6E616D65;

/// "uid "
pub const K_AUDIO_DEVICE_PROPERTY_DEVICE_UID: u32 = 0x75696420;

/// "scfg"
pub const K_AUDIO_DEVICE_PROPERTY_STREAM_CONFIGURATION: u32 = 0x73636667;

/// "stm#"
pub const K_AUDIO_DEVICE_PROPERTY_STREAMS: u32 = 0x73746D23;

/// Packs a four-character tag into its selector code: the first byte is
/// the most significant.
pub fn fourcc(tag: &[u8; 4]) -> (r: u32)
    ensures
        r == tag@[0] * 0x1000000 + tag@[1] * 0x10000 + tag@[2] * 0x100 + tag@[3],
{
    (tag[0] as u32) * 0x1000000 + (tag[1] as u32) * 0x10000 + (tag[2] as u32) * 0x100 + (tag[3]
        as u32)
}

} // verus!
