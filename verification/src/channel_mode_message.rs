//! Channel mode messages.
//!
//! Mode messages travel as controller changes with controller numbers in
//! the reserved range `0x78..=0x7F`; these types name the decoded
//! meanings for callers that interpret that range.  The track decoder
//! itself leaves them as plain controller changes.

use vstd::prelude::*;

verus! {

/// Silence every voice on the channel at once.
#[derive(Clone, Copy, Debug, PartialEq, Eq)]
pub struct AllSoundOff {
    pub channel: u8,
}

/// Return every controller on the channel to its default.
#[derive(Clone, Copy, Debug, PartialEq, Eq)]
pub struct ResetAllControllers {
    pub channel: u8,
}

/// Connect or disconnect the channel's keyboard from its sound source.
#[derive(Clone, Copy, Debug, PartialEq, Eq)]
pub struct LocalControl {
    pub channel: u8,
    pub reconnect: bool,
}

/// Release every note held on the channel.
#[derive(Clone, Copy, Debug, PartialEq, Eq)]
pub struct AllNotesOff {
    pub channel: u8,
}

/// Respond only to messages addressed to the channel.
#[derive(Clone, Copy, Debug, PartialEq, Eq)]
pub struct OmniModeOff {
    pub channel: u8,
}

/// Respond to messages on every channel.
#[derive(Clone, Copy, Debug, PartialEq, Eq)]
pub struct OmniModeOn {
    pub channel: u8,
}

/// One voice per channel, over the given number of channels.
#[derive(Clone, Copy, Debug, PartialEq, Eq)]
pub struct MonoModeOn {
    pub channel: u8,
    pub number: u8,
}

/// Many voices on one channel.
#[derive(Clone, Copy, Debug, PartialEq, Eq)]
pub struct PolyModeOn {
    pub channel: u8,
}

/// One of the channel mode messages.
#[derive(Clone, Copy, Debug, PartialEq, Eq)]
pub enum ModeEventType {
    AllSoundOff(AllSoundOff),
    ResetAllControllers(ResetAllControllers),
    LocalControl(LocalControl),
    AllNotesOff(AllNotesOff),
    OmniModeOff(OmniModeOff),
    OmniModeOn(OmniModeOn),
    MonoModeOn(MonoModeOn),
    PolyModeOn(PolyModeOn),
}

} // verus!
