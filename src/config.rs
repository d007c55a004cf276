//! Voice settings sent along with every speech request.
use vstd::prelude::*;

verus! {

/// How the target application should voice a message.
///
/// Every field is passed through unchanged; the application decides what to
/// do with values outside the ranges below.
#[derive(Debug, Clone, Copy, PartialEq, Eq, Structural)]
pub struct TalkConfig {
    /// Voice database selector; 0 is the application's default.
    pub code: u8,
    /// Voice id; 0 keeps the application's current voice.
    pub voice: i16,
    /// 0 to 100, or -1 for the application's current setting.
    pub volume: i16,
    /// 50 to 300, or -1 for the application's current setting.
    pub speed: i16,
    /// 50 to 200, or -1 for the application's current setting.
    pub tone: i16,
}

/// The settings a fresh configuration starts with.
pub open spec fn default_config() -> TalkConfig {
    TalkConfig { code: 0, voice: 0, volume: 80, speed: 100, tone: 100 }
}

impl Default for TalkConfig {
    fn default() -> (r: Self)
        ensures
            r == default_config(),
    {
        TalkConfig { code: 0, voice: 0, volume: 80, speed: 100, tone: 100 }
    }
}

impl TalkConfig {
    /// A configuration with the default settings.
    pub fn new() -> (r: Self)
        ensures
            r == default_config(),
    {
        TalkConfig { code: 0, voice: 0, volume: 80, speed: 100, tone: 100 }
    }

    /// Sets the voice id, leaving the other fields as they were.
    pub fn set_voice(&mut self, voice: i16) -> (r: &mut Self)
        ensures
            *r == (TalkConfig { voice, ..*old(self) }),
            *final(self) == *final(r),
    {
        self.voice = voice;
        self
    }

    /// Sets the volume, leaving the other fields as they were.
    pub fn set_volume(&mut self, volume: i16) -> (r: &mut Self)
        ensures
            *r == (TalkConfig { volume, ..*old(self) }),
            *final(self) == *final(r),
    {
        self.volume = volume;
        self
    }

    /// Sets the speed, leaving the other fields as they were.
    pub fn set_speed(&mut self, speed: i16) -> (r: &mut Self)
        ensures
            *r == (TalkConfig { speed, ..*old(self) }),
            *final(self) == *final(r),
    {
        self.speed = speed;
        self
    }

    /// Sets the tone, leaving the other fields as they were.
    pub fn set_tone(&mut self, tone: i16) -> (r: &mut Self)
        ensures
            *r == (TalkConfig { tone, ..*old(self) }),
            *final(self) == *final(r),
    {
        self.tone = tone;
        self
    }
}

} // verus!
