//! Per-user voice-enhancement sessions.
use vstd::prelude::*;
use std::collections::HashMap;

verus! {

#[derive(Debug, Clone, Copy, PartialEq, Eq, Structural)]
pub enum EnhancementMode {
    Aggressive,
    Balanced,
    StudioQuality,
}

#[derive(Debug, Clone, Copy, PartialEq, Eq, Structural)]
pub enum SampleRate {
    Hz48000,
}

/// How one user's session is processed.
#[derive(Debug, Clone, Copy, PartialEq, Eq, Structural)]
pub struct SessionConfig {
    pub enhancement_mode: EnhancementMode,
    pub low_latency: bool,
}

impl SessionConfig {
    /// Balanced enhancement at normal latency.
    pub fn voice_chat() -> (r: Self)
        ensures
            r == (SessionConfig { enhancement_mode: EnhancementMode::Balanced, low_latency: false }),
    {
        SessionConfig { enhancement_mode: EnhancementMode::Balanced, low_latency: false }
    }

    /// Studio-quality enhancement at normal latency.
    pub fn live_streaming() -> (r: Self)
        ensures
            r == (SessionConfig { enhancement_mode: EnhancementMode::StudioQuality, low_latency: false }),
    {
        SessionConfig { enhancement_mode: EnhancementMode::StudioQuality, low_latency: false }
    }

    pub fn with_low_latency(self) -> (r: Self)
        ensures
            r == (SessionConfig { low_latency: true, ..self }),
    {
        SessionConfig { low_latency: true, ..self }
    }

    pub fn with_enhancement(self, mode: EnhancementMode) -> (r: Self)
        ensures
            r == (SessionConfig { enhancement_mode: mode, ..self }),
    {
        SessionConfig { enhancement_mode: mode, ..self }
    }
}

/// The session settings used for each enhancement mode: aggressive sessions
/// run at low latency, balanced ones as a voice chat, studio-quality ones as a
/// live stream.
pub open spec fn config_for_mode(mode: EnhancementMode) -> SessionConfig {
    match mode {
        EnhancementMode::Aggressive => SessionConfig { enhancement_mode: mode, low_latency: true },
        _ => SessionConfig { enhancement_mode: mode, low_latency: false },
    }
}

/// The session settings for a user who asked for `mode`.
pub fn session_config_for(mode: EnhancementMode) -> (r: SessionConfig)
    ensures
        r == config_for_mode(mode),
{
    match mode {
        EnhancementMode::Aggressive => SessionConfig::voice_chat().with_low_latency().with_enhancement(
            EnhancementMode::Aggressive,
        ),
        EnhancementMode::Balanced => SessionConfig::voice_chat().with_enhancement(EnhancementMode::Balanced),
        EnhancementMode::StudioQuality => SessionConfig::live_streaming().with_enhancement(
            EnhancementMode::StudioQuality,
        ),
    }
}

/// The voice-enhancement engine handle.
pub struct RtxVoice {
    initialized: bool,
}

impl RtxVoice {
    pub closed spec fn spec_initialized(&self) -> bool {
        self.initialized
    }

    pub fn new() -> (r: Self)
        ensures
            r.spec_initialized(),
    {
        RtxVoice { initialized: true }
    }

    pub fn is_initialized(&self) -> (r: bool)
        ensures
            r == self.spec_initialized(),
    {
        self.initialized
    }
}

/// The per-user session table over an enhancement engine.
pub struct PhantomLink {
    rtx_voice: RtxVoice,
    sessions: HashMap<u32, SessionConfig>,
}

impl PhantomLink {
    pub closed spec fn spec_sessions(&self) -> Map<u32, SessionConfig> {
        self.sessions@
    }

    pub fn new(rtx_voice: RtxVoice) -> (r: Self)
        ensures
            r.spec_sessions() == Map::<u32, SessionConfig>::empty(),
    {
        PhantomLink { rtx_voice, sessions: HashMap::new() }
    }

    /// Opens or replaces the session of `user_id`.
    pub fn create_session(&mut self, user_id: u32, config: SessionConfig)
        ensures
            final(self).spec_sessions() == old(self).spec_sessions().insert(user_id, config),
    {
        self.sessions.insert(user_id, config);
    }

    /// The settings of `user_id`'s session, if one is open.
    pub fn get_session(&self, user_id: u32) -> (r: Option<SessionConfig>)
        ensures
            r == (if self.spec_sessions().contains_key(user_id) {
                Some(self.spec_sessions()[user_id])
            } else {
                None
            }),
    {
        match self.sessions.get(&user_id) {
            Some(c) => Some(*c),
            None => None,
        }
    }
}

} // verus!
