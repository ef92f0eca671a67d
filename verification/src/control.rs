//! Runtime-tunable settings and the digital-input edge logic.
//!
//! The control panel selects the waveform type for new voices, selects
//! which envelope parameter is active, and nudges the active parameter by a
//! fixed step within a bounded range. A voice snapshots these settings when
//! it is created; changing them never affects voices already sounding.

use vstd::prelude::*;

use crate::envelope::AdsrParams;
use crate::osc::WaveType;
use crate::AMP_ONE;

verus! {

/// Selector values for the envelope parameter the panel adjusts.
pub const PARAM_ATTACK: u8 = 0;

/// Selector for the decay duration.
pub const PARAM_DECAY: u8 = 1;

/// Selector for the sustain level (selectable, but not adjustable by the
/// step buttons).
pub const PARAM_SUSTAIN: u8 = 2;

/// Selector for the release duration.
pub const PARAM_RELEASE: u8 = 3;

/// Step, in milliseconds, of one adjustment of an envelope duration.
pub const ADJUST_STEP_MS: u64 = 10;

/// A duration is only adjusted while it lies within this range, in
/// milliseconds.
pub const ADJUST_MIN_MS: u64 = 10;

/// Upper bound of the adjustable range, in milliseconds.
pub const ADJUST_MAX_MS: u64 = 990;

/// The shared runtime configuration: waveform type and envelope parameters
/// for new voices, and which envelope parameter the panel currently
/// adjusts.
#[derive(Clone, Copy, Debug)]
pub struct Settings {
    /// Waveform for the next voice.
    pub wave: WaveType,
    /// Which envelope parameter the adjustment buttons act on.
    pub active_param: u8,
    /// Envelope parameters for the next voice.
    pub adsr: AdsrParams,
}

impl Settings {
    /// Well-formedness: a valid selector and well-formed envelope
    /// parameters.
    pub open spec fn inv(self) -> bool {
        &&& (self.active_param as int) < 4
        &&& self.adsr.wf()
    }

    /// The initial settings: triangle wave, attack selected, and a
    /// 10 ms / 10 ms / full-sustain / 10 ms envelope.
    pub fn new() -> (s: Settings)
        ensures
            s.inv(),
            s.wave == WaveType::Triangle,
            s.active_param == PARAM_ATTACK,
            s.adsr == (AdsrParams {
                attack_ms: ADJUST_MIN_MS,
                decay_ms: ADJUST_MIN_MS,
                sustain: AMP_ONE,
                release_ms: ADJUST_MIN_MS,
            }),
    {
        Settings {
            wave: WaveType::Triangle,
            active_param: PARAM_ATTACK,
            adsr: AdsrParams {
                attack_ms: ADJUST_MIN_MS,
                decay_ms: ADJUST_MIN_MS,
                sustain: AMP_ONE,
                release_ms: ADJUST_MIN_MS,
            },
        }
    }

    /// Selects the waveform used for new voices.
    pub fn set_wave(&mut self, wave: WaveType)
        requires
            old(self).inv(),
        ensures
            final(self).inv(),
            *final(self) == (Settings { wave, ..*old(self) }),
    {
        self.wave = wave;
    }

    /// Selects which envelope parameter the adjustment buttons act on.
    pub fn select_param(&mut self, param: u8)
        requires
            old(self).inv(),
            (param as int) < 4,
        ensures
            final(self).inv(),
            *final(self) == (Settings { active_param: param, ..*old(self) }),
    {
        self.active_param = param;
    }

    /// The value, in milliseconds, of the duration a selector addresses;
    /// the sustain selector addresses no duration.
    pub open spec fn spec_param_ms(self, param: u8) -> Option<u64> {
        if param == PARAM_ATTACK {
            Some(self.adsr.attack_ms)
        } else if param == PARAM_DECAY {
            Some(self.adsr.decay_ms)
        } else if param == PARAM_RELEASE {
            Some(self.adsr.release_ms)
        } else {
            None
        }
    }

    /// The settings after one adjustment: the active duration moves one
    /// step up or down if it currently lies within the adjustable range;
    /// otherwise, and for the sustain selector, nothing changes.
    pub open spec fn spec_adjusted(self, increase: bool) -> Settings {
        match self.spec_param_ms(self.active_param) {
            Some(ms) => {
                if ADJUST_MIN_MS <= ms <= ADJUST_MAX_MS {
                    let ms2 = if increase {
                        (ms + ADJUST_STEP_MS) as u64
                    } else {
                        (ms - ADJUST_STEP_MS) as u64
                    };
                    if self.active_param == PARAM_ATTACK {
                        Settings { adsr: AdsrParams { attack_ms: ms2, ..self.adsr }, ..self }
                    } else if self.active_param == PARAM_DECAY {
                        Settings { adsr: AdsrParams { decay_ms: ms2, ..self.adsr }, ..self }
                    } else {
                        Settings { adsr: AdsrParams { release_ms: ms2, ..self.adsr }, ..self }
                    }
                } else {
                    self
                }
            },
            None => self,
        }
    }

    /// Adjusts the active envelope duration by one step, up or down. The
    /// step is applied only while the duration lies within the adjustable
    /// range, and the sustain selector adjusts nothing.
    pub fn adjust_active(&mut self, increase: bool)
        requires
            old(self).inv(),
        ensures
            final(self).inv(),
            *final(self) == old(self).spec_adjusted(increase),
    {
        if self.active_param == PARAM_ATTACK {
            let ms = self.adsr.attack_ms;
            if ADJUST_MIN_MS <= ms && ms <= ADJUST_MAX_MS {
                self.adsr.attack_ms = if increase {
                    ms + ADJUST_STEP_MS
                } else {
                    ms - ADJUST_STEP_MS
                };
            }
        } else if self.active_param == PARAM_DECAY {
            let ms = self.adsr.decay_ms;
            if ADJUST_MIN_MS <= ms && ms <= ADJUST_MAX_MS {
                self.adsr.decay_ms = if increase {
                    ms + ADJUST_STEP_MS
                } else {
                    ms - ADJUST_STEP_MS
                };
            }
        } else if self.active_param == PARAM_RELEASE {
            let ms = self.adsr.release_ms;
            if ADJUST_MIN_MS <= ms && ms <= ADJUST_MAX_MS {
                self.adsr.release_ms = if increase {
                    ms + ADJUST_STEP_MS
                } else {
                    ms - ADJUST_STEP_MS
                };
            }
        }
    }
}

/// Rising-edge detection for one polled digital input: a trigger fires
/// exactly when the level goes from low to high. The caller debounces by
/// pausing after a trigger; the detector itself is pure level logic.
#[derive(Clone, Copy, Debug)]
pub struct EdgeDetector {
    /// The level seen at the previous poll.
    pub prev_high: bool,
}

impl EdgeDetector {
    /// A detector that starts from a low line.
    pub fn new() -> (d: EdgeDetector)
        ensures
            !d.prev_high,
    {
        EdgeDetector { prev_high: false }
    }

    /// Feeds one polled level; fires exactly on a low-to-high transition.
    pub fn observe(&mut self, high: bool) -> (trigger: bool)
        ensures
            trigger == (high && !old(self).prev_high),
            final(self).prev_high == high,
    {
        let trigger = high && !self.prev_high;
        self.prev_high = high;
        trigger
    }
}

} // verus!
