//! Voice pool, note registry and sustain manager.
//!
//! The engine owns a fixed pool of `MAX_POLYPHONY` playback slots, a registry
//! mapping each note identifier to the slot of its live voice, and the set of
//! notes whose note-off is deferred while the sustain control is held. It
//! routes the four event kinds — note-on, note-off, sustain control and pitch
//! bend — and runs the per-tick work the render loop drives: envelope ticks
//! (freeing a slot whose release has completed), frequency smoothing, and
//! sample production.

use vstd::prelude::*;

use crate::envelope::AdsrParams;
use crate::osc::WaveType;
use crate::voice::spec_new_voice;
use crate::voice::Voice;
use crate::FREQ_LIMIT;
use crate::FREQ_UNITS_PER_HZ;
use crate::MAX_POLYPHONY;
use crate::NOTE_COUNT;

verus! {

/// One playback slot: empty, playing a voice, or holding a paused voice
/// (reached only through external stop semantics, and reclaimable).
#[derive(Clone, Copy, Debug)]
pub enum SlotEntry {
    Idle,
    Busy(Voice),
    Paused(Voice),
}

impl SlotEntry {
    /// The voice held in this slot, if any.
    pub open spec fn voice(self) -> Option<Voice> {
        match self {
            SlotEntry::Idle => None,
            SlotEntry::Busy(v) => Some(v),
            SlotEntry::Paused(v) => Some(v),
        }
    }

    /// Whether the slot holds a voice at all.
    pub open spec fn occupied(self) -> bool {
        !(self is Idle)
    }

    /// The slot with a release requested on its voice, if it holds one.
    pub open spec fn released(self) -> SlotEntry {
        match self {
            SlotEntry::Idle => SlotEntry::Idle,
            SlotEntry::Busy(v) => SlotEntry::Busy(v.spec_release()),
            SlotEntry::Paused(v) => SlotEntry::Paused(v.spec_release()),
        }
    }
}

/// What a note-on did: started a fresh voice in a slot, retriggered the
/// note's already sounding voice in its own slot, or was dropped because
/// the polyphony limit was reached.
#[derive(Clone, Copy, Debug, PartialEq, Eq, Structural)]
pub enum NoteOnOutcome {
    Started(usize),
    Retriggered(usize),
    Dropped,
}

/// The voice/polyphony engine: pool, registry and sustain set.
pub struct Engine {
    /// The fixed pool of playback slots.
    pub slots: Vec<SlotEntry>,
    /// For each note identifier, the slot of its registered voice.
    pub notes: Vec<Option<usize>>,
    /// Which notes are held by the sustain control.
    pub sustained: Vec<bool>,
}

impl Engine {
    /// Well-formedness: the three tables have their fixed lengths, every
    /// held voice is well-formed and knows its slot, every registry entry
    /// points at a voice for that very note, and only registered notes are
    /// sustained.
    pub open spec fn inv(self) -> bool {
        &&& self.slots@.len() == MAX_POLYPHONY as int
        &&& self.notes@.len() == NOTE_COUNT as int
        &&& self.sustained@.len() == NOTE_COUNT as int
        &&& forall|i: int|
            0 <= i < MAX_POLYPHONY as int ==> ((#[trigger] self.slots@[i]).voice() matches Some(v)
                ==> v.inv() && v.slot == i)
        &&& forall|n: int|
            0 <= n < NOTE_COUNT as int ==> ((#[trigger] self.notes@[n]) matches Some(i) ==> {
                &&& (i as int) < MAX_POLYPHONY as int
                &&& (self.slots@[i as int].voice() matches Some(v) && v.note == n)
            })
        &&& forall|n: int|
            0 <= n < NOTE_COUNT as int ==> ((#[trigger] self.sustained@[n])
                ==> self.notes@[n] is Some)
    }

    /// Some slot is idle.
    pub open spec fn has_idle(self) -> bool {
        exists|i: int| 0 <= i < MAX_POLYPHONY as int && (#[trigger] self.slots@[i]) is Idle
    }

    /// Some slot holds a paused voice.
    pub open spec fn has_paused(self) -> bool {
        exists|i: int| 0 <= i < MAX_POLYPHONY as int && (#[trigger] self.slots@[i]) is Paused
    }

    /// No slot can take a new voice: nothing idle and nothing paused to
    /// reclaim. A note-on in this state is dropped.
    pub open spec fn pool_full(self) -> bool {
        !self.has_idle() && !self.has_paused()
    }

    /// A fresh engine: every slot idle, no note registered, none sustained.
    pub fn new() -> (e: Engine)
        ensures
            e.inv(),
            forall|i: int| 0 <= i < MAX_POLYPHONY as int ==> (#[trigger] e.slots@[i]) is Idle,
            forall|n: int| 0 <= n < NOTE_COUNT as int ==> (#[trigger] e.notes@[n]) is None,
            forall|n: int| 0 <= n < NOTE_COUNT as int ==> !(#[trigger] e.sustained@[n]),
    {
        let mut slots: Vec<SlotEntry> = Vec::new();
        let mut i: usize = 0;
        while i < MAX_POLYPHONY
            invariant
                i <= MAX_POLYPHONY,
                slots@.len() == i as int,
                forall|j: int| 0 <= j < i as int ==> (#[trigger] slots@[j]) is Idle,
            decreases MAX_POLYPHONY - i,
        {
            slots.push(SlotEntry::Idle);
            i = i + 1;
        }
        let mut notes: Vec<Option<usize>> = Vec::new();
        let mut n: usize = 0;
        while n < NOTE_COUNT
            invariant
                n <= NOTE_COUNT,
                notes@.len() == n as int,
                forall|j: int| 0 <= j < n as int ==> (#[trigger] notes@[j]) is None,
            decreases NOTE_COUNT - n,
        {
            notes.push(None);
            n = n + 1;
        }
        let mut sustained: Vec<bool> = Vec::new();
        let mut m: usize = 0;
        while m < NOTE_COUNT
            invariant
                m <= NOTE_COUNT,
                sustained@.len() == m as int,
                forall|j: int| 0 <= j < m as int ==> !(#[trigger] sustained@[j]),
            decreases NOTE_COUNT - m,
        {
            sustained.push(false);
            m = m + 1;
        }
        Engine { slots, notes, sustained }
    }

    /// The allocation policy of the voice pool: the lowest idle slot if any
    /// slot is idle, else the lowest paused slot to reclaim, else `None`
    /// (the pool is exhausted). Never blocks; one pass over the pool per
    /// preference.
    pub fn find_slot(&self) -> (r: Option<usize>)
        requires
            self.inv(),
        ensures
            r is None <==> self.pool_full(),
            r matches Some(i) ==> {
                &&& (i as int) < MAX_POLYPHONY as int
                &&& (self.slots@[i as int] is Idle ==> forall|j: int|
                    0 <= j < i as int ==> !((#[trigger] self.slots@[j]) is Idle))
                &&& (!(self.slots@[i as int] is Idle) ==> {
                    &&& self.slots@[i as int] is Paused
                    &&& !self.has_idle()
                    &&& forall|j: int|
                        0 <= j < i as int ==> !((#[trigger] self.slots@[j]) is Paused)
                })
            },
    {
        let mut i: usize = 0;
        while i < MAX_POLYPHONY
            invariant
                self.inv(),
                i <= MAX_POLYPHONY,
                forall|j: int| 0 <= j < i as int ==> !((#[trigger] self.slots@[j]) is Idle),
            decreases MAX_POLYPHONY - i,
        {
            match self.slots[i] {
                SlotEntry::Idle => {
                    return Some(i);
                },
                _ => {},
            }
            i = i + 1;
        }
        let mut k: usize = 0;
        while k < MAX_POLYPHONY
            invariant
                self.inv(),
                k <= MAX_POLYPHONY,
                !self.has_idle(),
                forall|j: int| 0 <= j < k as int ==> !((#[trigger] self.slots@[j]) is Paused),
            decreases MAX_POLYPHONY - k,
        {
            match self.slots[k] {
                SlotEntry::Paused(_) => {
                    return Some(k);
                },
                _ => {},
            }
            k = k + 1;
        }
        None
    }

    /// Routes a note-on event. If the note already has a live voice, its
    /// sound is retriggered in its own slot — no new slot is allocated.
    /// Otherwise a slot is taken by the pool policy (`find_slot`) and a
    /// fresh voice is started there with the given base frequency, the
    /// current waveform and the current envelope parameters; a voice stolen
    /// from a paused slot is discarded together with its registry entry.
    /// When the pool is exhausted the event is dropped and nothing changes.
    pub fn note_on(&mut self, note: u8, freq: i64, wave: WaveType, params: AdsrParams) -> (r:
        NoteOnOutcome)
        requires
            old(self).inv(),
            (note as int) < NOTE_COUNT as int,
            1 <= freq <= FREQ_LIMIT,
            params.wf(),
        ensures
            final(self).inv(),
            old(self).notes@[note as int] matches Some(i) ==> {
                &&& r == NoteOnOutcome::Retriggered(i)
                &&& final(self).slots@[i as int] == SlotEntry::Busy(
                    old(self).slots@[i as int].voice()->Some_0.spec_retrigger(),
                )
                &&& forall|j: int|
                    0 <= j < MAX_POLYPHONY as int && j != i as int ==> final(self).slots@[j] == (
                    #[trigger] old(self).slots@[j])
                &&& final(self).notes@ == old(self).notes@
                &&& final(self).sustained@ == old(self).sustained@
            },
            old(self).notes@[note as int] is None && old(self).pool_full() ==> {
                &&& r == NoteOnOutcome::Dropped
                &&& final(self).slots@ == old(self).slots@
                &&& final(self).notes@ == old(self).notes@
                &&& final(self).sustained@ == old(self).sustained@
            },
            old(self).notes@[note as int] is None && !old(self).pool_full() ==> (r matches
                NoteOnOutcome::Started(i) && {
                &&& (i as int) < MAX_POLYPHONY as int
                &&& (old(self).slots@[i as int] is Idle || (old(self).slots@[i as int] is Paused
                    && !old(self).has_idle()))
                &&& (old(self).slots@[i as int] is Idle ==> forall|j: int|
                    0 <= j < i as int ==> !((#[trigger] old(self).slots@[j]) is Idle))
                &&& (old(self).slots@[i as int] is Paused ==> forall|j: int|
                    0 <= j < i as int ==> !((#[trigger] old(self).slots@[j]) is Paused))
                &&& final(self).slots@[i as int] == SlotEntry::Busy(
                    spec_new_voice(note, i, freq, wave, params),
                )
                &&& forall|j: int|
                    0 <= j < MAX_POLYPHONY as int && j != i as int ==> final(self).slots@[j] == (
                    #[trigger] old(self).slots@[j])
                &&& final(self).notes@[note as int] == Some(i)
                &&& forall|n: int|
                    0 <= n < NOTE_COUNT as int && n != note as int
                        ==> (#[trigger] final(self).notes@[n]) == (if old(self).notes@[n] == Some(
                        i,
                    ) {
                        Option::<usize>::None
                    } else {
                        old(self).notes@[n]
                    })
                &&& forall|n: int|
                    0 <= n < NOTE_COUNT as int ==> (#[trigger] final(self).sustained@[n]) == (if n
                        != note as int && old(self).notes@[n] == Some(i) {
                        false
                    } else {
                        old(self).sustained@[n]
                    })
            }),
    {
        match self.notes[note as usize] {
            Some(i) => {
                match self.slots[i] {
                    SlotEntry::Busy(v0) => {
                        let mut v = v0;
                        v.retrigger();
                        self.slots[i] = SlotEntry::Busy(v);
                    },
                    SlotEntry::Paused(v0) => {
                        let mut v = v0;
                        v.retrigger();
                        self.slots[i] = SlotEntry::Busy(v);
                    },
                    SlotEntry::Idle => {
                        proof {
                            assert(false);
                        }
                    },
                }
                NoteOnOutcome::Retriggered(i)
            },
            None => {
                match self.find_slot() {
                    Some(i) => {
                        match self.slots[i] {
                            SlotEntry::Paused(w) => {
                                let wn = w.note as usize;
                                match self.notes[wn] {
                                    Some(j) => {
                                        if j == i {
                                            self.notes[wn] = None;
                                            self.sustained[wn] = false;
                                        }
                                    },
                                    None => {},
                                }
                            },
                            _ => {},
                        }
                        let v = Voice::new(note, i, freq, wave, params);
                        self.slots[i] = SlotEntry::Busy(v);
                        self.notes[note as usize] = Some(i);
                        NoteOnOutcome::Started(i)
                    },
                    None => NoteOnOutcome::Dropped,
                }
            },
        }
    }

    /// Routes a note-off event. A sustained note is deferred: nothing
    /// happens until the sustain control is released. Otherwise the note's
    /// voice, if one is registered, is asked to release and the registry
    /// entry is removed; the voice keeps its slot until the release ramp
    /// completes.
    pub fn note_off(&mut self, note: u8)
        requires
            old(self).inv(),
            (note as int) < NOTE_COUNT as int,
        ensures
            final(self).inv(),
            old(self).sustained@[note as int] || old(self).notes@[note as int] is None ==> {
                &&& final(self).slots@ == old(self).slots@
                &&& final(self).notes@ == old(self).notes@
                &&& final(self).sustained@ == old(self).sustained@
            },
            !old(self).sustained@[note as int] ==> (old(self).notes@[note as int] matches Some(i)
                ==> {
                &&& final(self).slots@[i as int] == old(self).slots@[i as int].released()
                &&& forall|j: int|
                    0 <= j < MAX_POLYPHONY as int && j != i as int ==> final(self).slots@[j] == (
                    #[trigger] old(self).slots@[j])
                &&& final(self).notes@ == old(self).notes@.update(note as int, None)
                &&& final(self).sustained@ == old(self).sustained@
            }),
    {
        if self.sustained[note as usize] {
            return;
        }
        match self.notes[note as usize] {
            Some(i) => {
                match self.slots[i] {
                    SlotEntry::Busy(v0) => {
                        let mut v = v0;
                        v.release();
                        self.slots[i] = SlotEntry::Busy(v);
                    },
                    SlotEntry::Paused(v0) => {
                        let mut v = v0;
                        v.release();
                        self.slots[i] = SlotEntry::Paused(v);
                    },
                    SlotEntry::Idle => {
                        proof {
                            assert(false);
                        }
                    },
                }
                self.notes[note as usize] = None;
            },
            None => {},
        }
    }

    /// Engages the sustain control: every currently sounding (not paused)
    /// registered note joins the sustained set; notes already in the set
    /// stay. Slots and registry are untouched.
    pub fn engage_sustain(&mut self)
        requires
            old(self).inv(),
        ensures
            final(self).inv(),
            final(self).slots@ == old(self).slots@,
            final(self).notes@ == old(self).notes@,
            forall|n: int|
                0 <= n < NOTE_COUNT as int ==> (#[trigger] final(self).sustained@[n]) == (old(
                    self,
                ).sustained@[n] || (old(self).notes@[n] matches Some(i) && old(
                    self,
                ).slots@[i as int] is Busy)),
    {
        let mut n: usize = 0;
        while n < NOTE_COUNT
            invariant
                old(self).inv(),
                self.inv(),
                n <= NOTE_COUNT,
                self.slots@ == old(self).slots@,
                self.notes@ == old(self).notes@,
                self.sustained@.len() == NOTE_COUNT as int,
                forall|m: int|
                    0 <= m < n as int ==> (#[trigger] self.sustained@[m]) == (old(
                        self,
                    ).sustained@[m] || (old(self).notes@[m] matches Some(i) && old(
                        self,
                    ).slots@[i as int] is Busy)),
                forall|m: int|
                    n as int <= m < NOTE_COUNT as int ==> (#[trigger] self.sustained@[m]) == old(
                        self,
                    ).sustained@[m],
            decreases NOTE_COUNT - n,
        {
            match self.notes[n] {
                Some(i) => {
                    match self.slots[i] {
                        SlotEntry::Busy(_) => {
                            self.sustained[n] = true;
                        },
                        _ => {},
                    }
                },
                None => {},
            }
            n = n + 1;
        }
    }

    /// Whether the voice in slot `i` is the registered voice of a note below
    /// `upto` that the sustain set holds; used to describe which slots a
    /// sustain release has already reached.
    pub open spec fn sustain_touches(self, i: int, upto: int) -> bool {
        match self.slots@[i].voice() {
            Some(v) => {
                &&& (v.note as int) < upto
                &&& self.sustained@[v.note as int]
                &&& self.notes@[v.note as int] == Some(i as usize)
            },
            None => false,
        }
    }

    /// Releases the sustain control: every voice whose note the sustained
    /// set holds is asked to release, and the set is emptied. The registry
    /// keeps its entries; a released voice's entry disappears when its
    /// release ramp completes.
    pub fn release_sustain(&mut self)
        requires
            old(self).inv(),
        ensures
            final(self).inv(),
            final(self).notes@ == old(self).notes@,
            forall|n: int| 0 <= n < NOTE_COUNT as int ==> !(#[trigger] final(self).sustained@[n]),
            forall|i: int|
                0 <= i < MAX_POLYPHONY as int ==> (#[trigger] final(self).slots@[i]) == (if old(
                    self,
                ).sustain_touches(i, NOTE_COUNT as int) {
                    old(self).slots@[i].released()
                } else {
                    old(self).slots@[i]
                }),
    {
        let mut n: usize = 0;
        while n < NOTE_COUNT
            invariant
                old(self).inv(),
                self.inv(),
                n <= NOTE_COUNT,
                self.notes@ == old(self).notes@,
                self.sustained@.len() == NOTE_COUNT as int,
                forall|m: int| 0 <= m < n as int ==> !(#[trigger] self.sustained@[m]),
                forall|m: int|
                    n as int <= m < NOTE_COUNT as int ==> (#[trigger] self.sustained@[m]) == old(
                        self,
                    ).sustained@[m],
                forall|i: int|
                    0 <= i < MAX_POLYPHONY as int ==> (#[trigger] self.slots@[i]) == (if old(
                        self,
                    ).sustain_touches(i, n as int) {
                        old(self).slots@[i].released()
                    } else {
                        old(self).slots@[i]
                    }),
            decreases NOTE_COUNT - n,
        {
            if self.sustained[n] {
                match self.notes[n] {
                    Some(i) => {
                        match self.slots[i] {
                            SlotEntry::Busy(v0) => {
                                let mut v = v0;
                                v.release();
                                self.slots[i] = SlotEntry::Busy(v);
                            },
                            SlotEntry::Paused(v0) => {
                                let mut v = v0;
                                v.release();
                                self.slots[i] = SlotEntry::Paused(v);
                            },
                            SlotEntry::Idle => {
                                proof {
                                    assert(false);
                                }
                            },
                        }
                    },
                    None => {
                        proof {
                            assert(false);
                        }
                    },
                }
                self.sustained[n] = false;
            }
            n = n + 1;
        }
    }

    /// Whether the voice in slot `i` is the registered voice of a note
    /// below `upto`; used to describe which slots a registry walk has
    /// already reached.
    pub open spec fn registry_touches(self, i: int, upto: int) -> bool {
        match self.slots@[i].voice() {
            Some(v) => {
                &&& (v.note as int) < upto
                &&& self.notes@[v.note as int] == Some(i as usize)
            },
            None => false,
        }
    }

    /// Routes a pitch-bend event: every registered voice's target frequency
    /// becomes its note's natural frequency shifted by the bend's offset
    /// from the neutral midpoint of 64, one `FREQ_UNITS_PER_HZ` unit per
    /// step. The neutral value 64 therefore restores every target to its
    /// base frequency. Voices no longer registered (still releasing) keep
    /// their targets.
    pub fn pitch_bend(&mut self, bend: u8)
        requires
            old(self).inv(),
            (bend as int) < 128,
        ensures
            final(self).inv(),
            final(self).notes@ == old(self).notes@,
            final(self).sustained@ == old(self).sustained@,
            forall|i: int|
                0 <= i < MAX_POLYPHONY as int ==> (#[trigger] final(self).slots@[i]) == (if old(
                    self,
                ).registry_touches(i, NOTE_COUNT as int) {
                    spec_bent_entry(old(self).slots@[i], bend)
                } else {
                    old(self).slots@[i]
                }),
    {
        let delta: i64 = ((bend as i64) - 64) * FREQ_UNITS_PER_HZ;
        let mut n: usize = 0;
        while n < NOTE_COUNT
            invariant
                old(self).inv(),
                self.inv(),
                n <= NOTE_COUNT,
                delta == ((bend as int) - 64) * (FREQ_UNITS_PER_HZ as int),
                (bend as int) < 128,
                self.notes@ == old(self).notes@,
                self.sustained@ == old(self).sustained@,
                forall|i: int|
                    0 <= i < MAX_POLYPHONY as int ==> (#[trigger] self.slots@[i]) == (if old(
                        self,
                    ).registry_touches(i, n as int) {
                        spec_bent_entry(old(self).slots@[i], bend)
                    } else {
                        old(self).slots@[i]
                    }),
            decreases NOTE_COUNT - n,
        {
            match self.notes[n] {
                Some(i) => {
                    proof {
                        vstd::arithmetic::div_mod::lemma_mod_multiples_basic(
                            (bend as int) - 64,
                            FREQ_UNITS_PER_HZ as int,
                        );
                    }
                    match self.slots[i] {
                        SlotEntry::Busy(v0) => {
                            let mut v = v0;
                            v.target_freq = v.base_freq + delta;
                            self.slots[i] = SlotEntry::Busy(v);
                        },
                        SlotEntry::Paused(v0) => {
                            let mut v = v0;
                            v.target_freq = v.base_freq + delta;
                            self.slots[i] = SlotEntry::Paused(v);
                        },
                        SlotEntry::Idle => {
                            proof {
                                assert(false);
                            }
                        },
                    }
                },
                None => {},
            }
            n = n + 1;
        }
    }

    /// One envelope tick for every playing voice, the render loop's
    /// periodic amplitude update. A voice whose release ramp completes on
    /// this tick is stopped: its slot becomes idle and its registry entry
    /// and sustain mark, if they still point at that slot, are removed.
    /// Paused slots are not ticked.
    pub fn tick_envelopes(&mut self)
        requires
            old(self).inv(),
        ensures
            final(self).inv(),
            forall|i: int|
                0 <= i < MAX_POLYPHONY as int ==> (#[trigger] final(self).slots@[i])
                    == spec_slot_env_tick(old(self).slots@[i]),
            forall|n: int|
                0 <= n < NOTE_COUNT as int ==> (#[trigger] final(self).notes@[n]) == (if (old(
                    self,
                ).notes@[n] matches Some(i) && spec_slot_frees(old(self).slots@[i as int])) {
                    Option::<usize>::None
                } else {
                    old(self).notes@[n]
                }),
            forall|n: int|
                0 <= n < NOTE_COUNT as int ==> (#[trigger] final(self).sustained@[n]) == (if (old(
                    self,
                ).notes@[n] matches Some(i) && spec_slot_frees(old(self).slots@[i as int])) {
                    false
                } else {
                    old(self).sustained@[n]
                }),
    {
        let mut i: usize = 0;
        while i < MAX_POLYPHONY
            invariant
                old(self).inv(),
                self.inv(),
                i <= MAX_POLYPHONY,
                forall|j: int|
                    0 <= j < i as int ==> (#[trigger] self.slots@[j]) == spec_slot_env_tick(
                        old(self).slots@[j],
                    ),
                forall|j: int|
                    i as int <= j < MAX_POLYPHONY as int ==> (#[trigger] self.slots@[j]) == old(
                        self,
                    ).slots@[j],
                forall|n: int|
                    0 <= n < NOTE_COUNT as int ==> (#[trigger] self.notes@[n]) == (if (old(
                        self,
                    ).notes@[n] matches Some(j) && (j as int) < i as int && spec_slot_frees(
                        old(self).slots@[j as int],
                    )) {
                        Option::<usize>::None
                    } else {
                        old(self).notes@[n]
                    }),
                forall|n: int|
                    0 <= n < NOTE_COUNT as int ==> (#[trigger] self.sustained@[n]) == (if (old(
                        self,
                    ).notes@[n] matches Some(j) && (j as int) < i as int && spec_slot_frees(
                        old(self).slots@[j as int],
                    )) {
                        false
                    } else {
                        old(self).sustained@[n]
                    }),
            decreases MAX_POLYPHONY - i,
        {
            match self.slots[i] {
                SlotEntry::Busy(v0) => {
                    let mut v = v0;
                    v.env.tick();
                    if v.env.stopped {
                        self.slots[i] = SlotEntry::Idle;
                        let vn = v.note as usize;
                        match self.notes[vn] {
                            Some(j) => {
                                if j == i {
                                    self.notes[vn] = None;
                                    self.sustained[vn] = false;
                                }
                            },
                            None => {},
                        }
                    } else {
                        self.slots[i] = SlotEntry::Busy(v);
                    }
                },
                _ => {},
            }
            i = i + 1;
        }
    }

    /// One smoothing tick for every playing voice: each moves its current
    /// frequency one hertz toward its target. Paused slots do not move.
    pub fn tick_smoothers(&mut self)
        requires
            old(self).inv(),
        ensures
            final(self).inv(),
            final(self).notes@ == old(self).notes@,
            final(self).sustained@ == old(self).sustained@,
            forall|i: int|
                0 <= i < MAX_POLYPHONY as int ==> (#[trigger] final(self).slots@[i]) == (match old(
                    self,
                ).slots@[i] {
                    SlotEntry::Busy(v) => SlotEntry::Busy(v.spec_smooth()),
                    other => other,
                }),
    {
        let mut i: usize = 0;
        while i < MAX_POLYPHONY
            invariant
                old(self).inv(),
                self.inv(),
                i <= MAX_POLYPHONY,
                self.notes@ == old(self).notes@,
                self.sustained@ == old(self).sustained@,
                forall|j: int|
                    0 <= j < i as int ==> (#[trigger] self.slots@[j]) == (match old(
                        self,
                    ).slots@[j] {
                        SlotEntry::Busy(v) => SlotEntry::Busy(v.spec_smooth()),
                        other => other,
                    }),
                forall|j: int|
                    i as int <= j < MAX_POLYPHONY as int ==> (#[trigger] self.slots@[j]) == old(
                        self,
                    ).slots@[j],
            decreases MAX_POLYPHONY - i,
        {
            match self.slots[i] {
                SlotEntry::Busy(v0) => {
                    let mut v = v0;
                    v.smooth_tick();
                    self.slots[i] = SlotEntry::Busy(v);
                },
                _ => {},
            }
            i = i + 1;
        }
    }

    /// Produces the next sample of the voice playing in slot `i`, advancing
    /// its oscillator: `Some` of the envelope-scaled fixed-point amplitude,
    /// or `None` when the slot is idle or paused, or when the voice plays a
    /// sine wave (whose sample the caller evaluates from the voice's
    /// current frequency, sample count and amplitude).
    pub fn render_sample(&mut self, i: usize) -> (s: Option<i64>)
        requires
            old(self).inv(),
            (i as int) < MAX_POLYPHONY as int,
        ensures
            final(self).inv(),
            final(self).notes@ == old(self).notes@,
            final(self).sustained@ == old(self).sustained@,
            forall|j: int|
                0 <= j < MAX_POLYPHONY as int && j != i as int
                    ==> (#[trigger] final(self).slots@[j]) == old(self).slots@[j],
            final(self).slots@[i as int] == (match old(self).slots@[i as int] {
                SlotEntry::Busy(v) => SlotEntry::Busy(v.spec_advance()),
                other => other,
            }),
            s == (match old(self).slots@[i as int] {
                SlotEntry::Busy(v) => v.spec_sample_of(),
                _ => Option::<i64>::None,
            }),
    {
        match self.slots[i] {
            SlotEntry::Busy(v0) => {
                let mut v = v0;
                let s = v.next_sample();
                self.slots[i] = SlotEntry::Busy(v);
                s
            },
            _ => None,
        }
    }

    /// Pauses the playback in slot `i` (external stop semantics). A paused
    /// slot keeps its voice but is skipped by ticking, smoothing and the
    /// sustain engage, and the pool may reclaim it once no slot is idle.
    pub fn pause_slot(&mut self, i: usize)
        requires
            old(self).inv(),
            (i as int) < MAX_POLYPHONY as int,
        ensures
            final(self).inv(),
            final(self).notes@ == old(self).notes@,
            final(self).sustained@ == old(self).sustained@,
            forall|j: int|
                0 <= j < MAX_POLYPHONY as int && j != i as int
                    ==> (#[trigger] final(self).slots@[j]) == old(self).slots@[j],
            final(self).slots@[i as int] == (match old(self).slots@[i as int] {
                SlotEntry::Busy(v) => SlotEntry::Paused(v),
                other => other,
            }),
    {
        match self.slots[i] {
            SlotEntry::Busy(v) => {
                self.slots[i] = SlotEntry::Paused(v);
            },
            _ => {},
        }
    }

    /// How many slots currently hold a voice (playing or paused).
    pub fn occupied_slots(&self) -> (c: usize)
        requires
            self.inv(),
        ensures
            c == spec_occupied_count(self.slots@, MAX_POLYPHONY as int),
            c <= MAX_POLYPHONY,
    {
        let mut c: usize = 0;
        let mut i: usize = 0;
        while i < MAX_POLYPHONY
            invariant
                self.inv(),
                i <= MAX_POLYPHONY,
                c as int == spec_occupied_count(self.slots@, i as int),
                c <= i,
            decreases MAX_POLYPHONY - i,
        {
            match self.slots[i] {
                SlotEntry::Idle => {},
                _ => {
                    c = c + 1;
                },
            }
            i = i + 1;
        }
        c
    }
}

/// The slot after one envelope tick: a playing voice whose ramp completes
/// leaves the slot idle; otherwise the ticked voice stays.
pub open spec fn spec_slot_env_tick(s: SlotEntry) -> SlotEntry {
    match s {
        SlotEntry::Busy(v) => {
            if v.env.spec_tick().stopped {
                SlotEntry::Idle
            } else {
                SlotEntry::Busy(Voice { env: v.env.spec_tick(), ..v })
            }
        },
        other => other,
    }
}

/// Whether this envelope tick frees the slot.
pub open spec fn spec_slot_frees(s: SlotEntry) -> bool {
    s matches SlotEntry::Busy(v) && v.env.spec_tick().stopped
}

/// The slot with its voice's target frequency moved to the bent pitch:
/// base frequency plus the bend's offset from the neutral midpoint of 64.
pub open spec fn spec_bent_entry(s: SlotEntry, bend: u8) -> SlotEntry {
    match s {
        SlotEntry::Idle => SlotEntry::Idle,
        SlotEntry::Busy(v) => SlotEntry::Busy(spec_bent_voice(v, bend)),
        SlotEntry::Paused(v) => SlotEntry::Paused(spec_bent_voice(v, bend)),
    }
}

/// The voice with its target frequency moved to the bent pitch.
pub open spec fn spec_bent_voice(v: Voice, bend: u8) -> Voice {
    Voice {
        target_freq: (v.base_freq + ((bend as int) - 64) * (FREQ_UNITS_PER_HZ as int)) as i64,
        ..v
    }
}

/// How many of the first `upto` slots hold a voice.
pub open spec fn spec_occupied_count(s: Seq<SlotEntry>, upto: int) -> int
    decreases upto,
{
    if upto <= 0 {
        0int
    } else {
        spec_occupied_count(s, upto - 1) + if s[upto - 1].occupied() {
            1int
        } else {
            0int
        }
    }
}

} // verus!
