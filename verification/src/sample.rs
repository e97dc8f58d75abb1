//! Sample storage and note-to-sample resolution.
//!
//! A [`Sample`] is an immutable decoded recording: interleaved PCM in
//! `UNIT` fixed point, a rate, a channel count and the note it was
//! recorded at. The [`SampleBank`] keys samples by slot and resolves a
//! note and velocity to a slot through its active [`SampleMapping`].

use vstd::prelude::*;
use std::collections::HashMap;
use crate::units::UNIT;

verus! {

broadcast use vstd::std_specs::hash::group_hash_axioms;

/// Longest PCM buffer a sample may hold.
pub const MAX_SAMPLE_LEN: u64 = 4294967296;

/// An amplitude forced into the full-scale range.
pub open spec fn clamp_amp_spec(v: int) -> int {
    if v > UNIT as int {
        UNIT as int
    } else if v < -(UNIT as int) {
        -(UNIT as int)
    } else {
        v
    }
}

/// One decoded recording: interleaved fixed-point PCM.
pub struct Sample {
    pub data: Vec<i64>,
    pub sample_rate: u32,
    pub channels: usize,
    pub root_note: Option<u8>,
}

impl Sample {
    /// A sample the engine can play: at least one channel, a bounded
    /// buffer of full-scale-limited amplitudes, a seven-bit root note.
    pub open spec fn wf(self) -> bool {
        &&& self.channels >= 1
        &&& self.data@.len() <= MAX_SAMPLE_LEN
        &&& forall|i: int|
            0 <= i < self.data@.len() ==> -(UNIT as int) <= #[trigger] self.data@[i]
                <= UNIT as int
        &&& (self.root_note matches Some(r) ==> r < 128)
    }

    /// How many whole frames the interleaved buffer holds.
    pub open spec fn frames_spec(self) -> int {
        self.data@.len() as int / self.channels as int
    }

    /// Build a playable sample: amplitudes are clamped to full scale, a
    /// zero channel count is corrected to mono, and the root note
    /// defaults to middle C.
    pub fn new(data: Vec<i64>, sample_rate: u32, channels: usize) -> (s: Sample)
        requires
            data@.len() <= MAX_SAMPLE_LEN,
        ensures
            s.wf(),
            s.data@.len() == data@.len(),
            forall|i: int|
                0 <= i < data@.len() ==> #[trigger] s.data@[i] == clamp_amp_spec(data@[i] as int),
            s.sample_rate == sample_rate,
            s.channels == if channels >= 1 { channels } else { 1 },
            s.root_note == Some(60u8),
    {
        let mut clamped = data;
        let n = clamped.len();
        let mut i: usize = 0;
        while i < n
            invariant
                n == clamped@.len(),
                i <= n,
                forall|j: int| 0 <= j < i ==> #[trigger] clamped@[j] == clamp_amp_spec(data@[j] as int),
                forall|j: int| i <= j < n ==> #[trigger] clamped@[j] == data@[j],
            decreases n - i,
        {
            let v = clamped[i];
            if v > UNIT as i64 {
                clamped.set(i, UNIT as i64);
            } else if v < -(UNIT as i64) {
                clamped.set(i, -(UNIT as i64));
            }
            i = i + 1;
        }
        Sample {
            data: clamped,
            sample_rate,
            channels: if channels >= 1 {
                channels
            } else {
                1
            },
            root_note: Some(60),
        }
    }

    /// The recording's length in whole milliseconds; zero when the
    /// sample rate is unknown.
    pub fn duration_ms(&self) -> (ms: u64)
        requires
            self.wf(),
        ensures
            ms == if self.sample_rate > 0 {
                self.frames_spec() * 1000 / self.sample_rate as int
            } else {
                0
            },
    {
        if self.sample_rate > 0 {
            let frames = (self.data.len() / self.channels) as u64;
            frames * 1000 / (self.sample_rate as u64)
        } else {
            0
        }
    }
}

/// How incoming notes pick a slot out of the bank.
pub enum SampleMapping {
    /// Every note plays the one slot.
    ChromaticSingle { slot: usize },
    /// Exact per-note lookup.
    MultiSample(HashMap<u8, usize>),
    /// Ascending `(threshold, slot)` layers; the first layer whose
    /// threshold is at or above the incoming velocity wins.
    Velocity(Vec<(u32, usize)>),
    /// Successive resolutions cycle through the slots; the cursor
    /// advances exactly once per resolution.
    RoundRobin { slots: Vec<usize>, current: usize },
}

/// First velocity layer whose threshold admits the velocity.
pub open spec fn velocity_pick_spec(layers: Seq<(u32, usize)>, velocity: u32) -> Option<usize>
    decreases layers.len(),
{
    if layers.len() == 0 {
        None
    } else if velocity <= layers[0].0 {
        Some(layers[0].1)
    } else {
        velocity_pick_spec(layers.drop_first(), velocity)
    }
}

/// Decoded samples keyed by slot, with the active mapping strategy.
pub struct SampleBank {
    pub samples: HashMap<usize, Sample>,
    pub current_mapping: SampleMapping,
}

/// The slot a mapping picks out of a set of loaded slots for a note
/// and velocity, or nothing when the pick misses the bank.
pub open spec fn resolve_from(
    samples: Map<usize, Sample>,
    mapping: SampleMapping,
    note: u8,
    velocity: u32,
) -> Option<usize> {
    match mapping {
        SampleMapping::ChromaticSingle { slot } => if samples.dom().contains(slot) {
            Some(slot)
        } else {
            None
        },
        SampleMapping::MultiSample(map) => if map@.dom().contains(note) && samples.dom().contains(
            map@[note],
        ) {
            Some(map@[note])
        } else {
            None
        },
        SampleMapping::Velocity(layers) => match velocity_pick_spec(layers@, velocity) {
            Some(slot) => if samples.dom().contains(slot) {
                Some(slot)
            } else {
                None
            },
            None => None,
        },
        SampleMapping::RoundRobin { slots, current } => if current < slots@.len()
            && samples.dom().contains(slots@[current as int]) {
            Some(slots@[current as int])
        } else {
            None
        },
    }
}

/// The mapping state after one resolution: only a round-robin cursor
/// that addressed a slot moves, by one step modulo the slot count.
pub open spec fn advanced_mapping_spec(mapping: SampleMapping) -> SampleMapping {
    match mapping {
        SampleMapping::RoundRobin { slots, current } => if current < slots@.len() {
            SampleMapping::RoundRobin {
                slots,
                current: (((current + 1) as int % slots@.len() as int)) as usize,
            }
        } else {
            SampleMapping::RoundRobin { slots, current }
        },
        m => m,
    }
}

impl SampleBank {
    /// Every stored sample is playable.
    pub open spec fn wf(self) -> bool {
        forall|slot: usize|
            self.samples@.dom().contains(slot) ==> (#[trigger] self.samples@[slot]).wf()
    }

    /// The slot the active mapping picks for a note and velocity, or
    /// nothing when the pick misses the bank.
    pub open spec fn resolve_spec(self, note: u8, velocity: u32) -> Option<usize> {
        resolve_from(self.samples@, self.current_mapping, note, velocity)
    }

    /// The bank's mapping after one resolution.
    pub open spec fn resolved_mapping_spec(self) -> SampleMapping {
        advanced_mapping_spec(self.current_mapping)
    }

    /// An empty bank that plays slot zero for every note.
    pub fn new() -> (bank: SampleBank)
        ensures
            bank.wf(),
            bank.samples@ == Map::<usize, Sample>::empty(),
            bank.current_mapping matches SampleMapping::ChromaticSingle { slot } && slot == 0,
    {
        SampleBank {
            samples: HashMap::new(),
            current_mapping: SampleMapping::ChromaticSingle { slot: 0 },
        }
    }

    /// Store a decoded sample, replacing whatever held the slot.
    pub fn load_sample(&mut self, slot: usize, sample: Sample)
        requires
            old(self).wf(),
            sample.wf(),
        ensures
            final(self).wf(),
            final(self).samples@ == old(self).samples@.insert(slot, sample),
            final(self).current_mapping == old(self).current_mapping,
    {
        self.samples.insert(slot, sample);
    }

    /// Swap the resolution strategy.
    pub fn set_mapping(&mut self, mapping: SampleMapping)
        requires
            old(self).wf(),
        ensures
            final(self).wf(),
            final(self).samples@ == old(self).samples@,
            final(self).current_mapping == mapping,
    {
        self.current_mapping = mapping;
    }

    /// Look a slot up directly.
    pub fn get_sample(&self, slot: usize) -> (r: Option<&Sample>)
        ensures
            match r {
                Some(s) => self.samples@.dom().contains(slot) && *s == self.samples@[slot],
                None => !self.samples@.dom().contains(slot),
            },
    {
        self.samples.get(&slot)
    }

    /// Resolve a note and velocity to a slot through the active
    /// mapping. A round-robin cursor that addressed a slot advances by
    /// exactly one step, whether or not the slot held a sample; nothing
    /// else changes.
    pub fn get_sample_for_note(&mut self, note: u8, velocity: u32) -> (r: Option<usize>)
        requires
            old(self).wf(),
        ensures
            final(self).wf(),
            r == old(self).resolve_spec(note, velocity),
            final(self).samples@ == old(self).samples@,
            final(self).current_mapping == old(self).resolved_mapping_spec(),
            r matches Some(slot) ==> final(self).samples@.dom().contains(slot),
    {
        match &mut self.current_mapping {
            SampleMapping::ChromaticSingle { slot } => {
                let s: usize = *slot;
                if self.samples.get(&s).is_some() {
                    Some(s)
                } else {
                    None
                }
            },
            SampleMapping::MultiSample(map) => {
                match map.get(&note) {
                    Some(slot_ref) => {
                        let s: usize = *slot_ref;
                        if self.samples.get(&s).is_some() {
                            Some(s)
                        } else {
                            None
                        }
                    },
                    None => None,
                }
            },
            SampleMapping::Velocity(layers) => {
                let n = layers.len();
                let mut i: usize = 0;
                let mut picked: Option<usize> = None;
                proof {
                    assert(layers@.skip(0) =~= layers@);
                }
                while i < n && picked.is_none()
                    invariant
                        n == layers@.len(),
                        i <= n,
                        match picked {
                            None => velocity_pick_spec(layers@, velocity) == velocity_pick_spec(
                                layers@.skip(i as int),
                                velocity,
                            ),
                            Some(s) => velocity_pick_spec(layers@, velocity) == Some(s),
                        },
                    decreases n - i,
                {
                    proof {
                        assert(layers@.skip(i as int).drop_first() =~= layers@.skip(i as int + 1));
                        assert(layers@.skip(i as int)[0] == layers@[i as int]);
                    }
                    if velocity <= layers[i].0 {
                        picked = Some(layers[i].1);
                    }
                    i = i + 1;
                }
                proof {
                    if picked is None {
                        assert(layers@.skip(n as int) =~= Seq::<(u32, usize)>::empty());
                    }
                }
                match picked {
                    Some(s) => {
                        if self.samples.get(&s).is_some() {
                            Some(s)
                        } else {
                            None
                        }
                    },
                    None => None,
                }
            },
            SampleMapping::RoundRobin { slots, current } => {
                if *current < slots.len() {
                    let s: usize = slots[*current];
                    *current = (*current + 1) % slots.len();
                    if self.samples.get(&s).is_some() {
                        Some(s)
                    } else {
                        None
                    }
                } else {
                    None
                }
            },
        }
    }
}

} // verus!
