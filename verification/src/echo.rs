//! Playback pacing and bookkeeping around the audio thread: the audition
//! burst's random keys and timing, the bounded event queue, buffer sizes to
//! try, when to reopen the output, and the sample cursor of a playing sound.

use vstd::prelude::*;

use crate::keys::Key;

verus! {

/// How many key events the audio thread's queue holds; further events are
/// dropped rather than queued.
pub const AUDIO_EVENT_QUEUE_CAPACITY: usize = 256;

/// Output buffer sizes, in frames, tried in order when opening the audio
/// output: lowest latency first.
pub const LOW_LATENCY_BUFFER_CANDIDATES: [u32; 3] = [512, 1024, 2048];

/// How many keys the audition burst draws from.
pub const SAMPLE_KEY_COUNT: usize = 12;

/// The audition keys: the letters of "the quick brown" and space.
pub open spec fn sample_key_spec(index: int) -> Key {
    if index == 0 {
        Key::KeyT
    } else if index == 1 {
        Key::KeyH
    } else if index == 2 {
        Key::KeyE
    } else if index == 3 {
        Key::Space
    } else if index == 4 {
        Key::KeyQ
    } else if index == 5 {
        Key::KeyU
    } else if index == 6 {
        Key::KeyI
    } else if index == 7 {
        Key::KeyC
    } else if index == 8 {
        Key::KeyK
    } else if index == 9 {
        Key::KeyB
    } else if index == 10 {
        Key::KeyR
    } else {
        Key::KeyN
    }
}

/// The audition key at `index`.
pub fn sample_key(index: usize) -> (r: Key)
    requires
        index < SAMPLE_KEY_COUNT,
    ensures
        r == sample_key_spec(index as int),
{
    match index {
        0 => Key::KeyT,
        1 => Key::KeyH,
        2 => Key::KeyE,
        3 => Key::Space,
        4 => Key::KeyQ,
        5 => Key::KeyU,
        6 => Key::KeyI,
        7 => Key::KeyC,
        8 => Key::KeyK,
        9 => Key::KeyB,
        10 => Key::KeyR,
        _ => Key::KeyN,
    }
}

/// One xorshift64 step (shifts 13, 7, 17).
pub open spec fn xorshift64(x: u64) -> u64 {
    let a = x ^ (x << 13u64);
    let b = a ^ (a >> 7u64);
    b ^ (b << 17u64)
}

/// Advances the xorshift64 state and returns the new state.
pub fn next_rand(state: &mut u64) -> (r: u64)
    ensures
        r == xorshift64(*old(state)),
        *final(state) == r,
{
    let mut x = *state;
    x ^= x << 13u64;
    x ^= x >> 7u64;
    x ^= x << 17u64;
    *state = x;
    x
}

/// A nonzero state never becomes zero, so the audition never gets stuck on
/// one key.
pub proof fn lemma_xorshift_keeps_nonzero(x: u64)
    requires
        x != 0,
    ensures
        xorshift64(x) != 0,
{
    let a = x ^ (x << 13u64);
    let b = a ^ (a >> 7u64);
    assert(x != 0 ==> x ^ (x << 13u64) != 0) by (bit_vector);
    assert(a != 0 ==> a ^ (a >> 7u64) != 0) by (bit_vector);
    assert(b != 0 ==> b ^ (b << 17u64) != 0) by (bit_vector);
}

/// One stroke of the audition burst: which key, how long it is held and how
/// long until the next press.
#[derive(Debug, Clone, Copy, PartialEq, Eq)]
pub struct AuditionStroke {
    pub key: Key,
    pub hold_ms: u64,
    pub gap_ms: u64,
}

/// The stroke drawn from three successive random values.
pub open spec fn audition_stroke_spec(r1: u64, r2: u64, r3: u64) -> AuditionStroke {
    AuditionStroke {
        key: sample_key_spec(((r1 as usize) % (SAMPLE_KEY_COUNT as usize)) as int),
        hold_ms: (70 + r2 % 41) as u64,
        gap_ms: (120 + r3 % 101) as u64,
    }
}

/// Draws the next audition stroke, advancing the random state three times:
/// once for the key, once for the hold, once for the gap.
pub fn audition_stroke(state: &mut u64) -> (r: AuditionStroke)
    ensures
        ({
            let r1 = xorshift64(*old(state));
            let r2 = xorshift64(r1);
            let r3 = xorshift64(r2);
            &&& r == audition_stroke_spec(r1, r2, r3)
            &&& *final(state) == r3
        }),
{
    let r1 = next_rand(state);
    #[verifier::truncate]
    let index: usize = (r1 as usize) % SAMPLE_KEY_COUNT;
    let key = sample_key(index);
    let r2 = next_rand(state);
    let hold_ms = 70 + r2 % 41;
    let r3 = next_rand(state);
    let gap_ms = 120 + r3 % 101;
    AuditionStroke { key, hold_ms, gap_ms }
}

/// Every stroke is held 70 to 110 ms and followed by a 120 to 220 ms pause,
/// so presses come 190 to 330 ms apart.
pub proof fn lemma_audition_pacing(r1: u64, r2: u64, r3: u64)
    ensures
        ({
            let s = audition_stroke_spec(r1, r2, r3);
            &&& 70 <= s.hold_ms <= 110
            &&& 120 <= s.gap_ms <= 220
            &&& 190 <= s.hold_ms + s.gap_ms <= 330
        }),
{
}

/// Whether the audio output must be (re)opened before playing: when none is
/// open, or when the open one reported that its stream is lost.
pub fn should_reopen_output(output_open: bool, stream_failed: bool) -> (r: bool)
    ensures
        r == (!output_open || stream_failed),
{
    !output_open || stream_failed
}

/// The read position of a playing sound over its interleaved samples, with
/// the sound's format.
#[derive(Debug, Clone, Copy, PartialEq, Eq)]
pub struct AudioCursor {
    len: usize,
    pos: usize,
    channels: u16,
    sample_rate: u32,
}

/// The frames of `len` samples over `channels` channels, as nanoseconds at
/// `sample_rate`, rounded down and capped at `u64::MAX`.
pub open spec fn duration_nanos_spec(len: nat, channels: nat, sample_rate: nat) -> nat {
    let nanos = (len / channels) * 1_000_000_000 / sample_rate;
    if nanos > u64::MAX {
        u64::MAX as nat
    } else {
        nanos
    }
}

impl AudioCursor {
    /// Well formed: a position within the samples and a nonzero format.
    #[verifier::type_invariant]
    closed spec fn wf(&self) -> bool {
        &&& self.pos <= self.len
        &&& self.channels > 0
        &&& self.sample_rate > 0
    }

    pub closed spec fn len_spec(&self) -> nat {
        self.len as nat
    }

    pub closed spec fn pos_spec(&self) -> nat {
        self.pos as nat
    }

    pub closed spec fn channels_spec(&self) -> u16 {
        self.channels
    }

    pub closed spec fn sample_rate_spec(&self) -> u32 {
        self.sample_rate
    }

    /// A cursor at the start of `len` samples; `None` when the channel count
    /// or the sample rate is zero.
    pub fn new(len: usize, channels: u16, sample_rate: u32) -> (r: Option<Self>)
        ensures
            r is Some <==> (channels > 0 && sample_rate > 0),
            r matches Some(c) ==> c.len_spec() == len && c.pos_spec() == 0
                && c.channels_spec() == channels && c.sample_rate_spec() == sample_rate,
    {
        if channels == 0 || sample_rate == 0 {
            None
        } else {
            Some(AudioCursor { len, pos: 0, channels, sample_rate })
        }
    }

    /// The index of the next sample to play, moving past it; `None` once all
    /// samples are played.
    pub fn next_index(&mut self) -> (r: Option<usize>)
        ensures
            final(self).len_spec() == old(self).len_spec(),
            final(self).channels_spec() == old(self).channels_spec(),
            final(self).sample_rate_spec() == old(self).sample_rate_spec(),
            old(self).pos_spec() < old(self).len_spec() ==> r == Some(old(self).pos_spec() as usize)
                && final(self).pos_spec() == old(self).pos_spec() + 1,
            old(self).pos_spec() >= old(self).len_spec() ==> r is None && *final(self) == *old(self),
    {
        proof {
            use_type_invariant(&*self);
        }
        if self.pos < self.len {
            let i = self.pos;
            self.pos = self.pos + 1;
            Some(i)
        } else {
            None
        }
    }

    /// How many samples are left to play.
    pub fn remaining(&self) -> (r: usize)
        ensures
            r == self.len_spec() - self.pos_spec(),
    {
        proof {
            use_type_invariant(self);
        }
        self.len - self.pos
    }

    /// The channel count.
    pub fn channels(&self) -> (r: u16)
        ensures
            r == self.channels_spec(),
    {
        self.channels
    }

    /// The sample rate.
    pub fn sample_rate(&self) -> (r: u32)
        ensures
            r == self.sample_rate_spec(),
    {
        self.sample_rate
    }

    /// The length of the whole sound in nanoseconds, whatever has been played.
    pub fn total_duration_nanos(&self) -> (r: u64)
        ensures
            r == duration_nanos_spec(self.len_spec(), self.channels_spec() as nat, self.sample_rate_spec() as nat),
    {
        proof {
            use_type_invariant(self);
        }
        let frames: u128 = self.len as u128 / self.channels as u128;
        let scaled: u128 = frames * 1_000_000_000u128;
        let nanos: u128 = scaled / self.sample_rate as u128;
        if nanos > u64::MAX as u128 {
            u64::MAX
        } else {
            nanos as u64
        }
    }
}

} // verus!
