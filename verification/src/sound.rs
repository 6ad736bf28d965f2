//! Sound-pack planning: legacy millisecond slices to frames, which audio
//! slices to decode for which key events (each distinct slice once), the
//! sample range of a slice, edge-fade lengths, resampled lengths, and the
//! memory budgets a pack must stay within.

use vstd::prelude::*;

use crate::keys::{Key, KeyEvent};
use crate::paths::{path_components, spec_path_components, PathComponent, PathComponentView};

verus! {

/// The estimated decoded size, at 48 kHz stereo `f32`, a downloaded or
/// custom pack may have before it is predecoded: 10 MiB.
pub const SOUND_MEMORY_BUDGET_BYTES: u64 = 10485760;

/// Decoded samples, in the output device's format, a loaded pack may keep
/// cached: 48 MiB of `f32`.
pub const CACHED_SAMPLE_BUDGET_BYTES: u64 = 50331648;

/// The largest decoded audio file a pack may hold: 64 MiB of `f32`.
pub const DECODED_BANK_BUDGET_BYTES: u64 = 67108864;

/// Sample rate the memory estimate of a legacy pack assumes.
pub const SOUND_MEMORY_BUDGET_SAMPLE_RATE: u64 = 48000;

/// Channel count the memory estimate of a legacy pack assumes.
pub const SOUND_MEMORY_BUDGET_CHANNELS: u64 = 2;

/// Bytes of one decoded sample (`f32`).
pub const SAMPLE_BYTES: u64 = 4;

/// A run of frames in the pack's audio file.
#[derive(Debug, Clone, Copy, PartialEq, Eq, Hash, Structural)]
pub struct FrameSlice {
    pub start_frame: u64,
    pub frame_count: u64,
}

/// A sample rate and channel count.
#[derive(Debug, Clone, Copy, PartialEq, Eq, Structural)]
pub struct AudioFormat {
    pub sample_rate: u32,
    pub channels: u16,
}

/// Why a sound pack cannot be loaded.
#[derive(Debug, Clone, Copy, PartialEq, Eq, Structural)]
pub enum SoundError {
    UnsupportedSchemaVersion,
    AudioFileOutsidePack,
    SampleRateMismatch,
    ChannelCountMismatch,
    FrameCountMismatch,
    DecodedBankTooLarge { bytes: u64 },
    InvalidFormat,
    NotFrameAligned,
    NoSourceFor(KeyEvent),
    NoChannels,
    EmptySlice,
    SliceStartOverflow,
    SliceEndOverflow,
    SliceStartTooLarge,
    SliceEndTooLarge,
    SliceBeyondAudio,
    SampleBudgetExceeded { bytes: u64 },
    EstimatedBudgetExceeded { bytes: u64 },
    TooManyKeys { count: usize },
    TooManySlices { count: usize },
    KeyBufferTooLarge { bytes: u64 },
    DurationTooLong { ms: u64 },
}

/// The message of each error, as shown to the user.
pub open spec fn sound_error_message(e: SoundError) -> Seq<char> {
    match e {
        SoundError::UnsupportedSchemaVersion => "unsupported soundpack schema version"@,
        SoundError::AudioFileOutsidePack => "audio file must be a filename inside the soundpack"@,
        SoundError::SampleRateMismatch => "audio sample rate mismatch"@,
        SoundError::ChannelCountMismatch => "audio channel count mismatch"@,
        SoundError::FrameCountMismatch => "audio frame count mismatch"@,
        SoundError::DecodedBankTooLarge { .. } => "decoded audio bank exceeds the limit"@,
        SoundError::InvalidFormat => "audio has an invalid format"@,
        SoundError::NotFrameAligned => "audio samples are not frame aligned"@,
        SoundError::NoSourceFor(_) => "sound event has no source"@,
        SoundError::NoChannels => "audio has no channels"@,
        SoundError::EmptySlice => "audio slice is empty"@,
        SoundError::SliceStartOverflow => "audio slice start overflow"@,
        SoundError::SliceEndOverflow => "audio slice end overflow"@,
        SoundError::SliceStartTooLarge => "audio slice start is too large"@,
        SoundError::SliceEndTooLarge => "audio slice end is too large"@,
        SoundError::SliceBeyondAudio => "audio slice exceeds decoded audio"@,
        SoundError::SampleBudgetExceeded { .. } => "soundpack decoded sample budget exceeded"@,
        SoundError::EstimatedBudgetExceeded { .. } => "soundpack decoded sample budget exceeded by its estimate"@,
        SoundError::TooManyKeys { .. } => "soundpack defines too many keys"@,
        SoundError::TooManySlices { .. } => "soundpack has too many distinct sound slices"@,
        SoundError::KeyBufferTooLarge { .. } => "soundpack key sound exceeds the single-key buffer limit"@,
        SoundError::DurationTooLong { .. } => "soundpack sounds are too long in total"@,
    }
}

impl SoundError {
    /// The message shown to the user (sizes are reported separately).
    pub fn message(&self) -> (r: &'static str)
        ensures
            r@ == sound_error_message(*self),
    {
        match self {
            SoundError::UnsupportedSchemaVersion => "unsupported soundpack schema version",
            SoundError::AudioFileOutsidePack => "audio file must be a filename inside the soundpack",
            SoundError::SampleRateMismatch => "audio sample rate mismatch",
            SoundError::ChannelCountMismatch => "audio channel count mismatch",
            SoundError::FrameCountMismatch => "audio frame count mismatch",
            SoundError::DecodedBankTooLarge { .. } => "decoded audio bank exceeds the limit",
            SoundError::InvalidFormat => "audio has an invalid format",
            SoundError::NotFrameAligned => "audio samples are not frame aligned",
            SoundError::NoSourceFor(_) => "sound event has no source",
            SoundError::NoChannels => "audio has no channels",
            SoundError::EmptySlice => "audio slice is empty",
            SoundError::SliceStartOverflow => "audio slice start overflow",
            SoundError::SliceEndOverflow => "audio slice end overflow",
            SoundError::SliceStartTooLarge => "audio slice start is too large",
            SoundError::SliceEndTooLarge => "audio slice end is too large",
            SoundError::SliceBeyondAudio => "audio slice exceeds decoded audio",
            SoundError::SampleBudgetExceeded { .. } => "soundpack decoded sample budget exceeded",
            SoundError::EstimatedBudgetExceeded { .. } => "soundpack decoded sample budget exceeded by its estimate",
            SoundError::TooManyKeys { .. } => "soundpack defines too many keys",
            SoundError::TooManySlices { .. } => "soundpack has too many distinct sound slices",
            SoundError::KeyBufferTooLarge { .. } => "soundpack key sound exceeds the single-key buffer limit",
            SoundError::DurationTooLong { .. } => "soundpack sounds are too long in total",
        }
    }
}

/// `x` capped at `u64::MAX`.
pub open spec fn sat(x: int) -> u64 {
    if x > u64::MAX {
        u64::MAX
    } else {
        x as u64
    }
}

/// Which distinct audio slices to decode for which key events.
#[derive(Debug)]
pub struct SlicePlan {
    /// The events planned, in order: the presses, then the releases.
    pub events: Vec<KeyEvent>,
    /// For each planned event, the index of its slice in `slices`.
    pub event_slice: Vec<usize>,
    /// The distinct slices to decode, in order of first use.
    pub slices: Vec<FrameSlice>,
    /// The first event that has no slice at all; planning stops there.
    pub missing: Option<KeyEvent>,
}

/// The key events of a pack with their candidate slices: every define as a
/// press, then every release as a release.
pub open spec fn event_entries(
    defines: Seq<(Key, Vec<FrameSlice>)>,
    releases: Seq<(Key, Vec<FrameSlice>)>,
) -> Seq<(KeyEvent, Seq<FrameSlice>)> {
    defines.map_values(|d: (Key, Vec<FrameSlice>)| (KeyEvent::KeyPress(d.0), d.1@))
        + releases.map_values(|d: (Key, Vec<FrameSlice>)| (KeyEvent::KeyRelease(d.0), d.1@))
}

/// The distinct elements of `s`, in order of first appearance.
pub open spec fn dedup_slices<A>(s: Seq<A>) -> Seq<A>
    decreases s.len(),
{
    if s.len() == 0 {
        Seq::empty()
    } else {
        let d = dedup_slices(s.drop_last());
        if d.contains(s.last()) {
            d
        } else {
            d.push(s.last())
        }
    }
}

/// The slices an event uses: the first of its candidates.
pub open spec fn first_slices(entries: Seq<(KeyEvent, Seq<FrameSlice>)>) -> Seq<FrameSlice> {
    entries.map_values(|e: (KeyEvent, Seq<FrameSlice>)| e.1[0])
}

/// Each distinct slice is decoded once, and every slice decoded is used:
/// the deduplicated slices repeat nothing and hold exactly the used ones.
pub proof fn lemma_dedup_slices<A>(s: Seq<A>)
    ensures
        forall|i: int, j: int| 0 <= i < j < dedup_slices(s).len() ==> dedup_slices(s)[i] != dedup_slices(s)[j],
        forall|x: A| dedup_slices(s).contains(x) <==> s.contains(x),
        dedup_slices(s).len() <= s.len(),
    decreases s.len(),
{
    if s.len() > 0 {
        let rest = s.drop_last();
        lemma_dedup_slices(rest);
        let d = dedup_slices(rest);
        assert forall|x: A| dedup_slices(s).contains(x) <==> s.contains(x) by {
            if s.contains(x) {
                let k = choose|k: int| 0 <= k < s.len() && #[trigger] s[k] == x;
                if k < s.len() - 1 {
                    assert(rest[k] == x);
                }
            }
            if rest.contains(x) {
                let k = choose|k: int| 0 <= k < rest.len() && #[trigger] rest[k] == x;
                assert(s[k] == x);
            }
            if !d.contains(s.last()) {
                assert(d.push(s.last())[d.len() as int] == s.last());
                if d.push(s.last()).contains(x) {
                    let k = choose|k: int| 0 <= k < d.len() + 1 && #[trigger] d.push(s.last())[k] == x;
                    if k < d.len() {
                        assert(d[k] == x);
                    }
                }
                if d.contains(x) {
                    let k = choose|k: int| 0 <= k < d.len() && #[trigger] d[k] == x;
                    assert(d.push(s.last())[k] == x);
                }
            }
        }
    }
}

/// Plans the decoding of a pack: events in order (presses, then releases),
/// each mapped to the first of its slices, the distinct slices listed once
/// in order of first use; planning stops at the first event with no slice.
/// A key listed twice is planned twice, once per entry.
pub fn plan_event_slices(
    defines: &[(Key, Vec<FrameSlice>)],
    releases: &[(Key, Vec<FrameSlice>)],
) -> (plan: SlicePlan)
    requires
        defines@.len() + releases@.len() <= usize::MAX,
    ensures
        ({
            let entries = event_entries(defines@, releases@);
            let n = plan.events@.len();
            &&& n <= entries.len()
            &&& forall|i: int| 0 <= i < n ==> (#[trigger] entries[i]).1.len() > 0
            &&& forall|i: int| 0 <= i < n ==> plan.events@[i] == (#[trigger] entries[i]).0
            &&& n < entries.len() ==> entries[n as int].1.len() == 0 && plan.missing == Some(entries[n as int].0)
            &&& n == entries.len() ==> plan.missing is None
            &&& plan.event_slice@.len() == n
            &&& plan.slices@ == dedup_slices(first_slices(entries.take(n as int)))
            &&& forall|i: int| 0 <= i < n ==> {
                &&& (#[trigger] plan.event_slice@[i]) < plan.slices@.len()
                &&& plan.slices@[plan.event_slice@[i] as int] == entries[i].1[0]
            }
        }),
{
    let ghost entries = event_entries(defines@, releases@);
    let dl = defines.len();
    let n = dl + releases.len();
    let mut events: Vec<KeyEvent> = Vec::new();
    let mut event_slice: Vec<usize> = Vec::new();
    let mut slices: Vec<FrameSlice> = Vec::new();
    let mut i: usize = 0;
    assert(first_slices(entries.take(0)) =~= Seq::<FrameSlice>::empty());
    while i < n
        invariant
            entries == event_entries(defines@, releases@),
            dl == defines@.len(),
            n == entries.len(),
            i <= n,
            events@.len() == i,
            event_slice@.len() == i,
            forall|k: int| 0 <= k < i ==> (#[trigger] entries[k]).1.len() > 0,
            forall|k: int| 0 <= k < i ==> events@[k] == (#[trigger] entries[k]).0,
            slices@ == dedup_slices(first_slices(entries.take(i as int))),
            forall|k: int| 0 <= k < i ==> {
                &&& (#[trigger] event_slice@[k]) < slices@.len()
                &&& slices@[event_slice@[k] as int] == entries[k].1[0]
            },
        decreases n - i,
    {
        let event;
        let list: &Vec<FrameSlice>;
        if i < dl {
            event = KeyEvent::KeyPress(defines[i].0);
            list = &defines[i].1;
        } else {
            event = KeyEvent::KeyRelease(releases[i - dl].0);
            list = &releases[i - dl].1;
        }
        assert(entries[i as int] == (event, list@));
        if list.len() == 0 {
            return SlicePlan { events, event_slice, slices, missing: Some(event) };
        }
        let first = list[0];
        let ghost prefix = first_slices(entries.take(i as int));
        let ghost next = first_slices(entries.take(i + 1));
        assert(next.drop_last() =~= prefix);
        assert(next.last() == first);
        let mut j: usize = 0;
        while j < slices.len() && slices[j] != first
            invariant
                j <= slices@.len(),
                forall|m: int| 0 <= m < j ==> slices@[m] != first,
            decreases slices@.len() - j,
        {
            j += 1;
        }
        if j == slices.len() {
            assert(!slices@.contains(first));
            slices.push(first);
            assert(slices@[j as int] == first);
        }
        events.push(event);
        event_slice.push(j);
        i += 1;
    }
    assert(entries.take(n as int) =~= entries);
    SlicePlan { events, event_slice, slices, missing: None }
}

/// Whether a pack entry cannot be loaded: it has no slice, or its first slice
/// does not lie within the decoded audio.
pub open spec fn entry_fails(entry: (KeyEvent, Seq<FrameSlice>), sample_len: nat, channels: nat) -> bool {
    entry.1.len() == 0 || slice_sample_range_spec(sample_len, channels, entry.1[0]) is Err
}

/// Why a failing entry cannot be loaded.
pub open spec fn entry_error(entry: (KeyEvent, Seq<FrameSlice>), sample_len: nat, channels: nat) -> SoundError {
    if entry.1.len() == 0 {
        SoundError::NoSourceFor(entry.0)
    } else {
        slice_sample_range_spec(sample_len, channels, entry.1[0])->Err_0
    }
}

/// The position of the last of `events` equal to `e`: a later entry for an
/// event replaces an earlier one.
pub open spec fn last_event_index(events: Seq<KeyEvent>, e: KeyEvent) -> Option<int>
    decreases events.len(),
{
    if events.len() == 0 {
        None
    } else if events.last() == e {
        Some(events.len() - 1)
    } else {
        last_event_index(events.drop_last(), e)
    }
}

/// The model of a `SoundLayout`.
pub ghost struct SoundLayoutView {
    pub events: Seq<KeyEvent>,
    pub event_slice: Seq<usize>,
    pub slices: Seq<FrameSlice>,
    pub ranges: Seq<(usize, usize)>,
}

/// The slice a layout plays for `e`: that of the last entry for `e`.
pub open spec fn layout_slice_of(l: SoundLayoutView, e: KeyEvent) -> Option<usize> {
    match last_event_index(l.events, e) {
        Some(i) => Some(l.event_slice[i]),
        None => None,
    }
}

/// A layout loaded from `entries` over `sample_len` samples of `channels`
/// channels: one event per entry, in order; the distinct first slices, in
/// order of first use, each with its sample range; and for each entry the
/// index of its first slice.
pub open spec fn layout_of(l: SoundLayoutView, entries: Seq<(KeyEvent, Seq<FrameSlice>)>, sample_len: nat, channels: nat) -> bool {
    &&& l.events == entries.map_values(|e: (KeyEvent, Seq<FrameSlice>)| e.0)
    &&& l.event_slice.len() == entries.len()
    &&& l.slices == dedup_slices(first_slices(entries))
    &&& forall|i: int| 0 <= i < entries.len() ==> {
        &&& (#[trigger] l.event_slice[i]) < l.slices.len()
        &&& l.slices[l.event_slice[i] as int] == entries[i].1[0]
    }
    &&& l.ranges.len() == l.slices.len()
    &&& forall|j: int| 0 <= j < l.slices.len() ==> slice_sample_range_spec(sample_len, channels, #[trigger] l.slices[j]) == Ok::<(usize, usize), SoundError>(l.ranges[j])
}

/// The slices of a loaded pack, their sample ranges, and which slice each
/// key event plays.
#[derive(Debug)]
pub struct SoundLayout {
    events: Vec<KeyEvent>,
    event_slice: Vec<usize>,
    slices: Vec<FrameSlice>,
    ranges: Vec<(usize, usize)>,
}

impl View for SoundLayout {
    type V = SoundLayoutView;

    closed spec fn view(&self) -> SoundLayoutView {
        SoundLayoutView {
            events: self.events@,
            event_slice: self.event_slice@,
            slices: self.slices@,
            ranges: self.ranges@,
        }
    }
}

impl SoundLayout {
    /// Every event has a slice index into the slices, and every slice a range.
    #[verifier::type_invariant]
    closed spec fn wf(self) -> bool {
        &&& self.event_slice@.len() == self.events@.len()
        &&& forall|i: int| 0 <= i < self.event_slice@.len() ==> #[trigger] self.event_slice@[i] < self.slices@.len()
        &&& self.ranges@.len() == self.slices@.len()
    }

    /// The events that have a sound, in entry order.
    pub fn events(&self) -> (r: &Vec<KeyEvent>)
        ensures
            r@ == self@.events,
    {
        &self.events
    }

    /// How many distinct slices the pack decodes.
    pub fn slice_count(&self) -> (r: usize)
        ensures
            r == self@.slices.len(),
    {
        self.slices.len()
    }

    /// The sample range `[start, end)` of slice `j`.
    pub fn range(&self, j: usize) -> (r: (usize, usize))
        requires
            j < self@.slices.len(),
        ensures
            r == self@.ranges[j as int],
    {
        proof {
            use_type_invariant(self);
        }
        self.ranges[j]
    }

    /// The slice `e` plays: that of the last entry for `e`; `None` when no
    /// entry is for `e`.
    pub fn slice_of(&self, e: KeyEvent) -> (r: Option<usize>)
        ensures
            r == layout_slice_of(self@, e),
            r matches Some(j) ==> j < self@.slices.len(),
    {
        proof {
            use_type_invariant(self);
        }
        let mut i: usize = self.events.len();
        assert(self.events@.take(i as int) =~= self.events@);
        while i > 0
            invariant
                i <= self.events@.len(),
                self.event_slice@.len() == self.events@.len(),
                forall|k: int| 0 <= k < self.event_slice@.len() ==> #[trigger] self.event_slice@[k] < self.slices@.len(),
                last_event_index(self.events@, e) == last_event_index(self.events@.take(i as int), e),
            decreases i,
        {
            let ghost t = self.events@.take(i as int);
            assert(t.last() == self.events@[i - 1]);
            if self.events[i - 1] == e {
                return Some(self.event_slice[i - 1]);
            }
            assert(t.drop_last() =~= self.events@.take(i - 1));
            i -= 1;
        }
        None
    }
}

proof fn lemma_take_all<A>(s: Seq<A>)
    ensures
        s.take(s.len() as int) == s,
{
    assert(s.take(s.len() as int) =~= s);
}

/// Lays out a pack for loading: plans its slices, then checks each entry in
/// order. Fails with the error of the first entry that has no slice or whose
/// first slice lies outside the decoded audio; otherwise gives every event
/// its slice and every distinct slice its sample range. When a key is listed
/// twice, its event plays the slice of the later entry.
pub fn build_sound_layout(
    defines: &[(Key, Vec<FrameSlice>)],
    releases: &[(Key, Vec<FrameSlice>)],
    sample_len: usize,
    channels: u16,
) -> (r: Result<SoundLayout, SoundError>)
    requires
        defines@.len() + releases@.len() <= usize::MAX,
    ensures
        ({
            let entries = event_entries(defines@, releases@);
            match r {
                Ok(layout) => {
                    &&& forall|i: int| 0 <= i < entries.len() ==> !entry_fails(#[trigger] entries[i], sample_len as nat, channels as nat)
                    &&& layout_of(layout@, entries, sample_len as nat, channels as nat)
                },
                Err(e) => exists|i: int| {
                    &&& 0 <= i < entries.len()
                    &&& entry_fails(#[trigger] entries[i], sample_len as nat, channels as nat)
                    &&& forall|j: int| 0 <= j < i ==> !entry_fails(#[trigger] entries[j], sample_len as nat, channels as nat)
                    &&& e == entry_error(entries[i], sample_len as nat, channels as nat)
                },
            }
        }),
        (forall|i: int| 0 <= i < event_entries(defines@, releases@).len() ==> !entry_fails(
            #[trigger] event_entries(defines@, releases@)[i],
            sample_len as nat,
            channels as nat,
        )) ==> r is Ok,
{
    let ghost entries = event_entries(defines@, releases@);
    let plan = plan_event_slices(defines, releases);
    let n = plan.events.len();
    let mut i: usize = 0;
    while i < n
        invariant
            entries == event_entries(defines@, releases@),
            n == plan.events@.len(),
            n <= entries.len(),
            plan.event_slice@.len() == n,
            i <= n,
            forall|k: int| 0 <= k < n ==> (#[trigger] entries[k]).1.len() > 0,
            forall|k: int| 0 <= k < n ==> {
                &&& (#[trigger] plan.event_slice@[k]) < plan.slices@.len()
                &&& plan.slices@[plan.event_slice@[k] as int] == entries[k].1[0]
            },
            forall|k: int| 0 <= k < i ==> !entry_fails(#[trigger] entries[k], sample_len as nat, channels as nat),
        decreases n - i,
    {
        let slice = plan.slices[plan.event_slice[i]];
        assert(slice == entries[i as int].1[0]);
        match slice_sample_range(sample_len, channels, slice) {
            Ok(_) => {},
            Err(e) => {
                assert(entry_fails(entries[i as int], sample_len as nat, channels as nat));
                return Err(e);
            },
        }
        i += 1;
    }
    if let Some(event) = plan.missing {
        assert(entry_fails(entries[n as int], sample_len as nat, channels as nat));
        return Err(SoundError::NoSourceFor(event));
    }
    assert(n == entries.len());
    proof {
        lemma_take_all(entries);
        lemma_dedup_slices(first_slices(entries));
    }
    let mut ranges: Vec<(usize, usize)> = Vec::new();
    let mut j: usize = 0;
    while j < plan.slices.len()
        invariant
            entries == event_entries(defines@, releases@),
            n == entries.len(),
            plan.slices@ == dedup_slices(first_slices(entries)),
            forall|x: FrameSlice| plan.slices@.contains(x) <==> first_slices(entries).contains(x),
            forall|k: int| 0 <= k < n ==> !entry_fails(#[trigger] entries[k], sample_len as nat, channels as nat),
            forall|k: int| 0 <= k < n ==> (#[trigger] entries[k]).1.len() > 0,
            j <= plan.slices@.len(),
            ranges@.len() == j,
            forall|m: int| 0 <= m < j ==> slice_sample_range_spec(sample_len as nat, channels as nat, #[trigger] plan.slices@[m]) == Ok::<(usize, usize), SoundError>(ranges@[m]),
        decreases plan.slices@.len() - j,
    {
        let slice = plan.slices[j];
        proof {
            assert(plan.slices@[j as int] == slice);
            assert(plan.slices@.contains(slice));
            assert(first_slices(entries).contains(slice));
            let k = choose|k: int| 0 <= k < first_slices(entries).len() && first_slices(entries)[k] == slice;
            assert(first_slices(entries)[k] == entries[k].1[0]);
            assert(!entry_fails(entries[k], sample_len as nat, channels as nat));
        }
        match slice_sample_range(sample_len, channels, slice) {
            Ok(range) => ranges.push(range),
            Err(e) => {
                return Err(e);
            },
        }
        j += 1;
    }
    let layout = SoundLayout { events: plan.events, event_slice: plan.event_slice, slices: plan.slices, ranges };
    assert(layout@.events =~= entries.map_values(|e: (KeyEvent, Seq<FrameSlice>)| e.0));
    Ok(layout)
}

/// What a loaded pack plays: an event has a sound exactly when some entry is
/// for it, and then it is cut from the first slice of the last entry for
/// it, later slices of that entry being ignored; events whose first slices
/// are equal share one decoded slice, as each distinct slice is decoded
/// once.
pub proof fn lemma_loaded_sound(
    l: SoundLayoutView,
    entries: Seq<(KeyEvent, Seq<FrameSlice>)>,
    sample_len: nat,
    channels: nat,
)
    requires
        layout_of(l, entries, sample_len, channels),
    ensures
        forall|e: KeyEvent| (layout_slice_of(l, e) is Some) <==> (exists|i: int| 0 <= i < entries.len() && (#[trigger] entries[i]).0 == e),
        forall|e: KeyEvent| #[trigger] layout_slice_of(l, e) is Some ==> {
            let i = last_event_index(l.events, e)->0;
            &&& 0 <= i < entries.len()
            &&& entries[i].0 == e
            &&& l.slices[layout_slice_of(l, e)->0 as int] == entries[i].1[0]
        },
        forall|e1: KeyEvent, e2: KeyEvent|
            #[trigger] layout_slice_of(l, e1) is Some && #[trigger] layout_slice_of(l, e2) is Some
                && entries[last_event_index(l.events, e1)->0].1[0] == entries[last_event_index(l.events, e2)->0].1[0]
                ==> layout_slice_of(l, e1) == layout_slice_of(l, e2),
        forall|i: int, j: int| 0 <= i < j < l.slices.len() ==> l.slices[i] != l.slices[j],
{
    lemma_dedup_slices(first_slices(entries));
    assert forall|e: KeyEvent| #[trigger] layout_slice_of(l, e) is Some ==> {
        let i = last_event_index(l.events, e)->0;
        &&& 0 <= i < entries.len()
        &&& entries[i].0 == e
        &&& l.slices[layout_slice_of(l, e)->0 as int] == entries[i].1[0]
    } by {
        if layout_slice_of(l, e) is Some {
            lemma_last_event_index(l.events, e);
            let i = last_event_index(l.events, e)->0;
            assert(l.events[i] == entries[i].0);
        }
    }
    assert forall|e: KeyEvent| (layout_slice_of(l, e) is Some) <==> (exists|i: int| 0 <= i < entries.len() && (#[trigger] entries[i]).0 == e) by {
        lemma_last_event_index(l.events, e);
        if exists|i: int| 0 <= i < entries.len() && (#[trigger] entries[i]).0 == e {
            let i = choose|i: int| 0 <= i < entries.len() && (#[trigger] entries[i]).0 == e;
            assert(l.events[i] == e);
        }
        if layout_slice_of(l, e) is Some {
            let i = last_event_index(l.events, e)->0;
            assert(l.events[i] == entries[i].0);
        }
    }
}

/// `last_event_index` is some position holding `e` when there is one.
pub proof fn lemma_last_event_index(events: Seq<KeyEvent>, e: KeyEvent)
    ensures
        last_event_index(events, e) matches Some(i) ==> 0 <= i < events.len() && events[i] == e,
        last_event_index(events, e) is None <==> forall|i: int| 0 <= i < events.len() ==> events[i] != e,
    decreases events.len(),
{
    if events.len() > 0 && events.last() != e {
        let rest = events.drop_last();
        lemma_last_event_index(rest, e);
        assert forall|i: int| 0 <= i < rest.len() implies rest[i] == events[i] by {}
        if last_event_index(events, e) is None {
            assert forall|i: int| 0 <= i < events.len() implies events[i] != e by {
                if i < rest.len() {
                    assert(rest[i] == events[i]);
                }
            }
        }
    }
}

/// `a * b`, or `u64::MAX` when the product does not fit.
pub fn saturating_mul_u64(a: u64, b: u64) -> (r: u64)
    ensures
        r == sat(a * b),
{
    match a.checked_mul(b) {
        Some(p) => p,
        None => u64::MAX,
    }
}

/// `a * b`, or `usize::MAX` when the product does not fit.
pub fn saturating_mul_usize(a: usize, b: usize) -> (r: usize)
    ensures
        r == (if a * b > usize::MAX { usize::MAX as int } else { a * b }),
{
    match a.checked_mul(b) {
        Some(p) => p,
        None => usize::MAX,
    }
}

/// The frame nearest to `milliseconds` at `sample_rate` (halves round up),
/// with saturating arithmetic.
pub open spec fn millis_to_frame_spec(milliseconds: u64, sample_rate: u32) -> u64 {
    (sat(sat(milliseconds * sample_rate) + 500) / 1000) as u64
}

/// The frame nearest to `milliseconds`.
pub fn millis_to_frame(milliseconds: u64, sample_rate: u32) -> (r: u64)
    ensures
        r == millis_to_frame_spec(milliseconds, sample_rate),
{
    saturating_mul_u64(milliseconds, sample_rate as u64).saturating_add(500) / 1000
}

/// A legacy `[start_ms, duration_ms]` slice as frames: from the frame nearest
/// the start to the frame nearest the end.
pub open spec fn legacy_slice_spec(slice: [u64; 2], sample_rate: u32) -> FrameSlice {
    let start_frame = millis_to_frame_spec(slice@[0], sample_rate);
    let end_frame = millis_to_frame_spec(sat(slice@[0] + slice@[1]), sample_rate);
    FrameSlice {
        start_frame,
        frame_count: if end_frame >= start_frame { (end_frame - start_frame) as u64 } else { 0 },
    }
}

/// Legacy millisecond defines as frame defines, entry by entry (a key listed
/// twice is converted twice).
pub fn legacy_defines_to_frames(defines: &[(Key, [u64; 2])], sample_rate: u32) -> (r: Vec<(Key, Vec<FrameSlice>)>)
    ensures
        r@.len() == defines@.len(),
        forall|i: int| 0 <= i < defines@.len() ==> {
            &&& (#[trigger] r@[i]).0 == defines@[i].0
            &&& r@[i].1@ == seq![legacy_slice_spec(defines@[i].1, sample_rate)]
        },
{
    let mut out: Vec<(Key, Vec<FrameSlice>)> = Vec::new();
    let mut i: usize = 0;
    while i < defines.len()
        invariant
            i <= defines@.len(),
            out@.len() == i,
            forall|j: int| 0 <= j < i ==> {
                &&& (#[trigger] out@[j]).0 == defines@[j].0
                &&& out@[j].1@ == seq![legacy_slice_spec(defines@[j].1, sample_rate)]
            },
        decreases defines@.len() - i,
    {
        let (key, slice) = defines[i];
        let start_ms = slice[0];
        let duration_ms = slice[1];
        let start_frame = millis_to_frame(start_ms, sample_rate);
        let end_frame = millis_to_frame(start_ms.saturating_add(duration_ms), sample_rate);
        let mut slices: Vec<FrameSlice> = Vec::new();
        slices.push(FrameSlice { start_frame, frame_count: end_frame.saturating_sub(start_frame) });
        out.push((key, slices));
        i += 1;
    }
    out
}

/// The audio file of a v2 pack must be one plain file name in the pack's
/// directory.
pub open spec fn audio_filename_ok(cs: Seq<PathComponentView>) -> bool {
    cs.len() == 1 && cs[0] is Normal
}

/// Refuses an audio file name that is not a single plain name.
pub fn ensure_audio_filename(filename: &str) -> (r: Result<(), SoundError>)
    ensures
        r is Ok <==> audio_filename_ok(spec_path_components(filename@)),
        r is Err ==> r == Err::<(), SoundError>(SoundError::AudioFileOutsidePack),
{
    let components = path_components(filename);
    proof {
        if components@.len() > 0 {
            assert(spec_path_components(filename@)[0] == components@[0]@);
        }
    }
    if components.len() == 1 {
        if let PathComponent::Normal(_) = &components[0] {
            return Ok(());
        }
    }
    Err(SoundError::AudioFileOutsidePack)
}

/// A v2 manifest must declare schema version 2 and an audio file inside the
/// pack.
pub fn check_v2_manifest(schema_version: u32, audio_file: &str) -> (r: Result<(), SoundError>)
    ensures
        schema_version != 2 ==> r == Err::<(), SoundError>(SoundError::UnsupportedSchemaVersion),
        schema_version == 2 ==> (r is Ok <==> ensure_audio_filename_result(audio_file@)),
        schema_version == 2 && r is Err ==> r == Err::<(), SoundError>(SoundError::AudioFileOutsidePack),
{
    if schema_version != 2 {
        return Err(SoundError::UnsupportedSchemaVersion);
    }
    ensure_audio_filename(audio_file)
}

pub open spec fn ensure_audio_filename_result(filename: Seq<char>) -> bool {
    audio_filename_ok(spec_path_components(filename))
}

/// What a v2 manifest declares about its audio file; each part optional.
#[derive(Debug, Clone, Copy, PartialEq, Eq, Structural)]
pub struct DeclaredAudio {
    pub sample_rate: Option<u32>,
    pub channels: Option<u16>,
    pub frame_count: Option<u64>,
}

/// The declared audio facts must match the decoded audio, checked in order:
/// sample rate, channels, frame count.
pub open spec fn check_declared_audio_spec(declared: DeclaredAudio, decoded: AudioFormat, sample_len: nat) -> Result<(), SoundError> {
    let frames = sample_len / (decoded.channels as nat);
    if declared.sample_rate matches Some(r) && r != decoded.sample_rate {
        Err(SoundError::SampleRateMismatch)
    } else if declared.channels matches Some(c) && c != decoded.channels {
        Err(SoundError::ChannelCountMismatch)
    } else if declared.frame_count matches Some(f) && f != frames {
        Err(SoundError::FrameCountMismatch)
    } else {
        Ok(())
    }
}

/// When the manifest's sample rate and channel count (if given) are those
/// of the decoded audio, the check passes exactly when the declared frame
/// count (if given) is the number of whole frames in the samples: `f` frames
/// of `channels` samples each fit, and one more frame does not.
pub proof fn lemma_declared_frames_count_whole_frames(declared: DeclaredAudio, decoded: AudioFormat, sample_len: nat)
    requires
        decoded.channels > 0,
        declared.sample_rate is None || declared.sample_rate == Some(decoded.sample_rate),
        declared.channels is None || declared.channels == Some(decoded.channels),
    ensures
        check_declared_audio_spec(declared, decoded, sample_len) is Ok <==> match declared.frame_count {
            None => true,
            Some(f) => f * decoded.channels <= sample_len < (f + 1) * decoded.channels,
        },
        check_declared_audio_spec(declared, decoded, sample_len) is Err ==> check_declared_audio_spec(
            declared,
            decoded,
            sample_len,
        ) == Err::<(), SoundError>(SoundError::FrameCountMismatch),
{
    if let Some(f) = declared.frame_count {
        let ch = decoded.channels as nat;
        let q = sample_len / ch;
        assert(q * ch <= sample_len < (q + 1) * ch) by (nonlinear_arith)
            requires
                ch > 0,
                q == sample_len / ch,
        ;
        if f * ch <= sample_len < (f + 1) * ch {
            assert(f == q) by (nonlinear_arith)
                requires
                    ch > 0,
                    f * ch <= sample_len < (f + 1) * ch,
                    q * ch <= sample_len < (q + 1) * ch,
            ;
        }
    }
}

/// Checks the decoded audio of a v2 pack against its manifest.
pub fn check_declared_audio(declared: DeclaredAudio, decoded: AudioFormat, sample_len: usize) -> (r: Result<(), SoundError>)
    requires
        decoded.channels > 0,
    ensures
        r == check_declared_audio_spec(declared, decoded, sample_len as nat),
{
    let frames: u64 = sample_len as u64 / decoded.channels as u64;
    if let Some(rate) = declared.sample_rate {
        if rate != decoded.sample_rate {
            return Err(SoundError::SampleRateMismatch);
        }
    }
    if let Some(channels) = declared.channels {
        if channels != decoded.channels {
            return Err(SoundError::ChannelCountMismatch);
        }
    }
    if let Some(frame_count) = declared.frame_count {
        if frame_count != frames {
            return Err(SoundError::FrameCountMismatch);
        }
    }
    Ok(())
}

/// The decoded audio of a pack may take at most 64 MiB as `f32`.
pub fn check_decoded_bank(sample_len: usize) -> (r: Result<(), SoundError>)
    ensures
        sat(sample_len * SAMPLE_BYTES) <= DECODED_BANK_BUDGET_BYTES <==> r is Ok,
        r is Err ==> r == Err::<(), SoundError>(SoundError::DecodedBankTooLarge { bytes: sat(sample_len * SAMPLE_BYTES) }),
{
    let bytes = saturating_mul_u64(sample_len as u64, SAMPLE_BYTES);
    if bytes <= DECODED_BANK_BUDGET_BYTES {
        Ok(())
    } else {
        Err(SoundError::DecodedBankTooLarge { bytes })
    }
}

/// A conversion needs nonzero rates and channel counts on both sides.
pub fn check_audio_formats(input: AudioFormat, output: AudioFormat) -> (r: Result<(), SoundError>)
    ensures
        r is Ok <==> (input.sample_rate > 0 && output.sample_rate > 0 && input.channels > 0 && output.channels > 0),
        r is Err ==> r == Err::<(), SoundError>(SoundError::InvalidFormat),
{
    if input.sample_rate > 0 && output.sample_rate > 0 && input.channels > 0 && output.channels > 0 {
        Ok(())
    } else {
        Err(SoundError::InvalidFormat)
    }
}

/// Interleaved samples must hold whole frames.
pub fn check_frame_aligned(sample_len: usize, channels: u16) -> (r: Result<(), SoundError>)
    ensures
        r is Ok <==> (channels > 0 && (sample_len as nat) % (channels as nat) == 0),
        r is Err ==> r == Err::<(), SoundError>(SoundError::NotFrameAligned),
{
    if channels > 0 && sample_len % (channels as usize) == 0 {
        Ok(())
    } else {
        Err(SoundError::NotFrameAligned)
    }
}

/// Frames after resampling `frames` from `input_rate` to `output_rate`,
/// rounded to nearest, with saturating arithmetic.
pub open spec fn resampled_frames_spec(frames: nat, input_rate: nat, output_rate: nat) -> nat {
    let scaled = if frames * output_rate > usize::MAX { usize::MAX as nat } else { frames * output_rate };
    let rounded = if scaled + input_rate / 2 > usize::MAX { usize::MAX as nat } else { scaled + input_rate / 2 };
    rounded / input_rate
}

/// The number of frames a resampled slice is cut or padded to.
pub fn resampled_frame_count(frames: usize, input_rate: u32, output_rate: u32) -> (r: usize)
    requires
        input_rate > 0,
    ensures
        r == resampled_frames_spec(frames as nat, input_rate as nat, output_rate as nat),
{
    saturating_mul_usize(frames, output_rate as usize).saturating_add(input_rate as usize / 2) / (input_rate as usize)
}

/// The sample range `[start, end)` a frame slice covers in interleaved
/// audio of `sample_len` samples, or why it is invalid.
pub open spec fn slice_sample_range_spec(sample_len: nat, channels: nat, slice: FrameSlice) -> Result<(usize, usize), SoundError> {
    if channels == 0 {
        Err(SoundError::NoChannels)
    } else if slice.frame_count == 0 {
        Err(SoundError::EmptySlice)
    } else if slice.start_frame * channels > u64::MAX {
        Err(SoundError::SliceStartOverflow)
    } else if slice.start_frame + slice.frame_count > u64::MAX
        || (slice.start_frame + slice.frame_count) * channels > u64::MAX {
        Err(SoundError::SliceEndOverflow)
    } else if slice.start_frame * channels > usize::MAX {
        Err(SoundError::SliceStartTooLarge)
    } else if (slice.start_frame + slice.frame_count) * channels > usize::MAX {
        Err(SoundError::SliceEndTooLarge)
    } else if (slice.start_frame + slice.frame_count) * channels > sample_len {
        Err(SoundError::SliceBeyondAudio)
    } else {
        Ok((
            (slice.start_frame * channels) as usize,
            ((slice.start_frame + slice.frame_count) * channels) as usize,
        ))
    }
}

/// Where a frame slice lies among the interleaved samples.
pub fn slice_sample_range(sample_len: usize, channels: u16, slice: FrameSlice) -> (r: Result<(usize, usize), SoundError>)
    ensures
        r == slice_sample_range_spec(sample_len as nat, channels as nat, slice),
        r matches Ok((start, end)) ==> start < end <= sample_len,
{
    if channels == 0 {
        return Err(SoundError::NoChannels);
    }
    if slice.frame_count == 0 {
        return Err(SoundError::EmptySlice);
    }
    let ch = channels as u64;
    let start = match slice.start_frame.checked_mul(ch) {
        Some(s) => s,
        None => return Err(SoundError::SliceStartOverflow),
    };
    let end_frame = match slice.start_frame.checked_add(slice.frame_count) {
        Some(e) => e,
        None => return Err(SoundError::SliceEndOverflow),
    };
    let end = match end_frame.checked_mul(ch) {
        Some(e) => e,
        None => return Err(SoundError::SliceEndOverflow),
    };
    if start > usize::MAX as u64 {
        return Err(SoundError::SliceStartTooLarge);
    }
    if end > usize::MAX as u64 {
        return Err(SoundError::SliceEndTooLarge);
    }
    let start = start as usize;
    let end = end as usize;
    if end > sample_len {
        return Err(SoundError::SliceBeyondAudio);
    }
    proof {
        assert(slice.start_frame * channels < (slice.start_frame + slice.frame_count) * channels) by (nonlinear_arith)
            requires
                slice.frame_count > 0,
                channels > 0,
        ;
    }
    Ok((start, end))
}

/// Fade lengths at a slice's edges: 0.5 ms in and 3 ms out (at least two
/// frames each), neither longer than half the slice.
pub open spec fn edge_fade_frames_spec(sample_len: nat, channels: nat, sample_rate: nat) -> Option<(nat, nat)> {
    if channels == 0 || sample_len < channels * 2 {
        None
    } else {
        let frames = sample_len / channels;
        let fade_in = if sample_rate / 2000 > 2 { sample_rate / 2000 } else { 2 };
        let fade_out = if sample_rate * 3 / 1000 > 2 { sample_rate * 3 / 1000 } else { 2 };
        Some((
            if fade_in < frames / 2 { fade_in } else { frames / 2 },
            if fade_out < frames / 2 { fade_out } else { frames / 2 },
        ))
    }
}

/// How many frames to fade in and out at the edges of a slice; `None` when
/// the slice is too short to fade.
pub fn edge_fade_frames(sample_len: usize, channels: u16, sample_rate: u32) -> (r: Option<(usize, usize)>)
    ensures
        match edge_fade_frames_spec(sample_len as nat, channels as nat, sample_rate as nat) {
            Some((a, b)) => r == Some((a as usize, b as usize)),
            None => r is None,
        },
{
    let ch = channels as usize;
    if ch == 0 || (sample_len as u64) < (ch as u64) * 2 {
        return None;
    }
    let frames = sample_len / ch;
    let half = frames / 2;
    let fade_in_base: u64 = if sample_rate as u64 / 2000 > 2 { sample_rate as u64 / 2000 } else { 2 };
    let fade_out_base: u64 = if sample_rate as u64 * 3 / 1000 > 2 { sample_rate as u64 * 3 / 1000 } else { 2 };
    let fade_in: usize = if fade_in_base < half as u64 { fade_in_base as usize } else { half };
    let fade_out: usize = if fade_out_base < half as u64 { fade_out_base as usize } else { half };
    Some((fade_in, fade_out))
}

/// The fades never overlap: together they fit in the slice, and each slice
/// long enough to fade gets fades of at least one frame.
pub proof fn lemma_edge_fades_fit(sample_len: nat, channels: nat, sample_rate: nat)
    requires
        edge_fade_frames_spec(sample_len, channels, sample_rate) is Some,
    ensures
        ({
            let (fade_in, fade_out) = edge_fade_frames_spec(sample_len, channels, sample_rate)->0;
            &&& fade_in + fade_out <= sample_len / channels
            &&& fade_in >= 1
            &&& fade_out >= 1
        }),
{
    assert(sample_len / channels >= 2) by (nonlinear_arith)
        requires
            channels > 0,
            sample_len >= channels * 2,
    ;
}

/// Bytes of `sample_count` cached samples must stay within the 48 MiB cache budget.
pub fn ensure_cached_sample_budget(sample_count: u64) -> (r: Result<(), SoundError>)
    ensures
        sat(sample_count * SAMPLE_BYTES) <= CACHED_SAMPLE_BUDGET_BYTES <==> r is Ok,
        r is Err ==> r == Err::<(), SoundError>(SoundError::SampleBudgetExceeded { bytes: sat(sample_count * SAMPLE_BYTES) }),
{
    let bytes = saturating_mul_u64(sample_count, SAMPLE_BYTES);
    if bytes <= CACHED_SAMPLE_BUDGET_BYTES {
        Ok(())
    } else {
        Err(SoundError::SampleBudgetExceeded { bytes })
    }
}

/// Adds a newly cached slice's samples to the running count (saturating)
/// and checks the budget.
pub fn add_cached_samples(cached: u64, added: usize) -> (r: Result<u64, SoundError>)
    ensures
        sat(sat(cached + added) * SAMPLE_BYTES) <= CACHED_SAMPLE_BUDGET_BYTES ==> r == Ok::<u64, SoundError>(sat(cached + added)),
        sat(sat(cached + added) * SAMPLE_BYTES) > CACHED_SAMPLE_BUDGET_BYTES ==> r == Err::<u64, SoundError>(
            SoundError::SampleBudgetExceeded { bytes: sat(sat(cached + added) * SAMPLE_BYTES) },
        ),
{
    let total = cached.saturating_add(added as u64);
    match ensure_cached_sample_budget(total) {
        Ok(()) => Ok(total),
        Err(e) => Err(e),
    }
}

/// Bytes `duration_ms` of audio takes decoded at `sample_rate` and
/// `channels` as `f32`, rounded up, with saturating products.
pub open spec fn estimate_decoded_sample_bytes_spec(duration_ms: u64, sample_rate: u64, channels: u64) -> u64 {
    let product = sat(sat(sat(duration_ms * sample_rate) * channels) * SAMPLE_BYTES);
    ((product + 999) / 1000) as u64
}

/// Estimated decoded size of `duration_ms` of audio.
pub fn estimate_decoded_sample_bytes(duration_ms: u64, sample_rate: u64, channels: u64) -> (r: u64)
    ensures
        r == estimate_decoded_sample_bytes_spec(duration_ms, sample_rate, channels),
{
    let product = saturating_mul_u64(saturating_mul_u64(saturating_mul_u64(duration_ms, sample_rate), channels), SAMPLE_BYTES);
    product / 1000 + if product % 1000 == 0 { 0 } else { 1 }
}

/// The total duration of the distinct `[start_ms, duration_ms]` slices
/// among `slices`: a repeated slice counts once.
pub open spec fn unique_duration(slices: Seq<[u64; 2]>) -> int
    decreases slices.len(),
{
    if slices.len() == 0 {
        0
    } else {
        let rest = slices.drop_last();
        unique_duration(rest) + if rest.contains(slices.last()) { 0 } else { slices.last()@[1] as int }
    }
}

/// Extending the slices never lowers the unique duration.
pub proof fn lemma_unique_duration_monotonic(slices: Seq<[u64; 2]>, n: int)
    requires
        0 <= n <= slices.len(),
    ensures
        unique_duration(slices.take(n)) <= unique_duration(slices),
    decreases slices.len() - n,
{
    if n < slices.len() {
        lemma_unique_duration_monotonic(slices, n + 1);
        assert(slices.take(n + 1).drop_last() =~= slices.take(n));
    } else {
        assert(slices.take(n) =~= slices);
    }
}

/// Adds a slice's duration to a running total.
pub open spec fn add_slice_duration() -> spec_fn(int, [u64; 2]) -> int {
    |total: int, slice: [u64; 2]| total + slice@[1]
}

/// The total duration of a set of distinct `[start_ms, duration_ms]` slices.
pub open spec fn distinct_slices_duration(slices: Set<[u64; 2]>) -> int {
    slices.fold(0int, add_slice_duration())
}

/// The unique duration is the total duration of the set of distinct slices:
/// each distinct slice counts once, whatever its place and however often it
/// occurs.
pub proof fn lemma_unique_duration_is_distinct_total(slices: Seq<[u64; 2]>)
    ensures
        unique_duration(slices) == distinct_slices_duration(slices.to_set()),
    decreases slices.len(),
{
    broadcast use vstd::seq_lib::seq_to_set_is_finite;
    let f = add_slice_duration();
    assert(vstd::set::fold::is_fun_commutative(f));
    if slices.len() == 0 {
        assert(slices.to_set() =~= Set::<[u64; 2]>::empty());
        vstd::set::fold::lemma_fold_empty(0int, f);
    } else {
        let rest = slices.drop_last();
        let x = slices.last();
        lemma_unique_duration_is_distinct_total(rest);
        assert forall|y: [u64; 2]| slices.to_set().contains(y) <==> rest.to_set().insert(x).contains(y) by {
            if slices.contains(y) {
                let k = choose|k: int| 0 <= k < slices.len() && slices[k] == y;
                if k < rest.len() {
                    assert(rest[k] == y);
                }
            }
            if rest.contains(y) {
                let k = choose|k: int| 0 <= k < rest.len() && rest[k] == y;
                assert(slices[k] == y);
            }
            assert(slices[slices.len() - 1] == x);
        }
        assert(slices.to_set() =~= rest.to_set().insert(x));
        if rest.contains(x) {
            assert(rest.to_set().insert(x) =~= rest.to_set());
        } else {
            vstd::set::fold::lemma_fold_insert(rest.to_set(), 0int, f, x);
        }
    }
}

/// Slices with the same distinct members have the same unique duration: a
/// slice repeated, or the slices reordered (presses and releases swapped, a
/// slice moved from the releases to the defines), changes nothing.
pub proof fn lemma_unique_duration_ignores_order_and_repeats(a: Seq<[u64; 2]>, b: Seq<[u64; 2]>)
    requires
        forall|x: [u64; 2]| a.contains(x) <==> b.contains(x),
    ensures
        unique_duration(a) == unique_duration(b),
{
    lemma_unique_duration_is_distinct_total(a);
    lemma_unique_duration_is_distinct_total(b);
    assert(a.to_set() =~= b.to_set());
}

/// The second elements of the defines followed by those of the releases.
pub open spec fn all_legacy_slices(defines: Seq<(Key, [u64; 2])>, releases: Seq<(Key, [u64; 2])>) -> Seq<[u64; 2]> {
    defines.map_values(|d: (Key, [u64; 2])| d.1) + releases.map_values(|d: (Key, [u64; 2])| d.1)
}

fn contains_slice(seen: &Vec<[u64; 2]>, slice: [u64; 2]) -> (r: bool)
    ensures
        r == seen@.contains(slice),
{
    let mut i: usize = 0;
    while i < seen.len()
        invariant
            i <= seen@.len(),
            forall|j: int| 0 <= j < i ==> seen@[j] != slice,
        decreases seen@.len() - i,
    {
        if seen[i][0] == slice[0] && seen[i][1] == slice[1] {
            assert(seen@[i as int] =~= slice);
            return true;
        }
        i += 1;
    }
    false
}

/// Total milliseconds of distinct slices across a legacy pack's presses and
/// releases. Every entry's slice takes part, also one whose key is listed
/// again; equal slices count once.
pub fn unique_slice_duration_ms(defines: &[(Key, [u64; 2])], releases: &[(Key, [u64; 2])]) -> (r: u64)
    requires
        defines@.len() + releases@.len() <= usize::MAX,
        unique_duration(all_legacy_slices(defines@, releases@)) <= u64::MAX,
    ensures
        r == unique_duration(all_legacy_slices(defines@, releases@)),
        r == distinct_slices_duration(all_legacy_slices(defines@, releases@).to_set()),
{
    let ghost all = all_legacy_slices(defines@, releases@);
    let mut seen: Vec<[u64; 2]> = Vec::new();
    let mut total: u64 = 0;
    let mut i: usize = 0;
    let n = defines.len() + releases.len();
    assert(all.take(0) =~= Seq::<[u64; 2]>::empty());
    while i < n
        invariant
            n == all.len(),
            n == defines@.len() + releases@.len(),
            all == all_legacy_slices(defines@, releases@),
            unique_duration(all) <= u64::MAX,
            i <= n,
            forall|x: [u64; 2]| seen@.contains(x) <==> all.take(i as int).contains(x),
            total == unique_duration(all.take(i as int)),
        decreases n - i,
    {
        let slice = if i < defines.len() { defines[i].1 } else { releases[i - defines.len()].1 };
        assert(slice == all[i as int]);
        let ghost prefix = all.take(i as int);
        let ghost old_seen = seen@;
        let ghost next = all.take(i + 1);
        assert(next.drop_last() =~= prefix);
        assert(next.last() == slice);
        assert(forall|k: int| 0 <= k < i ==> #[trigger] next[k] == prefix[k]);
        if !contains_slice(&seen, slice) {
            proof {
                lemma_unique_duration_monotonic(all, i + 1);
                assert(!prefix.contains(slice));
            }
            total = total + slice[1];
            seen.push(slice);
            proof {
                assert forall|x: [u64; 2]| seen@.contains(x) <==> next.contains(x) by {
                    assert(old_seen.contains(x) <==> prefix.contains(x));
                    if seen@.contains(x) {
                        let k = choose|k: int| 0 <= k < seen@.len() && #[trigger] seen@[k] == x;
                        if k < old_seen.len() {
                            assert(old_seen[k] == x);
                            let m = choose|m: int| 0 <= m < prefix.len() && #[trigger] prefix[m] == x;
                            assert(next[m] == x);
                        } else {
                            assert(next[i as int] == x);
                        }
                    }
                    if next.contains(x) {
                        let k = choose|k: int| 0 <= k < next.len() && #[trigger] next[k] == x;
                        if k < i {
                            assert(prefix[k] == x);
                            let m = choose|m: int| 0 <= m < old_seen.len() && #[trigger] old_seen[m] == x;
                            assert(seen@[m] == x);
                        } else {
                            assert(seen@[old_seen.len() as int] == x);
                        }
                    }
                }
            }
        } else {
            proof {
                assert(prefix.contains(slice));
                assert forall|x: [u64; 2]| seen@.contains(x) <==> next.contains(x) by {
                    assert(old_seen.contains(x) <==> prefix.contains(x));
                    if next.contains(x) {
                        let k = choose|k: int| 0 <= k < next.len() && #[trigger] next[k] == x;
                        if k < i {
                            assert(prefix[k] == x);
                        }
                    }
                    if prefix.contains(x) {
                        let m = choose|m: int| 0 <= m < prefix.len() && #[trigger] prefix[m] == x;
                        assert(next[m] == x);
                    }
                }
            }
        }
        i += 1;
    }
    assert(all.take(n as int) =~= all);
    proof {
        lemma_unique_duration_is_distinct_total(all);
    }
    total
}

/// A legacy pack must fit in the memory budget, estimated at 48 kHz stereo
/// over its distinct slices (every entry's slice takes part, as in
/// `unique_slice_duration_ms`).
pub fn ensure_sound_memory_budget(defines: &[(Key, [u64; 2])], releases: &[(Key, [u64; 2])]) -> (r: Result<(), SoundError>)
    requires
        defines@.len() + releases@.len() <= usize::MAX,
        unique_duration(all_legacy_slices(defines@, releases@)) <= u64::MAX,
    ensures
        ({
            let est = estimate_decoded_sample_bytes_spec(
                unique_duration(all_legacy_slices(defines@, releases@)) as u64,
                SOUND_MEMORY_BUDGET_SAMPLE_RATE,
                SOUND_MEMORY_BUDGET_CHANNELS,
            );
            &&& est <= SOUND_MEMORY_BUDGET_BYTES ==> r is Ok
            &&& est > SOUND_MEMORY_BUDGET_BYTES ==> r == Err::<(), SoundError>(SoundError::EstimatedBudgetExceeded { bytes: est })
        }),
{
    let estimated = estimate_decoded_sample_bytes(
        unique_slice_duration_ms(defines, releases),
        SOUND_MEMORY_BUDGET_SAMPLE_RATE,
        SOUND_MEMORY_BUDGET_CHANNELS,
    );
    if estimated <= SOUND_MEMORY_BUDGET_BYTES {
        Ok(())
    } else {
        Err(SoundError::EstimatedBudgetExceeded { bytes: estimated })
    }
}

/// The most keys a pack may define.
pub const MAX_DEFINED_KEYS: usize = 104;

/// The most distinct `[start_ms, duration_ms]` slices a pack may use.
pub const MAX_DISTINCT_SLICES: usize = 104;

/// The most milliseconds of distinct slices a pack may predecode: 18.5 s.
pub const MAX_DISTINCT_DURATION_MS: u64 = 18500;

/// The largest estimated buffer of one key's sound: 512 KiB.
pub const MAX_KEY_BUFFER_BYTES: u64 = 524288;

/// Estimated decoded bytes of one slice of `duration_ms`, at 48 kHz stereo
/// `f32`.
pub open spec fn key_buffer_bytes(duration_ms: u64) -> u64 {
    estimate_decoded_sample_bytes_spec(duration_ms, SOUND_MEMORY_BUDGET_SAMPLE_RATE, SOUND_MEMORY_BUDGET_CHANNELS)
}

/// The sum of the durations of `slices`, each counted as often as it occurs.
pub open spec fn durations_total(slices: Seq<[u64; 2]>) -> int
    decreases slices.len(),
{
    if slices.len() == 0 {
        0
    } else {
        durations_total(slices.drop_last()) + slices.last()@[1]
    }
}

/// The unique duration is the total over the distinct slices.
pub proof fn lemma_unique_duration_is_distinct_sum(slices: Seq<[u64; 2]>)
    ensures
        unique_duration(slices) == durations_total(dedup_slices(slices)),
    decreases slices.len(),
{
    if slices.len() > 0 {
        let rest = slices.drop_last();
        lemma_unique_duration_is_distinct_sum(rest);
        lemma_dedup_slices(rest);
        let d = dedup_slices(rest);
        if !d.contains(slices.last()) {
            assert(d.push(slices.last()).drop_last() =~= d);
        }
    }
}

/// A slice whose estimated buffer fits in 512 KiB lasts at most 1365 ms.
pub proof fn lemma_small_buffer_is_short(duration_ms: u64)
    requires
        key_buffer_bytes(duration_ms) <= MAX_KEY_BUFFER_BYTES,
    ensures
        duration_ms <= 1365,
{
    if duration_ms >= 1366 {
        assert(duration_ms * 48000 >= 65568000) by (nonlinear_arith)
            requires
                duration_ms >= 1366,
        ;
        let a = sat(duration_ms * 48000);
        let b = sat(a * 2);
        assert(b >= 131136000);
        let c = sat(b * 4);
        assert(c >= 524544000);
    }
}

/// The distinct slices of a legacy pack's presses and releases, in order of
/// first use.
pub fn distinct_legacy_slices(defines: &[(Key, [u64; 2])], releases: &[(Key, [u64; 2])]) -> (r: Vec<[u64; 2]>)
    requires
        defines@.len() + releases@.len() <= usize::MAX,
    ensures
        r@ == dedup_slices(all_legacy_slices(defines@, releases@)),
{
    let ghost all = all_legacy_slices(defines@, releases@);
    let n = defines.len() + releases.len();
    let mut seen: Vec<[u64; 2]> = Vec::new();
    let mut i: usize = 0;
    assert(all.take(0) =~= Seq::<[u64; 2]>::empty());
    while i < n
        invariant
            all == all_legacy_slices(defines@, releases@),
            n == all.len(),
            n == defines@.len() + releases@.len(),
            i <= n,
            seen@ == dedup_slices(all.take(i as int)),
        decreases n - i,
    {
        let slice = if i < defines.len() { defines[i].1 } else { releases[i - defines.len()].1 };
        assert(slice == all[i as int]);
        let ghost next = all.take(i + 1);
        assert(next.drop_last() =~= all.take(i as int));
        assert(next.last() == slice);
        if !contains_slice(&seen, slice) {
            seen.push(slice);
        }
        i += 1;
    }
    assert(all.take(n as int) =~= all);
    seen
}

/// The documented limits of a pack, checked before it is predecoded, in
/// this order: at most 104 defined keys (entries of `defines`), at most 104
/// distinct slices, no slice whose estimated buffer passes 512 KiB, at most
/// 18.5 s of distinct slices, and an estimated 10 MiB of decoded samples at
/// 48 kHz stereo. Every entry counts, also one whose key occurs again.
pub fn check_pack_limits(defines: &[(Key, [u64; 2])], releases: &[(Key, [u64; 2])]) -> (r: Result<(), SoundError>)
    requires
        defines@.len() + releases@.len() <= usize::MAX,
    ensures
        ({
            let all = all_legacy_slices(defines@, releases@);
            let distinct = dedup_slices(all);
            let keys_ok = defines@.len() <= MAX_DEFINED_KEYS;
            let slices_ok = distinct.len() <= MAX_DISTINCT_SLICES;
            let buffers_ok = forall|i: int| 0 <= i < all.len() ==> key_buffer_bytes(#[trigger] all[i]@[1]) <= MAX_KEY_BUFFER_BYTES;
            let duration_ok = unique_duration(all) <= MAX_DISTINCT_DURATION_MS;
            let estimate = estimate_decoded_sample_bytes_spec(
                unique_duration(all) as u64,
                SOUND_MEMORY_BUDGET_SAMPLE_RATE,
                SOUND_MEMORY_BUDGET_CHANNELS,
            );
            let memory_ok = estimate <= SOUND_MEMORY_BUDGET_BYTES;
            &&& r is Ok <==> (keys_ok && slices_ok && buffers_ok && duration_ok && memory_ok)
            &&& !keys_ok ==> r == Err::<(), SoundError>(SoundError::TooManyKeys { count: defines@.len() as usize })
            &&& keys_ok && !slices_ok ==> r == Err::<(), SoundError>(SoundError::TooManySlices { count: distinct.len() as usize })
            &&& keys_ok && slices_ok && !buffers_ok ==> exists|i: int| {
                &&& 0 <= i < all.len()
                &&& key_buffer_bytes(#[trigger] all[i]@[1]) > MAX_KEY_BUFFER_BYTES
                &&& forall|j: int| 0 <= j < i ==> key_buffer_bytes(#[trigger] all[j]@[1]) <= MAX_KEY_BUFFER_BYTES
                &&& r == Err::<(), SoundError>(SoundError::KeyBufferTooLarge { bytes: key_buffer_bytes(all[i]@[1]) })
            }
            &&& keys_ok && slices_ok && buffers_ok && !duration_ok
                ==> r == Err::<(), SoundError>(SoundError::DurationTooLong { ms: unique_duration(all) as u64 })
            &&& keys_ok && slices_ok && buffers_ok && duration_ok && !memory_ok
                ==> r == Err::<(), SoundError>(SoundError::EstimatedBudgetExceeded { bytes: estimate })
        }),
{
    let ghost all = all_legacy_slices(defines@, releases@);
    if defines.len() > MAX_DEFINED_KEYS {
        return Err(SoundError::TooManyKeys { count: defines.len() });
    }
    let distinct = distinct_legacy_slices(defines, releases);
    if distinct.len() > MAX_DISTINCT_SLICES {
        return Err(SoundError::TooManySlices { count: distinct.len() });
    }
    let n = defines.len() + releases.len();
    let mut i: usize = 0;
    while i < n
        invariant
            all == all_legacy_slices(defines@, releases@),
            n == all.len(),
            n == defines@.len() + releases@.len(),
            i <= n,
            defines@.len() <= MAX_DEFINED_KEYS,
            distinct@ == dedup_slices(all),
            distinct@.len() <= MAX_DISTINCT_SLICES,
            forall|k: int| 0 <= k < i ==> key_buffer_bytes(#[trigger] all[k]@[1]) <= MAX_KEY_BUFFER_BYTES,
        decreases n - i,
    {
        let slice = if i < defines.len() { defines[i].1 } else { releases[i - defines.len()].1 };
        assert(slice == all[i as int]);
        let bytes = estimate_decoded_sample_bytes(slice[1], SOUND_MEMORY_BUDGET_SAMPLE_RATE, SOUND_MEMORY_BUDGET_CHANNELS);
        if bytes > MAX_KEY_BUFFER_BYTES {
            assert(bytes == key_buffer_bytes(all[i as int]@[1]));
            assert(key_buffer_bytes(all[i as int]@[1]) > MAX_KEY_BUFFER_BYTES);
            assert(!(forall|k: int| 0 <= k < all.len() ==> key_buffer_bytes(#[trigger] all[k]@[1]) <= MAX_KEY_BUFFER_BYTES));
            return Err(SoundError::KeyBufferTooLarge { bytes });
        }
        i += 1;
    }
    proof {
        lemma_dedup_slices(all);
        lemma_unique_duration_is_distinct_sum(all);
    }
    let mut total: u64 = 0;
    let mut j: usize = 0;
    while j < distinct.len()
        invariant
            all == all_legacy_slices(defines@, releases@),
            forall|k: int| 0 <= k < all.len() ==> key_buffer_bytes(#[trigger] all[k]@[1]) <= MAX_KEY_BUFFER_BYTES,
            forall|x: [u64; 2]| dedup_slices(all).contains(x) <==> all.contains(x),
            distinct@ == dedup_slices(all),
            distinct@.len() <= MAX_DISTINCT_SLICES,
            defines@.len() <= MAX_DEFINED_KEYS,
            unique_duration(all) == durations_total(dedup_slices(all)),
            j <= distinct@.len(),
            total == durations_total(distinct@.take(j as int)),
            total <= j * 1365,
        decreases distinct@.len() - j,
    {
        let slice = distinct[j];
        proof {
            assert(distinct@[j as int] == slice);
            assert(distinct@.contains(slice));
            assert(all.contains(slice));
            let k = choose|k: int| 0 <= k < all.len() && all[k] == slice;
            assert(key_buffer_bytes(all[k]@[1]) <= MAX_KEY_BUFFER_BYTES);
            lemma_small_buffer_is_short(slice[1]);
            assert(distinct@.take(j + 1).drop_last() =~= distinct@.take(j as int));
        }
        total = total + slice[1];
        j += 1;
    }
    assert(distinct@.take(distinct@.len() as int) =~= distinct@);
    if total > MAX_DISTINCT_DURATION_MS {
        return Err(SoundError::DurationTooLong { ms: total });
    }
    let estimate = estimate_decoded_sample_bytes(total, SOUND_MEMORY_BUDGET_SAMPLE_RATE, SOUND_MEMORY_BUDGET_CHANNELS);
    if estimate > SOUND_MEMORY_BUDGET_BYTES {
        return Err(SoundError::EstimatedBudgetExceeded { bytes: estimate });
    }
    Ok(())
}

} // verus!
