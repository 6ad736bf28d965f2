use keyecho::keys::{Key, KeyEvent};
use keyecho::sound::{
    check_pack_limits, distinct_legacy_slices, MAX_DEFINED_KEYS, MAX_DISTINCT_DURATION_MS, MAX_KEY_BUFFER_BYTES,
    add_cached_samples, build_sound_layout, CACHED_SAMPLE_BUDGET_BYTES, check_declared_audio, check_v2_manifest, AudioFormat, DeclaredAudio, edge_fade_frames, ensure_audio_filename, ensure_sound_memory_budget, estimate_decoded_sample_bytes,
    legacy_defines_to_frames, millis_to_frame, plan_event_slices, resampled_frame_count, slice_sample_range,
    unique_slice_duration_ms, FrameSlice, SoundError, SOUND_MEMORY_BUDGET_BYTES, SOUND_MEMORY_BUDGET_CHANNELS,
    SOUND_MEMORY_BUDGET_SAMPLE_RATE,
};
use keyecho::soundpack::{insert_sound_option, rebase_path, ConfigKey, SoundOption};

#[test]
fn legacy_milliseconds_map_to_nearest_frame() {
    let defines = legacy_defines_to_frames(&[(Key::KeyA, [1, 1])], 44_100);

    assert_eq!(defines[0].0, Key::KeyA);
    assert_eq!(defines[0].1, vec![FrameSlice { start_frame: 44, frame_count: 44 }]);
}

#[test]
fn millis_to_frame_rounds_half_up_and_saturates() {
    assert_eq!(millis_to_frame(1, 500), 1);
    assert_eq!(millis_to_frame(1, 499), 0);
    assert_eq!(millis_to_frame(u64::MAX, 48_000), u64::MAX / 1000);
}

#[test]
fn frame_slice_is_sample_exact_for_interleaved_audio() {
    let samples: Vec<u32> = (0..12).collect();
    let (start, end) = slice_sample_range(samples.len(), 2, FrameSlice { start_frame: 1, frame_count: 2 })
        .expect("valid slice");

    assert_eq!(samples[start..end].to_vec(), vec![2, 3, 4, 5]);
    assert_eq!(
        slice_sample_range(12, 2, FrameSlice { start_frame: 5, frame_count: 2 }),
        Err(SoundError::SliceBeyondAudio)
    );
    assert_eq!(slice_sample_range(12, 0, FrameSlice { start_frame: 0, frame_count: 1 }), Err(SoundError::NoChannels));
    assert_eq!(slice_sample_range(12, 1, FrameSlice { start_frame: 0, frame_count: 0 }), Err(SoundError::EmptySlice));
    assert_eq!(
        slice_sample_range(12, 2, FrameSlice { start_frame: u64::MAX, frame_count: 1 }),
        Err(SoundError::SliceStartOverflow)
    );
    assert_eq!(
        slice_sample_range(12, 1, FrameSlice { start_frame: u64::MAX, frame_count: 1 }),
        Err(SoundError::SliceEndOverflow)
    );
}

#[test]
fn discontinuous_slice_edges_are_faded_without_changing_length() {
    assert_eq!(edge_fade_frames(20, 1, 1_000), Some((2, 3)));
    assert_eq!(edge_fade_frames(20, 1, 48_000), Some((10, 10)));
    assert_eq!(edge_fade_frames(3, 2, 48_000), None);
    assert_eq!(edge_fade_frames(3, 0, 48_000), None);
}

#[test]
fn v2_audio_file_cannot_escape_soundpack() {
    assert!(ensure_audio_filename("sound.flac").is_ok());
    assert!(ensure_audio_filename("../sound.flac").is_err());
    assert!(ensure_audio_filename("nested/sound.flac").is_err());
}

#[test]
fn cold_path_resampling_produces_device_rate_frames() {
    assert_eq!(resampled_frame_count(441, 44_100, 48_000), 480);
    assert_eq!(resampled_frame_count(441, 44_100, 44_100), 441);
}

#[test]
fn sound_memory_budget_allows_limit_boundary() {
    let duration_ms =
        SOUND_MEMORY_BUDGET_BYTES * 1_000 / SOUND_MEMORY_BUDGET_SAMPLE_RATE / SOUND_MEMORY_BUDGET_CHANNELS / 4;
    let defines = [(Key::KeyA, [0, duration_ms])];

    ensure_sound_memory_budget(&defines, &[]).expect("at the limit");
}

#[test]
fn sound_memory_budget_rejects_oversized_soundpack() {
    let limit_duration_ms =
        SOUND_MEMORY_BUDGET_BYTES * 1_000 / SOUND_MEMORY_BUDGET_SAMPLE_RATE / SOUND_MEMORY_BUDGET_CHANNELS / 4;
    let defines = [(Key::KeyA, [0, limit_duration_ms + 1])];

    let err = ensure_sound_memory_budget(&defines, &[]).expect_err("budget should reject");
    assert!(err.message().contains("decoded sample budget exceeded"));
}

#[test]
fn sound_memory_budget_dedupes_identical_slices() {
    let defines = [(Key::KeyA, [0, 100]), (Key::KeyB, [0, 100])];

    assert_eq!(unique_slice_duration_ms(&defines, &[]), 100);
    assert_eq!(estimate_decoded_sample_bytes(100, 48_000, 2), 38_400);
    assert_eq!(unique_slice_duration_ms(&defines, &[(Key::KeyA, [0, 100]), (Key::KeyC, [5, 7])]), 107);
    assert_eq!(estimate_decoded_sample_bytes(1, 1, 1), 1);
}

#[test]
fn key_sound_decodes_each_unique_slice_once() {
    let defines = legacy_defines_to_frames(&[(Key::KeyA, [0, 24]), (Key::KeyB, [0, 24]), (Key::KeyC, [24, 24])], 44_100);

    let plan = plan_event_slices(&defines, &[]);

    let first = FrameSlice { start_frame: 0, frame_count: 1058 };
    let second = FrameSlice { start_frame: 1058, frame_count: 1059 };
    assert_eq!(plan.slices, vec![first, second]);
    assert_eq!(
        plan.events,
        vec![KeyEvent::KeyPress(Key::KeyA), KeyEvent::KeyPress(Key::KeyB), KeyEvent::KeyPress(Key::KeyC)]
    );
    assert_eq!(plan.event_slice[0], plan.event_slice[1]);
    assert_ne!(plan.event_slice[0], plan.event_slice[2]);
    assert_eq!(plan.missing, None);
}

#[test]
fn key_sound_returns_distinct_press_and_release_sources() {
    let defines = legacy_defines_to_frames(&[(Key::KeyA, [0, 24])], 44_100);
    let releases = legacy_defines_to_frames(&[(Key::KeyA, [24, 24])], 44_100);

    let plan = plan_event_slices(&defines, &releases);

    assert_eq!(plan.events, vec![KeyEvent::KeyPress(Key::KeyA), KeyEvent::KeyRelease(Key::KeyA)]);
    assert_eq!(plan.slices[plan.event_slice[0]].start_frame, millis_to_frame(0, 44_100));
    assert_eq!(plan.slices[plan.event_slice[1]].start_frame, millis_to_frame(24, 44_100));
    assert_ne!(plan.event_slice[0], plan.event_slice[1]);
}

#[test]
fn slices_shared_across_presses_and_releases_are_planned_once() {
    let a = FrameSlice { start_frame: 0, frame_count: 24 };
    let b = FrameSlice { start_frame: 24, frame_count: 24 };
    let defines = vec![(Key::KeyA, vec![a]), (Key::KeyB, vec![a, b]), (Key::KeyC, vec![b])];
    let releases = vec![(Key::KeyA, vec![b])];

    let plan = plan_event_slices(&defines, &releases);

    assert_eq!(plan.slices, vec![a, b]);
    assert_eq!(plan.event_slice, vec![0, 0, 1, 1]);
    assert_eq!(plan.missing, None);
}

#[test]
fn planning_stops_at_an_event_without_a_source() {
    let a = FrameSlice { start_frame: 0, frame_count: 24 };
    let plan = plan_event_slices(&[(Key::KeyA, vec![a]), (Key::KeyB, vec![])], &[(Key::KeyA, vec![a])]);
    assert_eq!(plan.events, vec![KeyEvent::KeyPress(Key::KeyA)]);
    assert_eq!(plan.missing, Some(KeyEvent::KeyPress(Key::KeyB)));
}

#[test]
fn inserting_a_pack_twice_keeps_one_entry() {
    let mut sounds = Vec::new();
    assert!(insert_sound_option(&mut sounds, SoundOption { name: "blue".into(), value: "/a/blue".into() }));
    assert!(!insert_sound_option(&mut sounds, SoundOption { name: "blue".into(), value: "/b/blue".into() }));
    assert_eq!(sounds.len(), 1);
    assert_eq!(sounds[0].value, "/a/blue");
    assert_eq!(ConfigKey::CurrentSound.as_str(), "currentSound");
}

#[test]
fn legacy_data_copy_preserves_new_files_and_rebases_config_paths() {
    let mut value = "/data/xyz.waveapps.keyecho/sounds/blue".to_string();
    rebase_path(&mut value, "/data/xyz.waveapps.keyecho", "/data/app.keyecho.keyecho");
    assert_eq!(value, "/data/app.keyecho.keyecho/sounds/blue");

    let mut other = "/elsewhere/blue".to_string();
    rebase_path(&mut other, "/data/xyz.waveapps.keyecho", "/data/app.keyecho.keyecho");
    assert_eq!(other, "/elsewhere/blue");

    let mut sibling = "/data/xyz.waveapps.keyecho2/sounds".to_string();
    rebase_path(&mut sibling, "/data/xyz.waveapps.keyecho", "/new");
    assert_eq!(sibling, "/data/xyz.waveapps.keyecho2/sounds");
}

#[test]
fn v2_manifest_accepts_frame_exact_variants() {
    let declared = DeclaredAudio { sample_rate: Some(48_000), channels: Some(1), frame_count: Some(4000) };
    let decoded = AudioFormat { sample_rate: 48_000, channels: 1 };
    let defines = vec![(
        Key::KeyA,
        vec![FrameSlice { start_frame: 0, frame_count: 100 }, FrameSlice { start_frame: 100, frame_count: 100 }],
    )];
    let releases = vec![(Key::KeyA, vec![FrameSlice { start_frame: 200, frame_count: 80 }])];

    assert_eq!(check_v2_manifest(2, "sound.flac"), Ok(()));
    assert_eq!(check_declared_audio(declared, decoded, 4000), Ok(()));
    let layout = build_sound_layout(&defines, &releases, 4000, 1).expect("frame-exact variants load");
    assert_eq!(layout.slice_count(), 2);
    let press = layout.slice_of(KeyEvent::KeyPress(Key::KeyA)).expect("press sound");
    let release = layout.slice_of(KeyEvent::KeyRelease(Key::KeyA)).expect("release sound");
    assert_eq!(layout.range(press), (0, 100));
    assert_eq!(layout.range(release), (200, 280));
    assert_eq!(check_v2_manifest(3, "sound.flac"), Err(SoundError::UnsupportedSchemaVersion));
    assert_eq!(check_declared_audio(declared, decoded, 4001), Err(SoundError::FrameCountMismatch));
    assert_eq!(
        check_declared_audio(declared, AudioFormat { sample_rate: 44_100, channels: 1 }, 4000),
        Err(SoundError::SampleRateMismatch)
    );
    assert_eq!(
        check_declared_audio(declared, AudioFormat { sample_rate: 48_000, channels: 2 }, 8000),
        Err(SoundError::ChannelCountMismatch)
    );
}

#[test]
fn v2_pack_reuses_fixed_source_for_same_key_event() {
    let declared = DeclaredAudio { sample_rate: Some(48_000), channels: Some(1), frame_count: Some(400) };
    assert_eq!(check_declared_audio(declared, AudioFormat { sample_rate: 48_000, channels: 1 }, 400), Ok(()));

    let first = FrameSlice { start_frame: 0, frame_count: 100 };
    let second = FrameSlice { start_frame: 100, frame_count: 100 };
    let release = FrameSlice { start_frame: 200, frame_count: 80 };
    let plan = plan_event_slices(&[(Key::KeyA, vec![first, second])], &[(Key::KeyA, vec![release])]);

    assert_eq!(plan.events, vec![KeyEvent::KeyPress(Key::KeyA), KeyEvent::KeyRelease(Key::KeyA)]);
    assert_eq!(plan.slices[plan.event_slice[0]], first);
    assert_eq!(plan.slices[plan.event_slice[1]], release);
    assert_eq!(plan.slices, vec![first, release]);
    assert_eq!(slice_sample_range(400, 1, release), Ok((200, 280)));
}

#[test]
fn loaded_sound_plays_first_slices_and_shares_equal_ones() {
    let a = FrameSlice { start_frame: 0, frame_count: 10 };
    let b = FrameSlice { start_frame: 10, frame_count: 10 };
    let defines = vec![(Key::KeyA, vec![a, b]), (Key::KeyB, vec![a]), (Key::KeyC, vec![b])];
    let releases = vec![(Key::KeyA, vec![b])];

    let layout = build_sound_layout(&defines, &releases, 40, 2).expect("valid pack");

    assert_eq!(layout.slice_count(), 2);
    let press_a = layout.slice_of(KeyEvent::KeyPress(Key::KeyA)).expect("A");
    let press_b = layout.slice_of(KeyEvent::KeyPress(Key::KeyB)).expect("B");
    let press_c = layout.slice_of(KeyEvent::KeyPress(Key::KeyC)).expect("C");
    let release_a = layout.slice_of(KeyEvent::KeyRelease(Key::KeyA)).expect("A up");
    assert_eq!(press_a, press_b);
    assert_eq!(press_c, release_a);
    assert_ne!(press_a, press_c);
    assert_eq!(layout.range(press_a), (0, 20));
    assert_eq!(layout.range(press_c), (20, 40));
    assert_eq!(layout.slice_of(KeyEvent::KeyRelease(Key::KeyB)), None);
}

#[test]
fn loaded_sound_takes_the_last_entry_for_an_event() {
    let a = FrameSlice { start_frame: 0, frame_count: 10 };
    let b = FrameSlice { start_frame: 10, frame_count: 10 };
    let layout = build_sound_layout(&[(Key::Function, vec![a]), (Key::Function, vec![b])], &[], 20, 1).expect("valid");

    let slice = layout.slice_of(KeyEvent::KeyPress(Key::Function)).expect("Fn");
    assert_eq!(layout.range(slice), (10, 20));
}

#[test]
fn loading_fails_on_the_first_bad_entry() {
    let ok = FrameSlice { start_frame: 0, frame_count: 10 };
    let past_end = FrameSlice { start_frame: 30, frame_count: 10 };
    let empty = FrameSlice { start_frame: 0, frame_count: 0 };

    assert_eq!(
        build_sound_layout(&[(Key::KeyA, vec![ok]), (Key::KeyB, vec![])], &[], 20, 1).err(),
        Some(SoundError::NoSourceFor(KeyEvent::KeyPress(Key::KeyB)))
    );
    assert_eq!(
        build_sound_layout(&[(Key::KeyA, vec![past_end]), (Key::KeyB, vec![])], &[], 20, 1).err(),
        Some(SoundError::SliceBeyondAudio)
    );
    assert_eq!(
        build_sound_layout(&[(Key::KeyA, vec![ok])], &[(Key::KeyA, vec![empty])], 20, 1).err(),
        Some(SoundError::EmptySlice)
    );
    assert!(build_sound_layout(&[(Key::KeyA, vec![ok, past_end])], &[], 20, 1).is_ok());
}

#[test]
fn cached_samples_may_take_forty_eight_mebibytes() {
    let limit = (CACHED_SAMPLE_BUDGET_BYTES / 4) as usize;
    assert_eq!(add_cached_samples(0, limit), Ok(limit as u64));
    assert_eq!(
        add_cached_samples(limit as u64, 1),
        Err(SoundError::SampleBudgetExceeded { bytes: CACHED_SAMPLE_BUDGET_BYTES + 4 })
    );
}

#[test]
fn unique_duration_ignores_order_and_repeats() {
    let defines = [(Key::KeyA, [0, 100]), (Key::KeyB, [100, 50])];
    let releases = [(Key::KeyA, [0, 100]), (Key::KeyC, [200, 7])];

    let total = unique_slice_duration_ms(&defines, &releases);
    assert_eq!(total, 157);
    assert_eq!(unique_slice_duration_ms(&releases, &defines), total);
    assert_eq!(
        unique_slice_duration_ms(&[(Key::KeyA, [0, 100]), (Key::KeyB, [100, 50]), (Key::KeyC, [200, 7])], &[]),
        total
    );
}

#[test]
fn pack_limits_refuse_a_key_buffer_over_512_kib() {
    assert_eq!(check_pack_limits(&[(Key::KeyA, [0, 1365])], &[]), Ok(()));
    assert_eq!(estimate_decoded_sample_bytes(1366, 48_000, 2), 524_544);
    assert_eq!(
        check_pack_limits(&[(Key::KeyA, [0, 1366])], &[]),
        Err(SoundError::KeyBufferTooLarge { bytes: 524_544 })
    );
    assert!(estimate_decoded_sample_bytes(1365, 48_000, 2) <= MAX_KEY_BUFFER_BYTES);
}

#[test]
fn pack_limits_refuse_too_many_keys_slices_or_seconds() {
    let keys: Vec<(Key, [u64; 2])> = (0..=MAX_DEFINED_KEYS as u64).map(|i| (Key::KeyA, [i * 10, 10])).collect();
    assert_eq!(check_pack_limits(&keys, &[]), Err(SoundError::TooManyKeys { count: 105 }));

    let presses: Vec<(Key, [u64; 2])> = (0..100u64).map(|i| (Key::KeyA, [i * 10, 10])).collect();
    let releases: Vec<(Key, [u64; 2])> = (100..105u64).map(|i| (Key::KeyA, [i * 10, 10])).collect();
    assert_eq!(check_pack_limits(&presses, &releases), Err(SoundError::TooManySlices { count: 105 }));
    assert_eq!(distinct_legacy_slices(&presses, &presses).len(), 100);

    let long: Vec<(Key, [u64; 2])> = (0..14u64).map(|i| (Key::KeyA, [i * 2000, 1350])).collect();
    assert_eq!(check_pack_limits(&long, &[]), Err(SoundError::DurationTooLong { ms: 18_900 }));
    assert!(18_900 > MAX_DISTINCT_DURATION_MS);

    let fits: Vec<(Key, [u64; 2])> = (0..13u64).map(|i| (Key::KeyA, [i * 2000, 1350])).collect();
    assert_eq!(check_pack_limits(&fits, &fits), Ok(()));
}
