use yin::frames::{frame_starts, get_frame_count, result_len};

#[test]
fn frame_count_zero_for_short_buffer() {
    // A buffer shorter than one frame yields no frames: defined, not an error.
    assert_eq!(get_frame_count(1000, 1024, 256), 0);
    assert_eq!(get_frame_count(0, 1, 1), 0);
    assert_eq!(get_frame_count(511, 512, 256), 0);
}

#[test]
fn frame_count_two_frames_in_thousand_samples() {
    assert_eq!(get_frame_count(1000, 512, 256), 2);
}

#[test]
fn frame_count_formula_cases() {
    assert_eq!(get_frame_count(512, 512, 256), 1);
    assert_eq!(get_frame_count(1024, 512, 512), 2);
    assert_eq!(get_frame_count(1023, 512, 512), 1);
    assert_eq!(get_frame_count(10, 4, 1), 7);
    assert_eq!(get_frame_count(10, 4, 3), 3);
    assert_eq!(get_frame_count(10, 10, 3), 1);
}

#[test]
fn frame_starts_offsets_for_thousand_samples() {
    assert_eq!(frame_starts(1000, 512, 256), vec![0, 256]);
    assert_eq!(frame_starts(10, 4, 3), vec![0, 3, 6]);
}

#[test]
fn frame_starts_empty_for_short_buffer() {
    assert!(frame_starts(1000, 1024, 256).is_empty());
    assert!(frame_starts(0, 1, 1).is_empty());
}

#[test]
fn frame_starts_agree_with_frame_count() {
    for audio_len in [0usize, 1, 63, 64, 100, 511, 512, 1000, 4096] {
        for frame_size in [1usize, 2, 64, 512] {
            for hop_size in [1usize, 3, 64, 256] {
                let starts = frame_starts(audio_len, frame_size, hop_size);
                assert_eq!(starts.len(), get_frame_count(audio_len, frame_size, hop_size));
            }
        }
    }
}

#[test]
fn frame_starts_leave_room_for_frame() {
    for audio_len in [64usize, 100, 1000, 4096] {
        for frame_size in [2usize, 64, 512] {
            for hop_size in [1usize, 3, 256] {
                for (i, &start) in frame_starts(audio_len, frame_size, hop_size)
                    .iter()
                    .enumerate()
                {
                    assert_eq!(start, i * hop_size);
                    assert!(start + frame_size <= audio_len);
                }
            }
        }
    }
}

#[test]
fn result_len_three_entries_per_frame() {
    assert_eq!(result_len(1000, 512, 256), 6);
    assert_eq!(result_len(1000, 1024, 256), 0);
    for audio_len in [0usize, 100, 1000, 4096] {
        for frame_size in [1usize, 64, 512] {
            for hop_size in [1usize, 256] {
                assert_eq!(
                    result_len(audio_len, frame_size, hop_size),
                    3 * get_frame_count(audio_len, frame_size, hop_size)
                );
            }
        }
    }
}
