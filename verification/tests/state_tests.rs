use schmu::state::{ConnectionState, Song, State};
use std::time::Duration;

fn song(id: &str, downloaded: bool) -> Song {
    Song {
        id: id.to_string(),
        title: format!("title of {id}"),
        artist: format!("artist of {id}"),
        downloaded,
        thumbnail: vec![1, 2, 3],
    }
}

fn primary(state: &State) -> Vec<String> {
    state.queue().map(|s| s.id.clone()).collect()
}

fn fallback(state: &State) -> Vec<String> {
    state.fallback_queue().map(|s| s.id.clone()).collect()
}

fn filled(primary: &[&str], fallback: &[&str]) -> State {
    let mut state = State::new();
    for id in primary {
        state.enqueue(song(id, false), false);
    }
    for id in fallback {
        state.enqueue(song(id, false), true);
    }
    state
}

#[test]
fn new_store_is_empty() {
    let state = State::new();
    assert!(!state.has_song_suggestions());
    assert!(!state.has_fallback_queue());
    assert!(state.playing().is_none());
    assert!(matches!(state.connection_state(), ConnectionState::NotConnected));
    assert_eq!(state.queue().count(), 0);
    assert_eq!(state.fallback_queue().count(), 0);
}

#[test]
fn fallback_entry_plays_once_downloaded() {
    let mut state = State::new();
    state.enqueue(song("BBBBBBBBBBB", false), true);
    assert!(state.has_fallback_queue());
    assert!(!state.has_song_suggestions());
    assert_eq!(state.get_next_song(), None);
    assert!(state.playing().is_none());
    state.mark_downloaded("BBBBBBBBBBB");
    assert_eq!(state.get_next_song(), Some("BBBBBBBBBBB".to_string()));
    let playing = state.playing().unwrap();
    assert_eq!(playing.song.id, "BBBBBBBBBBB");
    assert!(playing.song.downloaded);
    assert_eq!(playing.elapsed, Duration::from_secs(0));
    assert_eq!(playing.elapsed.as_nanos(), 0);
    assert_eq!(playing.total, Duration::from_secs(0));
    assert!(!state.has_fallback_queue());
}

#[test]
fn enqueue_appends_in_order() {
    let state = filled(&["a", "b", "c"], &["x", "y"]);
    assert_eq!(primary(&state), ["a", "b", "c"]);
    assert_eq!(fallback(&state), ["x", "y"]);
    assert!(state.has_song_suggestions());
    assert!(state.has_fallback_queue());
}

#[test]
fn enqueue_keeps_every_field() {
    let mut state = State::new();
    state.enqueue(
        Song {
            id: "id".to_string(),
            title: "t".to_string(),
            artist: "a".to_string(),
            downloaded: true,
            thumbnail: vec![9, 8],
        },
        false,
    );
    let s = state.queue().next().unwrap();
    assert_eq!(s.id, "id");
    assert_eq!(s.title, "t");
    assert_eq!(s.artist, "a");
    assert!(s.downloaded);
    assert_eq!(s.thumbnail, [9, 8]);
}

#[test]
fn enqueue_of_playing_id_changes_nothing() {
    let mut state = filled(&["a", "b"], &["x"]);
    state.mark_downloaded("a");
    assert_eq!(state.get_next_song(), Some("a".to_string()));
    state.enqueue(song("a", false), false);
    assert_eq!(primary(&state), ["b"]);
    assert_eq!(fallback(&state), ["x"]);
    state.enqueue(song("a", true), true);
    assert_eq!(primary(&state), ["b"]);
    assert_eq!(fallback(&state), ["x"]);
    assert_eq!(state.playing().unwrap().song.id, "a");
}

#[test]
fn enqueue_of_id_in_primary_queue_changes_nothing() {
    let mut state = filled(&["a", "b"], &["x"]);
    state.enqueue(song("b", true), false);
    state.enqueue(song("b", true), true);
    assert_eq!(primary(&state), ["a", "b"]);
    assert_eq!(fallback(&state), ["x"]);
    assert!(!state.queue().nth(1).unwrap().downloaded);
}

#[test]
fn enqueue_does_not_look_into_fallback_queue() {
    let mut state = filled(&[], &["x"]);
    state.enqueue(song("x", false), true);
    assert_eq!(fallback(&state), ["x", "x"]);
    state.enqueue(song("x", false), false);
    assert_eq!(primary(&state), ["x"]);
    state.enqueue(song("x", false), true);
    assert_eq!(fallback(&state), ["x", "x"]);
}

#[test]
fn mark_downloaded_marks_first_match_in_each_queue() {
    let mut state = filled(&[], &["b", "c", "b"]);
    state.enqueue(song("a", false), false);
    state.enqueue(song("b", false), false);
    state.mark_downloaded("b");
    let p: Vec<bool> = state.queue().map(|s| s.downloaded).collect();
    let f: Vec<bool> = state.fallback_queue().map(|s| s.downloaded).collect();
    assert_eq!(p, [false, true]);
    assert_eq!(f, [true, false, false]);
    assert_eq!(primary(&state), ["a", "b"]);
    assert_eq!(fallback(&state), ["b", "c", "b"]);
}

#[test]
fn mark_downloaded_of_unknown_id_changes_nothing() {
    let mut state = filled(&["a"], &["x"]);
    state.mark_downloaded("zzz");
    assert!(state.queue().all(|s| !s.downloaded));
    assert!(state.fallback_queue().all(|s| !s.downloaded));
    assert_eq!(state.get_next_song(), None);
}

#[test]
fn mark_downloaded_of_playing_id_changes_nothing() {
    let mut state = filled(&["a", "b"], &[]);
    state.mark_downloaded("a");
    assert_eq!(state.get_next_song(), Some("a".to_string()));
    state.mark_downloaded("a");
    assert_eq!(primary(&state), ["b"]);
    assert!(!state.queue().next().unwrap().downloaded);
}

#[test]
fn next_song_is_earliest_downloaded_and_skipped_keep_order() {
    let mut state = filled(&["a", "b", "c", "d"], &["x", "y"]);
    state.mark_downloaded("c");
    state.mark_downloaded("d");
    state.mark_downloaded("x");
    assert_eq!(state.get_next_song(), Some("c".to_string()));
    assert_eq!(primary(&state), ["a", "b", "d"]);
    assert_eq!(fallback(&state), ["x", "y"]);
    assert_eq!(state.get_next_song(), Some("d".to_string()));
    assert_eq!(primary(&state), ["a", "b"]);
    assert_eq!(state.playing().unwrap().song.id, "d");
}

#[test]
fn next_song_prefers_primary_queue() {
    let mut state = filled(&["a", "b"], &["x", "y"]);
    state.mark_downloaded("y");
    state.mark_downloaded("b");
    assert_eq!(state.get_next_song(), Some("b".to_string()));
    assert_eq!(state.get_next_song(), Some("y".to_string()));
    assert_eq!(primary(&state), ["a"]);
    assert_eq!(fallback(&state), ["x"]);
    assert_eq!(state.get_next_song(), None);
    assert!(state.playing().is_none());
    assert_eq!(primary(&state), ["a"]);
    assert_eq!(fallback(&state), ["x"]);
}

#[test]
fn mark_then_next_returns_id_only_if_earliest() {
    let mut state = filled(&["a", "b"], &[]);
    state.mark_downloaded("a");
    state.mark_downloaded("b");
    assert_eq!(state.get_next_song(), Some("a".to_string()));
    let mut state = filled(&["a", "b"], &[]);
    state.mark_downloaded("b");
    assert_eq!(state.get_next_song(), Some("b".to_string()));
    let mut state = filled(&["a"], &["x"]);
    state.mark_downloaded("a");
    state.mark_downloaded("x");
    assert_eq!(state.get_next_song(), Some("a".to_string()));
}

#[test]
fn next_song_with_nothing_ready_clears_playing() {
    let mut state = filled(&["a", "b"], &[]);
    state.mark_downloaded("a");
    assert_eq!(state.get_next_song(), Some("a".to_string()));
    assert!(state.playing().is_some());
    assert_eq!(state.get_next_song(), None);
    assert!(state.playing().is_none());
    assert_eq!(primary(&state), ["b"]);
}

#[test]
fn update_current_time_overwrites_timing() {
    let mut state = filled(&["a"], &[]);
    state.update_current_time(Duration::from_secs(9), Duration::from_secs(1));
    assert!(state.playing().is_none());
    state.mark_downloaded("a");
    state.get_next_song();
    state.update_current_time(Duration::from_secs(200), Duration::from_secs(3));
    let p = state.playing().unwrap();
    assert_eq!(p.total, Duration::from_secs(200));
    assert_eq!(p.elapsed, Duration::from_secs(3));
    assert_eq!(p.song.id, "a");
    state.update_current_time(Duration::from_secs(200), Duration::from_millis(4500));
    assert_eq!(state.playing().unwrap().elapsed, Duration::from_millis(4500));
}

#[test]
fn connection_status_is_overwritten() {
    let mut state = State::new();
    state.set_connected("abc123".to_string());
    assert!(matches!(state.connection_state(), ConnectionState::Connected { id } if id == "abc123"));
    state.set_connection_error("boom".to_string());
    assert!(matches!(state.connection_state(), ConnectionState::Error { msg } if msg == "boom"));
    state.set_connected("x".to_string());
    assert!(matches!(state.connection_state(), ConnectionState::Connected { id } if id == "x"));
}

#[test]
fn delete_song_by_one_based_index() {
    let mut state = filled(&["a", "b", "c"], &["x", "y"]);
    state.delete_song(2);
    assert_eq!(primary(&state), ["a", "c"]);
    state.delete_song(3);
    assert_eq!(primary(&state), ["a", "c"]);
    assert_eq!(fallback(&state), ["y"]);
    state.delete_song(1);
    assert_eq!(primary(&state), ["c"]);
    assert_eq!(fallback(&state), ["y"]);
    state.delete_song(2);
    assert_eq!(primary(&state), ["c"]);
    assert_eq!(fallback(&state), Vec::<String>::new());
}

#[test]
fn delete_song_out_of_range_changes_nothing() {
    let mut state = filled(&["a", "b"], &["x"]);
    state.delete_song(0);
    state.delete_song(4);
    state.delete_song(usize::MAX);
    assert_eq!(primary(&state), ["a", "b"]);
    assert_eq!(fallback(&state), ["x"]);
}

#[test]
fn move_down_swaps_with_successor() {
    let mut state = filled(&["a", "b", "c"], &["x", "y", "z"]);
    assert_eq!(state.move_down(1), 2);
    assert_eq!(primary(&state), ["b", "a", "c"]);
    assert_eq!(state.move_down(2), 3);
    assert_eq!(primary(&state), ["b", "c", "a"]);
    assert_eq!(state.move_down(4), 5);
    assert_eq!(fallback(&state), ["y", "x", "z"]);
    assert_eq!(state.move_down(5), 6);
    assert_eq!(fallback(&state), ["y", "z", "x"]);
    assert_eq!(primary(&state), ["b", "c", "a"]);
}

#[test]
fn move_down_at_boundaries_changes_nothing() {
    let mut state = filled(&["a", "b", "c"], &["x", "y"]);
    assert_eq!(state.move_down(0), 0);
    assert_eq!(state.move_down(3), 3);
    assert_eq!(state.move_down(5), 5);
    assert_eq!(state.move_down(6), 6);
    assert_eq!(state.move_down(1000), 1000);
    assert_eq!(state.move_down(usize::MAX), usize::MAX);
    assert_eq!(primary(&state), ["a", "b", "c"]);
    assert_eq!(fallback(&state), ["x", "y"]);
}

#[test]
fn move_up_swaps_with_predecessor() {
    let mut state = filled(&["a", "b", "c"], &["x", "y", "z"]);
    assert_eq!(state.move_up(3), 2);
    assert_eq!(primary(&state), ["a", "c", "b"]);
    assert_eq!(state.move_up(2), 1);
    assert_eq!(primary(&state), ["c", "a", "b"]);
    assert_eq!(state.move_up(6), 5);
    assert_eq!(fallback(&state), ["x", "z", "y"]);
    assert_eq!(state.move_up(5), 4);
    assert_eq!(fallback(&state), ["z", "x", "y"]);
    assert_eq!(primary(&state), ["c", "a", "b"]);
}

#[test]
fn move_up_at_boundaries_changes_nothing() {
    let mut state = filled(&["a", "b", "c"], &["x", "y"]);
    assert_eq!(state.move_up(0), 0);
    assert_eq!(state.move_up(1), 1);
    assert_eq!(state.move_up(4), 4);
    assert_eq!(state.move_up(6), 6);
    assert_eq!(state.move_up(usize::MAX), usize::MAX);
    assert_eq!(primary(&state), ["a", "b", "c"]);
    assert_eq!(fallback(&state), ["x", "y"]);
}

#[test]
fn moves_with_empty_primary_queue() {
    let mut state = filled(&[], &["x", "y"]);
    assert_eq!(state.move_up(1), 1);
    assert_eq!(state.move_down(0), 0);
    assert_eq!(state.move_down(1), 2);
    assert_eq!(fallback(&state), ["y", "x"]);
    assert_eq!(state.move_up(2), 1);
    assert_eq!(fallback(&state), ["x", "y"]);
}

#[test]
fn move_and_its_inverse_restore_order() {
    let mut state = filled(&["a", "b", "c", "d"], &["w", "x", "y", "z"]);
    for index in [2usize, 3, 4, 6, 7, 8] {
        let up = state.move_up(index);
        assert_eq!(up, index - 1);
        assert_eq!(state.move_down(up), index);
        assert_eq!(primary(&state), ["a", "b", "c", "d"]);
        assert_eq!(fallback(&state), ["w", "x", "y", "z"]);
    }
    for index in [1usize, 2, 3, 5, 6, 7] {
        let down = state.move_down(index);
        assert_eq!(down, index + 1);
        assert_eq!(state.move_up(down), index);
        assert_eq!(primary(&state), ["a", "b", "c", "d"]);
        assert_eq!(fallback(&state), ["w", "x", "y", "z"]);
    }
}

#[test]
fn no_id_in_two_places_over_a_run() {
    let mut state = State::new();
    let ids = ["a", "b", "c", "d", "e"];
    for round in 0..4 {
        for (k, id) in ids.iter().enumerate() {
            let to_fallback = (k + round) % 2 == 0;
            let waits_in_fallback = state.fallback_queue().any(|s| s.id == *id);
            if !waits_in_fallback {
                state.enqueue(song(id, false), to_fallback);
            }
            state.mark_downloaded(ids[(k + 1) % ids.len()]);
            if k % 2 == 1 {
                state.get_next_song();
            }
            state.move_up(k + 1);
            state.move_down(k);
            let mut all: Vec<String> = primary(&state);
            all.extend(fallback(&state));
            if let Some(p) = state.playing() {
                all.push(p.song.id.clone());
            }
            let mut unique = all.clone();
            unique.sort();
            unique.dedup();
            assert_eq!(unique.len(), all.len());
        }
        state.delete_song(1);
    }
}

#[test]
fn queues_stay_apart_under_mixed_operations() {
    let mut state = State::new();
    state.enqueue(song("x", false), true);
    state.enqueue(song("a", false), false);
    state.enqueue(song("y", true), true);
    state.enqueue(song("b", true), false);
    assert_eq!(primary(&state), ["a", "b"]);
    assert_eq!(fallback(&state), ["x", "y"]);
    assert_eq!(state.queue().len(), 2);
    assert_eq!(state.fallback_queue().len(), 2);
    assert_eq!(state.move_down(2), 2);
    assert_eq!(state.move_up(3), 3);
    assert_eq!(primary(&state), ["a", "b"]);
    assert_eq!(fallback(&state), ["x", "y"]);
    state.delete_song(2);
    assert_eq!(primary(&state), ["a"]);
    assert_eq!(fallback(&state), ["x", "y"]);
    assert_eq!(state.get_next_song(), Some("y".to_string()));
    assert_eq!(primary(&state), ["a"]);
    assert_eq!(fallback(&state), ["x"]);
    state.enqueue(song("c", false), false);
    assert_eq!(primary(&state), ["a", "c"]);
    assert_eq!(fallback(&state), ["x"]);
    state.delete_song(3);
    assert!(!state.has_fallback_queue());
    assert!(state.has_song_suggestions());
    state.delete_song(1);
    state.delete_song(1);
    assert!(!state.has_song_suggestions());
    assert_eq!(state.queue().count(), 0);
    assert_eq!(state.fallback_queue().count(), 0);
}
