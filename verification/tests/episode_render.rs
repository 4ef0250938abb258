use racetrack::episode::{EpisodeController, TICKS_PER_DRIVE};
use racetrack::render::{dimensions, render_codes, BACKGROUND_CODE, FRAME_SIDE};
use racetrack::track::{TrackMap, TrackPoint};
use racetrack::values::ValueTable;

fn single_start_track(start: (usize, usize)) -> TrackMap {
    let mut bytes = vec![3u8; 2500];
    bytes[start.0 + 50 * start.1] = 2;
    TrackMap::load(&bytes).unwrap()
}

fn zero_table() -> ValueTable {
    ValueTable::load(&vec![0u8; 180000]).unwrap()
}

#[test]
fn controller_starts_with_ended_placeholder() {
    let c = EpisodeController::new(single_start_track((7, 3)), zero_table());
    let s = c.current_state();
    assert!(s.ended);
    assert_eq!(c.history_len(), 0);
}

#[test]
fn first_drive_resets_to_beginning_position() {
    let track = single_start_track((7, 3));
    let mut c = EpisodeController::new(track, zero_table());
    c.drive();
    let s = c.current_state();
    assert!(!s.ended);
    assert_eq!(s.velocity, (0, 0));
    assert_eq!(s.position, (7, 3));
    assert_eq!(c.history_len(), 1);
    assert_eq!(c.history_at(0), (7, 3));
}

#[test]
fn reset_position_is_classified_beginning() {
    let track = single_start_track((12, 40));
    let mut c = EpisodeController::new(track, zero_table());
    c.drive();
    let p = c.current_state().position;
    let probe = single_start_track((12, 40));
    assert_eq!(probe.classify(p), TrackPoint::Beginning);
}

#[test]
fn second_drive_takes_greedy_step() {
    // with an all-zero table the greedy scan keeps the first candidate
    // (-1, -1), so the agent drifts one cell up-left per drive
    let track = single_start_track((7, 3));
    let mut c = EpisodeController::new(track, zero_table());
    c.drive();
    c.drive();
    let s = c.current_state();
    assert!(!s.ended);
    assert_eq!(s.velocity, (-1, -1));
    assert_eq!(s.position, (6, 2));
    assert_eq!(c.history_len(), 2);
    assert_eq!(c.history_at(0), (7, 3));
    assert_eq!(c.history_at(1), (6, 2));
}

#[test]
fn crash_resets_next_drive_to_start() {
    // starting at (0, 0) the drift toward (-1, -1) leaves the grid during
    // the first active step, ending the episode; the drive after that
    // begins a fresh one at the start position
    let track = single_start_track((0, 0));
    let mut c = EpisodeController::new(track, zero_table());
    c.drive();
    c.drive();
    let s = c.current_state();
    assert!(s.ended);
    assert!(!s.success);
    assert_eq!(s.position, (0, 0));
    c.drive();
    let s2 = c.current_state();
    assert!(!s2.ended);
    assert_eq!(s2.position, (0, 0));
    assert_eq!(c.history_len(), 1);
}

#[test]
fn ticks_drive_once_per_cadence_window() {
    let track = single_start_track((7, 3));
    let mut c = EpisodeController::new(track, zero_table());
    for _ in 0..TICKS_PER_DRIVE - 1 {
        c.tick();
        assert!(c.current_state().ended);
        assert_eq!(c.history_len(), 0);
    }
    c.tick();
    assert!(!c.current_state().ended);
    assert_eq!(c.history_len(), 1);
    assert_eq!(c.current_state().position, (7, 3));
}

#[test]
fn frame_has_fixed_dimensions() {
    assert_eq!(dimensions(), (506, 506));
    let track = single_start_track((0, 0));
    let codes = render_codes(&track, &Vec::new());
    assert_eq!(codes.len(), FRAME_SIDE * FRAME_SIDE);
}

#[test]
fn border_pixels_show_background() {
    let track = single_start_track((0, 0));
    let codes = render_codes(&track, &Vec::new());
    assert_eq!(codes[0], BACKGROUND_CODE);
    assert_eq!(codes[2 * 506 + 505], BACKGROUND_CODE);
    assert_eq!(codes[505 * 506 + 3], BACKGROUND_CODE);
    assert_eq!(codes[3 * 506 + 2], BACKGROUND_CODE);
}

#[test]
fn cells_render_as_ten_pixel_blocks() {
    let mut bytes = vec![3u8; 2500];
    bytes[2 + 50 * 1] = 1;  // End cell at (2, 1)
    bytes[0] = 2;  // Beginning cell at (0, 0)
    let track = TrackMap::load(&bytes).unwrap();
    let codes = render_codes(&track, &Vec::new());
    // cell (2, 1) covers rows 13..23 and columns 23..33
    assert_eq!(codes[13 * 506 + 23], 1);
    assert_eq!(codes[22 * 506 + 32], 1);
    assert_eq!(codes[12 * 506 + 23], 2 + 1);  // row above: cell (2, 0), Empty
    assert_eq!(codes[3 * 506 + 3], 2);  // cell (0, 0), Beginning
    assert_eq!(codes[3 * 506 + 13], 3);  // cell (1, 0), Empty
}

#[test]
fn history_cells_render_as_boundary() {
    let track = single_start_track((0, 0));
    let history = vec![(4i32, 5i32)];
    let codes = render_codes(&track, &history);
    // cell (4, 5) covers rows 53..63 and columns 43..53
    assert_eq!(codes[53 * 506 + 43], 0);
    assert_eq!(codes[62 * 506 + 52], 0);
    // a neighbouring cell stays Empty
    assert_eq!(codes[53 * 506 + 55], 3);
}
