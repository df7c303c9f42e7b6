use hypoloop::state::DEFAULT_UPDATE_INTERVAL;
use hypoloop::{Loop, State};

const MS: u64 = 1_000_000;

#[test]
fn new_state_has_zeroed_clocks_and_a_seeded_delta_time() {
    let state = State::new();
    assert_eq!(DEFAULT_UPDATE_INTERVAL, 40);
    assert_eq!(state.get_delta_time(), 40);
    assert_eq!(state.get_timestep(), 40_000);
    assert_eq!(state.get_timescale(), 1000);
    assert_eq!(state.get_irl_time(), 0);
    assert_eq!(state.get_sim_time(), 0);
    assert_eq!(state.get_last_tick(), 0);
}

#[test]
fn set_timescale_is_read_back_and_leaves_the_timestep() {
    let mut state = State::new();
    state.set_timescale(-250);
    assert_eq!(state.get_timescale(), -250);
    assert_eq!(state.get_timestep(), 40_000);
    state.set_timescale(i32::MAX);
    assert_eq!(state.get_timescale(), i32::MAX);
    assert_eq!(state.get_delta_time(), 40);
}

#[test]
fn pause_and_resume_leave_the_clocks() {
    let mut state = State::new();
    state.pause();
    state.resume();
    state.pause();
    assert_eq!(state.get_delta_time(), 40);
    assert_eq!(state.get_timestep(), 40_000);
    assert_eq!(state.get_timescale(), 1000);
    assert_eq!(state.get_irl_time(), 0);
    assert_eq!(state.get_sim_time(), 0);
    assert_eq!(state.get_last_tick(), 0);
}

#[test]
fn state_clock_does_not_run_backwards() {
    let state = State::new();
    let first = state.now();
    let second = state.now();
    assert!(first <= second);
    // a copy reads the same clock
    let copy = state;
    assert!(second <= copy.now());
}

#[test]
fn debug_time_at_of_a_new_state() {
    let state = State::new();
    assert_eq!(
        state.debug_time_at(0),
        "IRL time: 0ms | Sim time: 0ms | Delta time (tick): 40ms | Delta time (step): 0ms | Timestep: 0.04s"
    );
    assert_eq!(
        state.debug_time_at(40_063_800),
        "IRL time: 0ms | Sim time: 0ms | Delta time (tick): 40ms | Delta time (step): 40.0638ms | Timestep: 0.04s"
    );
}

#[test]
fn debug_time_at_after_ticks() {
    let mut sim = Loop::new();
    sim.set_update_interval(0);
    let mut readings = vec![4_403 * MS, 4_403 * MS, 4_443 * MS + 999_999, 4_444 * MS].into_iter();
    let mut lines = Vec::new();
    for _ in 0..2 {
        sim.step_with(
            |_: &State| readings.next().expect("a reading"),
            |state: &mut State| lines.push(state.debug_time_at(4_500 * MS + 7)),
            |_: &mut State| {},
        );
    }
    assert_eq!(
        lines[0],
        "IRL time: 4403ms | Sim time: 4403ms | Delta time (tick): 4403ms | Delta time (step): 4500.000007ms | Timestep: 4.403s"
    );
    assert_eq!(
        lines[1],
        "IRL time: 4443ms | Sim time: 4443ms | Delta time (tick): 40ms | Delta time (step): 97.000007ms | Timestep: 0.04s"
    );
}

#[test]
fn debug_time_at_with_simulation_time_below_zero() {
    let mut sim = Loop::new();
    sim.set_update_interval(0);
    let mut readings = vec![0, 0, 2_500 * MS, 2_500 * MS].into_iter();
    let mut line = String::new();
    for _ in 0..2 {
        sim.step_with(
            |_: &State| readings.next().expect("a reading"),
            |state: &mut State| {
                line = state.debug_time_at(2_500 * MS);
                state.set_timescale(-1500);
            },
            |_: &mut State| {},
        );
    }
    assert_eq!(
        line,
        "IRL time: 2500ms | Sim time: -3750ms | Delta time (tick): 2500ms | Delta time (step): 2500ms | Timestep: -3.75s"
    );
}

#[test]
fn debug_time_measures_on_the_state_clock() {
    let state = State::new();
    let line = state.debug_time();
    assert!(line.starts_with(
        "IRL time: 0ms | Sim time: 0ms | Delta time (tick): 40ms | Delta time (step): "
    ));
    assert!(line.ends_with("ms | Timestep: 0.04s"));
}

#[test]
fn is_running_follows_pause_and_resume() {
    let mut state = State::new();
    assert!(state.is_running());
    state.pause();
    assert!(!state.is_running());
    state.pause();
    assert!(!state.is_running());
    state.resume();
    assert!(state.is_running());
}

#[test]
fn init_makes_a_paused_loop_run_again() {
    let mut sim = Loop::new();
    sim.set_realtime(false);
    sim.step(|state: &mut State| state.pause(), |_: &mut State| {});
    assert!(!sim.get_state().is_running());
    sim.init();
    assert!(sim.get_state().is_running());
}
