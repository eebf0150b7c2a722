use wolframs_universe::control_state::ControlState;
use wolframs_universe::count_state_handler::{get_full_neighbour_count, CountStateHandler};
use wolframs_universe::indexing::get_index;
use wolframs_universe::pattern_state_handler::PatternStateHandler;
use wolframs_universe::wolframs_universe::{GetNextState, WolframsUniverse};

#[test]
fn resolve_identity_offset() {
    for width in [1usize, 2, 5, 9, 300] {
        for i in 0..width {
            assert_eq!(get_index(width, i, 0), i);
        }
    }
}

#[test]
fn resolve_full_cycle() {
    for width in [1usize, 2, 5, 9, 300] {
        for i in 0..width {
            assert_eq!(get_index(width, i, width as isize), i);
            assert_eq!(get_index(width, i, -(width as isize)), i);
        }
    }
}

#[test]
fn resolve_wraps_both_ends() {
    assert_eq!(get_index(5, 4, 1), 0);
    assert_eq!(get_index(5, 0, -1), 4);
    assert_eq!(get_index(5, 3, -4), 4);
    assert_eq!(get_index(5, 2, 3), 0);
    assert_eq!(get_index(5, 1, 2), 3);
    assert_eq!(get_index(1, 0, 1), 0);
    assert_eq!(get_index(1, 0, -1), 0);
}

#[test]
fn pattern_set_size_is_popcount() {
    assert_eq!(PatternStateHandler::new(30).patterns.len(), 4);
    assert_eq!(PatternStateHandler::new(182).patterns.len(), 5);
    assert_eq!(PatternStateHandler::new(255).patterns.len(), 8);
    assert_eq!(PatternStateHandler::new(0).patterns.len(), 0);
    assert_eq!(PatternStateHandler::new(1).patterns.len(), 1);
    assert_eq!(PatternStateHandler::new(128).patterns.len(), 1);
}

#[test]
fn pattern_set_contents_rule_30() {
    let handler = PatternStateHandler::new(30);
    let expected: Vec<Vec<bool>> = vec![
        vec![true, false, false],
        vec![false, true, true],
        vec![false, true, false],
        vec![false, false, true],
    ];
    assert_eq!(handler.patterns, expected);
}

#[test]
fn pattern_set_contents_rule_255() {
    let handler = PatternStateHandler::new(255);
    let expected: Vec<Vec<bool>> = vec![
        vec![true, true, true],
        vec![true, true, false],
        vec![true, false, true],
        vec![true, false, false],
        vec![false, true, true],
        vec![false, true, false],
        vec![false, false, true],
        vec![false, false, false],
    ];
    assert_eq!(handler.patterns, expected);
}

#[test]
fn default_pattern_handler_is_rule_30() {
    let default_handler = PatternStateHandler::default();
    let rule_30 = PatternStateHandler::new(30);
    assert_eq!(default_handler.patterns, rule_30.patterns);
}

#[test]
fn rule_30_single_center_one_step() {
    let handler = PatternStateHandler::new(30);
    let seed = vec![false, false, false, false, true, false, false, false, false];
    let next = WolframsUniverse::get_next_universe_state(&seed, &handler);
    assert_eq!(
        next,
        vec![false, false, false, true, true, true, false, false, false]
    );
}

#[test]
fn rule_182_single_center_one_step() {
    let mut universe = WolframsUniverse::_new_with_full_middle(5);
    universe.iterate();
    assert_eq!(universe.current_age, 1);
    assert_eq!(
        universe.current_state[1],
        vec![false, true, true, true, false]
    );
}

#[test]
fn iterate_appends_and_preserves_history() {
    let mut universe = WolframsUniverse::_new_with_full_middle(9);
    let seed = universe.current_state[0].clone();
    let mut snapshots: Vec<Vec<Vec<bool>>> = vec![universe.current_state.clone()];
    for n in 1..=4usize {
        universe.iterate();
        assert_eq!(universe.current_age, n);
        assert_eq!(universe.current_state.len(), n + 1);
        // everything already produced is byte-for-byte unchanged
        let prior = &snapshots[n - 1];
        assert_eq!(&universe.current_state[..n], &prior[..]);
        snapshots.push(universe.current_state.clone());
    }
    assert_eq!(universe.current_state[0], seed);
    assert_eq!(universe.last_state, seed);
}

#[test]
fn reseed_resets_age_and_history() {
    let mut universe = WolframsUniverse::_new_with_full_middle(9);
    universe.iterate();
    universe.iterate();
    universe.iterate();
    assert_eq!(universe.current_age, 3);
    universe.recreate_with_full_middle(9, 30);
    assert_eq!(universe.current_age, 0);
    assert_eq!(universe.current_state.len(), 1);
    assert_eq!(universe.x_len, 9);
}

#[test]
fn reseed_from_state_resets_age_and_history() {
    let mut universe = WolframsUniverse::_new_full(4);
    universe.iterate();
    universe.iterate();
    let seed = vec![true, false, true];
    universe.recreate_from_initial_state(seed.clone(), 90);
    assert_eq!(universe.current_age, 0);
    assert_eq!(universe.current_state.len(), 1);
    assert_eq!(universe.current_state[0], seed);
    assert_eq!(universe.last_state, seed);
    assert_eq!(universe.x_len, 3);
}

#[test]
fn single_center_seed_width_7() {
    let seed = WolframsUniverse::init_with_full_middle(7);
    assert_eq!(seed.len(), 7);
    let alive: Vec<usize> = (0..7).filter(|&i| seed[i]).collect();
    assert_eq!(alive, vec![3]);
}

#[test]
fn single_center_seed_even_width() {
    let seed = WolframsUniverse::init_with_full_middle(4);
    assert_eq!(seed, vec![false, false, true, false]);
}

#[test]
fn count_rule_all_alive_radius_one_is_dead() {
    let handler = CountStateHandler {
        include_self: true,
        range_offset: 1,
        valid_counts: vec![2, 4],
        valid_state: true,
    };
    let row = vec![true, true, true];
    // tally is 3 (self included) and 3 is not an accepted count
    assert_eq!(handler.get_next_element_state(&row, 1), false);
}

#[test]
fn count_rule_accepting_three_is_alive() {
    let handler = CountStateHandler {
        include_self: true,
        range_offset: 1,
        valid_counts: vec![3],
        valid_state: true,
    };
    let row = vec![true, true, true];
    assert_eq!(handler.get_next_element_state(&row, 1), true);
}

#[test]
fn neighbour_count_values() {
    let row = vec![true, false, true, true];
    assert_eq!(get_full_neighbour_count(&row, 0, 1, true, true), 2);
    assert_eq!(get_full_neighbour_count(&row, 0, 1, true, false), 1);
    assert_eq!(get_full_neighbour_count(&row, 0, 1, false, true), 1);
    assert_eq!(get_full_neighbour_count(&row, 0, 1, false, false), 1);
    assert_eq!(get_full_neighbour_count(&row, 2, 0, true, true), 1);
    assert_eq!(get_full_neighbour_count(&row, 2, 0, true, false), 0);
}

#[test]
fn count_handler_default_values() {
    let handler = CountStateHandler::default();
    assert_eq!(handler.include_self, true);
    assert_eq!(handler.range_offset, 2);
    assert_eq!(handler.valid_counts, vec![2, 4]);
    assert_eq!(handler.valid_state, true);
}

#[test]
fn empty_and_full_universes() {
    let empty = WolframsUniverse::_new_empty(6);
    assert_eq!(empty.current_age, 0);
    assert_eq!(empty.x_len, 6);
    assert_eq!(empty.current_state.len(), 1);
    assert_eq!(empty.current_state[0], vec![false; 6]);
    assert_eq!(empty.last_state, vec![false; 6]);

    let full = WolframsUniverse::_new_full(6);
    assert_eq!(full.current_state[0], vec![true; 6]);
    assert_eq!(full.last_state, vec![true; 6]);
}

#[test]
fn default_universe_is_unseeded() {
    let universe = WolframsUniverse::default();
    assert_eq!(universe.current_age, 0);
    assert_eq!(universe.current_state.len(), 0);
    assert_eq!(universe.last_state.len(), 0);
    assert_eq!(universe.x_len, 50);
    assert_eq!(
        universe.state_handler.patterns,
        PatternStateHandler::new(182).patterns
    );
}

#[test]
fn seeded_universe_keeps_given_row() {
    let seed = vec![true, false, false, true, true];
    let universe = WolframsUniverse::new_from_initial_state(seed.clone(), 30);
    assert_eq!(universe.x_len, 5);
    assert_eq!(universe.current_age, 0);
    assert_eq!(universe.current_state, vec![seed.clone()]);
    assert_eq!(universe.last_state, seed);
}

#[test]
fn control_state_default_values() {
    let control = ControlState::default();
    assert_eq!(control.enabled, true);
    assert_eq!(control.step_size, 1);
}

#[test]
fn pattern_rule_wraps_around_row_ends() {
    // rule 30: a single alive cell at the left end also lights its toroidal
    // neighbors at both ends of the row
    let handler = PatternStateHandler::new(30);
    let seed = vec![true, false, false, false, false];
    let next = WolframsUniverse::get_next_universe_state(&seed, &handler);
    assert_eq!(next, vec![true, true, false, false, true]);
}
