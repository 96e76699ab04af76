use cupchan::status::is_valid_state;
use cupchan::status::reader_cup_of_state;
use cupchan::status::reader_next_state;
use cupchan::status::writer_cup_of_state;
use cupchan::status::writer_next_state;

#[test]
fn valid_states() {
    for s in 0..6 {
        assert!(is_valid_state(s));
    }
    assert!(!is_valid_state(6));
    assert!(!is_valid_state(7));
    for s in 8..14 {
        assert!(is_valid_state(s));
    }
    assert!(!is_valid_state(14));
    assert!(!is_valid_state(99));
}

#[test]
fn publish_transitions() {
    // a publish exchanges writer and storage and sets the fresh bit
    let expected = [
        (0, 11),
        (1, 10),
        (2, 9),
        (3, 8),
        (4, 13),
        (5, 12),
        (8, 11),
        (9, 10),
        (10, 9),
        (11, 8),
        (12, 13),
        (13, 12),
    ];
    for (state, next) in expected {
        assert_eq!(writer_next_state(state), next);
    }
}

#[test]
fn consume_transitions() {
    // without the fresh bit nothing moves
    for state in 0..6 {
        assert_eq!(reader_next_state(state), state);
    }
    // with it, a consume exchanges reader and storage and clears the bit
    let expected = [(8, 1), (9, 0), (10, 4), (11, 5), (12, 2), (13, 3)];
    for (state, next) in expected {
        assert_eq!(reader_next_state(state), next);
    }
}

#[test]
fn role_projections() {
    let writer_cups = [
        (0, 0),
        (1, 0),
        (2, 2),
        (3, 1),
        (4, 2),
        (5, 1),
        (8, 0),
        (9, 0),
        (10, 2),
        (11, 1),
        (12, 2),
        (13, 1),
    ];
    for (state, cup) in writer_cups {
        assert_eq!(writer_cup_of_state(state), cup);
    }
    let reader_cups = [
        (0, 2),
        (1, 1),
        (2, 1),
        (3, 2),
        (4, 0),
        (5, 0),
        (8, 2),
        (9, 1),
        (10, 1),
        (11, 2),
        (12, 0),
        (13, 0),
    ];
    for (state, cup) in reader_cups {
        assert_eq!(reader_cup_of_state(state), cup);
    }
}

#[test]
fn transitions_never_share_a_cup() {
    // in every valid state the writer's slot and the reader's slot differ,
    // before and after either transition
    let valid: [usize; 12] = [0, 1, 2, 3, 4, 5, 8, 9, 10, 11, 12, 13];
    for state in valid {
        assert_ne!(writer_cup_of_state(state), reader_cup_of_state(state));
        let published = writer_next_state(state);
        assert_ne!(writer_cup_of_state(published), reader_cup_of_state(published));
        // a publish never moves the reader's slot
        assert_eq!(reader_cup_of_state(published), reader_cup_of_state(state));
        let consumed = reader_next_state(state);
        assert_ne!(writer_cup_of_state(consumed), reader_cup_of_state(consumed));
        // a consume never moves the writer's slot
        assert_eq!(writer_cup_of_state(consumed), writer_cup_of_state(state));
    }
}
