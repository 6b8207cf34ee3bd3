use songwalker_core::delay::ring_next_index;
use songwalker_core::delay::ring_prev_index;
use songwalker_core::delay::ring_read_index;

#[test]
fn ring_read_wraps_behind_write() {
    // An impulse written at slot 0 of a 441-slot ring is read back 441
    // samples later: the read position trails the write position by the
    // delay, modulo the ring size.
    assert_eq!(ring_read_index(0, 440, 441), 1);
    assert_eq!(ring_read_index(440, 440, 441), 0);
    assert_eq!(ring_read_index(10, 3, 441), 7);
    assert_eq!(ring_read_index(2, 10, 441), 433);
    assert_eq!(ring_read_index(5, 0, 441), 5);
}

#[test]
fn ring_step_indices() {
    assert_eq!(ring_next_index(0, 4), 1);
    assert_eq!(ring_next_index(3, 4), 0);
    assert_eq!(ring_prev_index(0, 4), 3);
    assert_eq!(ring_prev_index(3, 4), 2);
}
