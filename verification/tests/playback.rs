use speed_reader::playback::Direction::{Faster, Slower};
use speed_reader::playback::{
    Direction, Playback, INITIAL_SPEED, MIN_SPEED, SPEED_STEP, TICKS_PER_WORD,
};

const SECOND: u64 = 1_000_000_000;

fn nanos(seconds: f64) -> u64 {
    (seconds * 1e9).round() as u64
}

fn words_read(engine: &Playback) -> f64 {
    engine.position() as f64 / TICKS_PER_WORD as f64
}

#[test]
fn constants_are_those_of_the_viewer() {
    assert_eq!(INITIAL_SPEED, 60);
    assert_eq!(MIN_SPEED, 10);
    assert_eq!(SPEED_STEP, 10);
    assert_eq!(TICKS_PER_WORD, 60 * SECOND as u128);
}

#[test]
fn engine_starts_at_sixty_words_per_minute() {
    let engine = Playback::new();
    assert_eq!(engine.speed(), 60);
    assert_eq!(engine.position(), 0);
}

#[test]
fn each_step_changes_the_speed_by_ten() {
    let mut engine = Playback::new();
    engine.adjust_speed(Direction::Faster);
    assert_eq!(engine.speed(), 70);
    engine.adjust_speed(Direction::Faster);
    assert_eq!(engine.speed(), 80);
    engine.adjust_speed(Direction::Slower);
    assert_eq!(engine.speed(), 70);
}

#[test]
fn speed_stops_at_ten() {
    let mut engine = Playback::new();
    let mut seen = Vec::new();
    for _ in 0..7 {
        engine.adjust_speed(Direction::Slower);
        seen.push(engine.speed());
    }
    assert_eq!(seen, vec![50, 40, 30, 20, 10, 10, 10]);
}

#[test]
fn speed_is_never_below_ten() {
    let pattern = [
        Direction::Slower,
        Direction::Slower,
        Direction::Faster,
        Direction::Slower,
        Direction::Slower,
        Direction::Slower,
        Direction::Slower,
        Direction::Slower,
        Direction::Slower,
        Direction::Faster,
        Direction::Slower,
        Direction::Slower,
        Direction::Slower,
    ];
    let mut engine = Playback::new();
    for direction in pattern {
        engine.adjust_speed(direction);
        assert!(engine.speed() >= 10);
    }
    assert_eq!(engine.speed(), 10);
}

#[test]
fn steps_up_then_down_come_back() {
    for count in [0, 1, 5, 40] {
        let mut engine = Playback::new();
        for _ in 0..count {
            engine.adjust_speed(Direction::Faster);
        }
        assert_eq!(engine.speed(), 60 + 10 * count);
        for _ in 0..count {
            engine.adjust_speed(Direction::Slower);
        }
        assert_eq!(engine.speed(), 60);
    }
}

#[test]
fn steps_down_then_up_come_back_unless_the_floor_was_in_the_way() {
    for count in 0..10u64 {
        let mut engine = Playback::new();
        for _ in 0..count {
            engine.adjust_speed(Direction::Slower);
        }
        for _ in 0..count {
            engine.adjust_speed(Direction::Faster);
        }
        if count <= 5 {
            assert_eq!(engine.speed(), 60);
        } else {
            assert_eq!(engine.speed(), 10 + 10 * count);
        }
    }
}

fn speed_after(directions: &[Direction]) -> u64 {
    let mut engine = Playback::new();
    for direction in directions {
        engine.adjust_speed(*direction);
    }
    engine.speed()
}

#[test]
fn equal_steps_in_any_order_come_back_above_the_floor() {
    assert_eq!(speed_after(&[Faster, Slower, Slower, Faster]), 60);
    assert_eq!(speed_after(&[Slower, Faster, Slower, Faster, Slower, Faster]), 60);
    let down_then_up = [Slower, Slower, Slower, Slower, Slower, Faster, Faster, Faster, Faster, Faster];
    assert_eq!(speed_after(&down_then_up), 60);
    assert_eq!(speed_after(&[Faster, Faster, Slower, Slower, Slower, Slower, Faster, Faster]), 60);
}

#[test]
fn equal_steps_do_not_come_back_once_the_floor_was_in_the_way() {
    let down_six = [Slower, Slower, Slower, Slower, Slower, Slower];
    let mut directions = down_six.to_vec();
    directions.extend([Faster; 6]);
    assert_eq!(speed_after(&directions), 70);
    let mut directions = vec![Faster];
    directions.extend(down_six);
    directions.push(Slower);
    directions.extend([Faster; 6]);
    assert_eq!(speed_after(&directions), 70);
}

#[test]
fn unequal_steps_move_the_speed_by_their_difference() {
    assert_eq!(speed_after(&[Faster, Faster, Slower, Faster]), 80);
    assert_eq!(speed_after(&[Slower, Faster, Slower, Slower]), 40);
}

#[test]
fn one_second_at_sixty_is_one_word() {
    let mut engine = Playback::new();
    engine.advance(SECOND);
    assert_eq!(engine.position(), TICKS_PER_WORD);
    assert_eq!(words_read(&engine), 1.0);
}

#[test]
fn position_adds_speed_times_time() {
    let mut engine = Playback::new();
    engine.adjust_speed(Direction::Faster);
    engine.adjust_speed(Direction::Faster);
    engine.adjust_speed(Direction::Faster);
    engine.advance(nanos(0.5));
    assert_eq!(engine.position(), 90 * 500_000_000);
    assert_eq!(words_read(&engine), 90.0 / 60.0 * 0.5);
    engine.advance(nanos(0.25));
    assert_eq!(engine.position(), 90 * 750_000_000);
}

#[test]
fn position_does_not_depend_on_the_frame_rate() {
    let mut coarse = Playback::new();
    coarse.advance(SECOND);
    let mut fine = Playback::new();
    for _ in 0..1000 {
        fine.advance(SECOND / 1000);
    }
    assert_eq!(coarse.position(), fine.position());
}

#[test]
fn frame_of_no_time_does_not_move() {
    let mut engine = Playback::new();
    engine.advance(SECOND);
    engine.advance(0);
    assert_eq!(engine.position(), TICKS_PER_WORD);
}

#[test]
fn position_never_goes_back() {
    let mut engine = Playback::new();
    let mut last = engine.position();
    for (delta, direction) in [
        (16_000_000, Direction::Slower),
        (0, Direction::Slower),
        (u64::MAX, Direction::Faster),
        (1, Direction::Slower),
        (33_000_000, Direction::Slower),
    ] {
        engine.adjust_speed(direction);
        engine.advance(delta);
        assert!(engine.position() >= last);
        last = engine.position();
    }
}

#[test]
fn longest_frame_is_taken_whole() {
    let mut engine = Playback::new();
    engine.advance(u64::MAX);
    assert_eq!(engine.position(), 60 * u64::MAX as u128);
}

#[test]
fn adjusting_the_speed_keeps_the_position() {
    let mut engine = Playback::new();
    engine.advance(SECOND);
    engine.adjust_speed(Direction::Slower);
    assert_eq!(engine.position(), TICKS_PER_WORD);
    engine.advance(SECOND);
    assert_eq!(engine.position(), TICKS_PER_WORD + 50 * SECOND as u128);
}

#[test]
fn without_words_there_is_no_index() {
    let mut engine = Playback::new();
    assert_eq!(engine.displayed_index(0), None);
    engine.advance(10 * SECOND);
    assert_eq!(engine.displayed_index(0), None);
}

#[test]
fn index_starts_at_the_first_word() {
    let engine = Playback::new();
    assert_eq!(engine.displayed_index(1), Some(0));
    assert_eq!(engine.displayed_index(5), Some(0));
}

#[test]
fn index_is_the_whole_words_gone_by() {
    let mut engine = Playback::new();
    engine.advance(nanos(0.999));
    assert_eq!(engine.displayed_index(5), Some(0));
    engine.advance(nanos(0.001));
    assert_eq!(engine.displayed_index(5), Some(1));
    engine.advance(nanos(1.5));
    assert_eq!(words_read(&engine), 2.5);
    assert_eq!(engine.displayed_index(5), Some(2));
}

#[test]
fn index_stays_on_the_last_word() {
    let mut engine = Playback::new();
    engine.advance(nanos(2.0));
    assert_eq!(engine.displayed_index(3), Some(2));
    engine.advance(nanos(1.0));
    assert_eq!(engine.displayed_index(3), Some(2));
    engine.advance(u64::MAX);
    assert_eq!(engine.displayed_index(3), Some(2));
    assert_eq!(engine.displayed_index(1), Some(0));
}

#[test]
fn index_is_the_smaller_of_floor_and_last() {
    let mut engine = Playback::new();
    for step in 0..40u64 {
        let floor = (words_read(&engine)).floor() as usize;
        for count in 1..8usize {
            assert_eq!(engine.displayed_index(count), Some(floor.min(count - 1)));
        }
        engine.advance(nanos(0.3) + step);
    }
}
