use liana_gui::installer::message::{DefineDescriptor, Message};
use liana_gui::installer::view::threshsold_input::{threshsold_input, Event, ThresholdInput};

#[test]
fn increment_below_the_maximum_asks_for_one_more() {
    let mut input = threshsold_input(2, 3, |value| value);
    assert_eq!(input.update(&mut (), Event::IncrementPressed), Some(3));
}

#[test]
fn increment_at_the_maximum_asks_for_nothing() {
    let mut input = threshsold_input(3, 3, |value| value);
    assert_eq!(input.update(&mut (), Event::IncrementPressed), None);
}

#[test]
fn increment_above_the_maximum_asks_for_nothing() {
    let mut input = threshsold_input(5, 3, |value| value);
    assert_eq!(input.update(&mut (), Event::IncrementPressed), None);
}

#[test]
fn decrement_above_one_asks_for_one_less() {
    let mut input = threshsold_input(2, 3, |value| value);
    assert_eq!(input.update(&mut (), Event::DecrementPressed), Some(1));
}

#[test]
fn decrement_at_one_asks_for_nothing() {
    let mut input = threshsold_input(1, 3, |value| value);
    assert_eq!(input.update(&mut (), Event::DecrementPressed), None);
}

#[test]
fn decrement_at_zero_asks_for_nothing() {
    let mut input = threshsold_input(0, 3, |value| value);
    assert_eq!(input.update(&mut (), Event::DecrementPressed), None);
    assert_eq!(input.update(&mut (), Event::IncrementPressed), Some(1));
}

#[test]
fn decrement_above_the_maximum_still_steps_down() {
    let mut input = threshsold_input(9, 3, |value| value);
    assert_eq!(input.update(&mut (), Event::DecrementPressed), Some(8));
}

#[test]
fn increment_reaches_the_largest_number() {
    let mut input = threshsold_input(usize::MAX - 1, usize::MAX, |value| value);
    assert_eq!(input.update(&mut (), Event::IncrementPressed), Some(usize::MAX));
    let mut full = threshsold_input(usize::MAX, usize::MAX, |value| value);
    assert_eq!(full.update(&mut (), Event::IncrementPressed), None);
}

#[test]
fn update_leaves_the_control_as_it_is() {
    let mut input = threshsold_input(2, 3, |value| value);
    assert_eq!(input.update(&mut (), Event::IncrementPressed), Some(3));
    assert_eq!(input.update(&mut (), Event::IncrementPressed), Some(3));
    assert_eq!(input.update(&mut (), Event::DecrementPressed), Some(1));
    assert_eq!(input.view(&()).label, "2/3");
}

#[test]
fn update_hands_the_threshold_to_on_change() {
    let mut input = ThresholdInput::new(1, 2, |value| {
        Message::DefineDescriptor(DefineDescriptor::ThresholdEdited(true, value))
    });
    assert_eq!(
        input.update(&mut (), Event::IncrementPressed),
        Some(Message::DefineDescriptor(DefineDescriptor::ThresholdEdited(true, 2)))
    );
    assert_eq!(input.update(&mut (), Event::DecrementPressed), None);
}

#[test]
fn new_and_threshsold_input_make_the_same_control() {
    let mut a = ThresholdInput::new(4, 7, |value| value * 10);
    let mut b = threshsold_input(4, 7, |value| value * 10);
    assert_eq!(a.view(&()), b.view(&()));
    for event in [Event::IncrementPressed, Event::DecrementPressed] {
        assert_eq!(a.update(&mut (), event), b.update(&mut (), event));
    }
}

#[test]
fn view_shows_threshold_over_keys() {
    let input = threshsold_input(2, 3, |value| value);
    let shown = input.view(&());
    assert_eq!(shown.label, "2/3");
    assert_eq!(shown.increment, Event::IncrementPressed);
    assert_eq!(shown.decrement, Event::DecrementPressed);
    assert_eq!(threshsold_input(10, 15, |value| value).view(&()).label, "10/15");
}

#[test]
fn requests_stay_within_one_and_the_number_of_keys() {
    for max in 0..7usize {
        for value in 1..=max {
            for event in [Event::IncrementPressed, Event::DecrementPressed] {
                let mut input = threshsold_input(value, max, |value| value);
                if let Some(next) = input.update(&mut (), event) {
                    assert!(1 <= next && next <= max);
                    assert!(next == value + 1 || next + 1 == value);
                }
            }
        }
    }
}

#[test]
fn a_step_up_and_a_step_down_cancel() {
    for max in 0..7usize {
        for value in 1..7usize {
            let mut input = threshsold_input(value, max, |value| value);
            if let Some(up) = input.update(&mut (), Event::IncrementPressed) {
                let mut raised = threshsold_input(up, max, |value| value);
                assert_eq!(raised.update(&mut (), Event::DecrementPressed), Some(value));
            }
            if let Some(down) = input.update(&mut (), Event::DecrementPressed) {
                if down < max {
                    let mut lowered = threshsold_input(down, max, |value| value);
                    assert_eq!(lowered.update(&mut (), Event::IncrementPressed), Some(value));
                }
            }
        }
    }
}
