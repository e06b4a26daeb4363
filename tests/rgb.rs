use rgbcal::rgb::{PinAction, Rgb};

fn frame_tick_time(frame_rate: u64) -> u64 {
    Rgb::<()>::frame_tick_time(frame_rate)
}
use rgbcal::LEVELS;

fn waited(actions: &[PinAction]) -> u64 {
    actions
        .iter()
        .map(|a| match a {
            PinAction::Wait(us) => *us,
            _ => 0,
        })
        .sum()
}

#[test]
fn tick_time_formula() {
    assert_eq!(frame_tick_time(100), 208);
    assert_eq!(frame_tick_time(10), 2083);
    assert_eq!(frame_tick_time(160), 130);
    assert_eq!(frame_tick_time(1), 20833);
}

#[test]
fn new_driver_is_all_off() {
    let rgb = Rgb::new([(), (), ()], 100);
    for led in 0..3 {
        assert_eq!(rgb.step(led), vec![PinAction::Wait(16 * 208)]);
    }
}

#[test]
fn slot_actions_per_level() {
    let mut rgb = Rgb::new([0u8, 1, 2], 100);
    rgb.refresh([15, 0, 7], 100);
    assert_eq!(
        rgb.step(0),
        vec![PinAction::High(0), PinAction::Wait(15 * 208), PinAction::Low(0), PinAction::Wait(208)]
    );
    assert_eq!(rgb.step(1), vec![PinAction::Wait(16 * 208)]);
    assert_eq!(
        rgb.step(2),
        vec![PinAction::High(2), PinAction::Wait(7 * 208), PinAction::Low(2), PinAction::Wait(9 * 208)]
    );
    assert_eq!(*rgb.pin_mut(2), 2);
}

#[test]
fn slot_duration_independent_of_level() {
    for frame_rate in [1u64, 10, 100, 160] {
        let tick = frame_tick_time(frame_rate);
        for level in 0..LEVELS {
            let mut rgb = Rgb::new([(), (), ()], frame_rate);
            rgb.refresh([level, LEVELS - 1 - level, 0], frame_rate);
            for led in 0..3 {
                assert_eq!(waited(&rgb.step(led)), LEVELS as u64 * tick);
            }
        }
    }
}

#[test]
fn refresh_takes_new_frame_rate() {
    let mut rgb = Rgb::new([(), (), ()], 100);
    rgb.refresh([0, 0, 0], 10);
    assert_eq!(rgb.step(0), vec![PinAction::Wait(16 * 2083)]);
}

#[test]
fn driver_keeps_pins_in_order() {
    let mut rgb = Rgb::new([10u8, 20, 30], 100);
    rgb.refresh([1, 2, 3], 160);
    assert_eq!(*rgb.pin_mut(0), 10);
    assert_eq!(*rgb.pin_mut(1), 20);
    assert_eq!(*rgb.pin_mut(2), 30);
}
