use platform::blink::{blink_start, blink_step, BlinkState, LedAction, BLINK_HALF_PERIOD};

#[test]
fn blink_first_step_turns_led_on() {
    let s = blink_start();
    assert_eq!(s, BlinkState { lit: true, count: 0 });
    let (next, action) = blink_step(s);
    assert_eq!(action, LedAction::TurnOn);
    assert_eq!(next, BlinkState { lit: true, count: 1 });
}

#[test]
fn blink_switches_after_half_period() {
    let s = BlinkState { lit: true, count: BLINK_HALF_PERIOD - 1 };
    let (next, action) = blink_step(s);
    assert_eq!(action, LedAction::TurnOn);
    assert_eq!(next, BlinkState { lit: false, count: 0 });
    let (after, action2) = blink_step(next);
    assert_eq!(action2, LedAction::TurnOff);
    assert_eq!(after, BlinkState { lit: false, count: 1 });
}

#[test]
fn blink_schedule_over_two_periods() {
    let mut s = blink_start();
    let h = BLINK_HALF_PERIOD as u64;
    let mut on = 0u64;
    for t in 0..(4 * h) {
        let (next, action) = blink_step(s);
        let expect_on = t % (2 * h) < h;
        assert_eq!(action == LedAction::TurnOn, expect_on);
        if expect_on {
            on += 1;
        }
        s = next;
    }
    assert_eq!(on, 2 * h);
    assert_eq!(s, blink_start());
}
