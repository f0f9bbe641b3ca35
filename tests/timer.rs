use chip8::timer::Timer;


#[test]
fn tick_test() {

    let mut timer = Timer::new();
    timer.set(120);

    for i in 0..400 {
        let val = timer.tick(180);

        if i == 1 {
            assert_eq!(120, val);
        }

        // 180 tick/sec means a 60Hz timer will decrement every 3 ticks
        if i == 2 {
            assert_eq!(119, val);
        }

        // At 360 ticks and 180 tick/sec, a timer with a value of 120 should be fully depleted.
        if i >= 359 {
            assert_eq!(0, val);
        }
    }
}
