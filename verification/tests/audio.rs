use gameboy_core::audio::FrameClock;

#[test]
fn frames_follow_the_ratio_of_rates() {
    let mut clock = FrameClock::new(3, 4);
    let frames: Vec<u64> = (0..8).map(|_| clock.output()).collect();
    assert_eq!(frames, vec![0, 1, 1, 1, 0, 1, 1, 1]);
    assert_eq!(clock.frame_counter, 0);
}

#[test]
fn faster_device_sends_several_frames() {
    let mut clock = FrameClock::new(10, 4);
    assert_eq!(clock.output(), 2);
    assert_eq!(clock.frame_counter, 2);
    assert_eq!(clock.output(), 3);
    assert_eq!(clock.frame_counter, 0);
}

#[test]
fn nothing_is_lost() {
    let (rate, source) = (48000u64, 65536u64);
    let mut clock = FrameClock::new(rate, source);
    let mut sent = 0u64;
    for _ in 0..1000 {
        let before = clock.frame_counter;
        let frames = clock.output();
        assert_eq!(frames * source + clock.frame_counter, before + rate);
        assert!(clock.frame_counter < source);
        sent += frames;
    }
    assert_eq!(sent, 1000 * rate / source);
}
