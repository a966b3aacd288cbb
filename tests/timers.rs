use rust8::sound::Sound;

#[test]
fn delay_ticks_every_five_cycles_at_300_hz() {
    let mut s = Sound::new();
    s.set_delay(5);
    let mut seen = Vec::new();
    for _ in 0..25 {
        s.tick(300);
        seen.push(s.dt);
    }
    let expected: Vec<u8> = (0..25u8).map(|c| 5 - (c + 1) / 5).collect();
    assert_eq!(seen, expected);
    assert_eq!(s.dt, 0);
    s.tick(300);
    assert_eq!(s.dt, 0);
}

#[test]
fn timers_stop_at_zero() {
    let mut s = Sound::new();
    s.set_sound(1);
    assert!(s.sounding());
    for _ in 0..100 {
        s.tick(60);
    }
    assert_eq!(s.st, 0);
    assert_eq!(s.dt, 0);
    assert!(!s.sounding());
}

#[test]
fn loading_restarts_the_count() {
    let mut s = Sound::new();
    s.set_delay(10);
    s.tick(300);
    s.tick(300);
    s.tick(300);
    assert_eq!(s.dt_lu, 3);
    s.set_delay(10);
    assert_eq!(s.dt_lu, 0);
    for _ in 0..4 {
        s.tick(300);
    }
    assert_eq!(s.dt, 10);
    s.tick(300);
    assert_eq!(s.dt, 9);
}

#[test]
fn slow_rate_ticks_every_cycle() {
    let mut s = Sound::new();
    s.set_delay(3);
    s.set_sound(2);
    s.tick(30);
    assert_eq!((s.dt, s.st), (2, 1));
    s.tick(30);
    assert_eq!((s.dt, s.st), (1, 0));
}
