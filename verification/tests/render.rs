use pomodoro::render::{clock_fields, render_dec, render_hms, render_ms, render_two_pad};

#[test]
fn clock_fields_round_trip() {
    for t in [0u32, 1, 59, 60, 61, 1500, 3599, 3600, 3661, 86399, 90061] {
        let (h, m, s) = clock_fields(t);
        assert_eq!(h * 3600 + m * 60 + s, t);
        assert!(m < 60);
        assert!(s < 60);
        assert_eq!(h, t / 3600);
        assert_eq!(m, (t % 3600) / 60);
        assert_eq!(s, t % 60);
    }
}

#[test]
fn clock_fields_exact_values() {
    assert_eq!(clock_fields(1500), (0, 25, 0));
    assert_eq!(clock_fields(3661), (1, 1, 1));
    assert_eq!(clock_fields(0), (0, 0, 0));
}

#[test]
fn render_dec_exact() {
    assert_eq!(render_dec(0), "0");
    assert_eq!(render_dec(7), "7");
    assert_eq!(render_dec(10), "10");
    assert_eq!(render_dec(305), "305");
    assert_eq!(render_dec(4294967295), "4294967295");
}

#[test]
fn render_two_pad_exact() {
    assert_eq!(render_two_pad(0), "00");
    assert_eq!(render_two_pad(5), "05");
    assert_eq!(render_two_pad(42), "42");
    assert_eq!(render_two_pad(150), "150");
}

#[test]
fn render_ms_exact() {
    assert_eq!(render_ms(0), "00:00");
    assert_eq!(render_ms(1500), "25:00");
    assert_eq!(render_ms(61), "01:01");
    assert_eq!(render_ms(3661), "61:01");
}

#[test]
fn render_hms_exact() {
    assert_eq!(render_hms(0), "00:00:00");
    assert_eq!(render_hms(1500), "00:25:00");
    assert_eq!(render_hms(3661), "01:01:01");
    assert_eq!(render_hms(86399), "23:59:59");
}
