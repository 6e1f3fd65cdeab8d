use fs_bot::announce::{
    format_status_message, format_timestamp, format_year, local_now, random_hello_index,
    say_goodbye, say_hello, Timestamp, HELLO_DELAY_MS, HELLO_SOUND_COUNT,
};

fn sample_time() -> Timestamp {
    Timestamp { year: 2034, month: 2, day: 1, hour: 5, minute: 6, second: 7 }
}

#[test]
fn timestamp_is_zero_padded() {
    assert_eq!(format_timestamp(&sample_time()), "01.02.2034 05:06:07");
    let t = Timestamp { year: 33, month: 12, day: 31, hour: 23, minute: 59, second: 59 };
    assert_eq!(format_timestamp(&t), "31.12.0033 23:59:59");
}

#[test]
fn years_render_with_four_digits_and_sign() {
    assert_eq!(format_year(2024), "2024");
    assert_eq!(format_year(5), "0005");
    assert_eq!(format_year(0), "0000");
    assert_eq!(format_year(-44), "-0044");
    assert_eq!(format_year(12345), "12345");
}

#[test]
fn status_message_shape() {
    let m = format_status_message(&sample_time(), "Ann", " joined.");
    assert_eq!(m, "[01.02.2034 05:06:07] **Ann** joined.");
    let m = format_status_message(&sample_time(), "Bob", " left.");
    assert_eq!(m, "[01.02.2034 05:06:07] **Bob** left.");
}

#[test]
fn arrival_announcement() {
    let a = say_hello("Ann");
    assert_eq!(a.delay_ms, HELLO_DELAY_MS);
    assert!(a.message.starts_with('['));
    assert!(a.message.ends_with("] **Ann** joined."));
    let mut matched = false;
    for i in 0..HELLO_SOUND_COUNT {
        if a.sound == format!("hello{}", i) {
            matched = true;
        }
    }
    assert!(matched, "the arrival sound comes from the fixed pool");
}

#[test]
fn departure_announcement() {
    let a = say_goodbye("Bob");
    assert_eq!(a.delay_ms, 0);
    assert!(a.message.starts_with('['));
    assert!(a.message.ends_with("] **Bob** left."));
    assert_eq!(a.sound, "goodbye");
}

#[test]
fn clock_fields_stay_in_range() {
    let t = local_now();
    assert!((1..=12).contains(&t.month));
    assert!((1..=31).contains(&t.day));
    assert!(t.hour <= 23);
    assert!(t.minute <= 59);
    assert!(t.second <= 59);
}

#[test]
fn hello_index_stays_in_the_pool() {
    for _ in 0..100 {
        assert!(random_hello_index() < HELLO_SOUND_COUNT);
    }
}
