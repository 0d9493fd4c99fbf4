use audio_multisample::TimeSpan;

#[test]
fn a_span_is_read_back_as_it_was_made() {
    let span = TimeSpan::new(3, 250_000_000).unwrap();
    assert_eq!(span.as_secs(), 3);
    assert_eq!(span.subsec_nanos(), 250_000_000);
    assert_eq!(span.as_nanos(), 3_250_000_000);
}

#[test]
fn nanoseconds_from_one_second_up_are_carried() {
    let span = TimeSpan::new(1, 2_500_000_000).unwrap();
    assert_eq!(span.as_secs(), 3);
    assert_eq!(span.subsec_nanos(), 500_000_000);
    assert_eq!(span, TimeSpan::new(3, 500_000_000).unwrap());
    let most = TimeSpan::new(0, u32::MAX).unwrap();
    assert_eq!(most.as_secs(), 4);
    assert_eq!(most.subsec_nanos(), 294_967_295);
}

#[test]
fn a_span_whose_seconds_do_not_fit_is_refused() {
    assert_eq!(TimeSpan::new(u64::MAX, 1_000_000_000), None);
    assert_eq!(TimeSpan::new(u64::MAX - 3, u32::MAX), None);
    let largest = TimeSpan::new(u64::MAX, 999_999_999).unwrap();
    assert_eq!(largest.as_secs(), u64::MAX);
    assert_eq!(largest.subsec_nanos(), 999_999_999);
    assert_eq!(largest.as_nanos(), 18_446_744_073_709_551_615_999_999_999);
    assert_eq!(TimeSpan::new(u64::MAX - 4, u32::MAX).unwrap().as_secs(), u64::MAX);
}

#[test]
fn milliseconds_split_into_seconds_and_nanoseconds() {
    let span = TimeSpan::from_millis(20);
    assert_eq!(span.as_secs(), 0);
    assert_eq!(span.subsec_nanos(), 20_000_000);
    let long = TimeSpan::from_millis(12_345);
    assert_eq!(long.as_secs(), 12);
    assert_eq!(long.subsec_nanos(), 345_000_000);
    assert_eq!(long.as_nanos(), 12_345_000_000);
    let most = TimeSpan::from_millis(u64::MAX);
    assert_eq!(most.as_secs(), 18_446_744_073_709_551);
    assert_eq!(most.subsec_nanos(), 615_000_000);
}

#[test]
fn whole_seconds_have_no_nanoseconds() {
    let span = TimeSpan::from_secs(7);
    assert_eq!(span.as_secs(), 7);
    assert_eq!(span.subsec_nanos(), 0);
    assert_eq!(span.as_nanos(), 7_000_000_000);
    assert_eq!(span, TimeSpan::from_millis(7000));
    assert_eq!(TimeSpan::from_secs(0).as_nanos(), 0);
}
