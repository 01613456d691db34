use endless_trial::diagnostics::{Diagnostics, PollKind};

#[test]
fn measurements_accumulate_into_their_phase_totals() {
    let mut d = Diagnostics::new(0);
    d.start_polling(100);
    let flushed = d.finish_polling(PollKind::Update, 150);
    assert_eq!(flushed, None);
    assert_eq!(d.total_update_ms, 50);
    assert_eq!(d.total_draw_ms, 0);
    assert_eq!(d.times_polled, 1);
}

#[test]
fn averages_are_flushed_once_the_interval_elapses() {
    let mut d = Diagnostics::new(0);
    d.start_polling(100);
    assert_eq!(d.finish_polling(PollKind::Update, 150), None);
    d.start_polling(15_000);
    let flushed = d.finish_polling(PollKind::Drawing, 15_100);
    assert_eq!(flushed, Some((50, 25)));
    // The flush restarted the interval.
    d.start_polling(15_200);
    assert_eq!(d.finish_polling(PollKind::Drawing, 15_300), None);
}
