use hello_cargo::clock::MonotonicClock;
use hello_cargo::timing::elapsed_message;
use hello_cargo::{after_at, before_at, try_after_at, RequestContext, ResponseTime};
use std::time::{Duration, Instant};

#[test]
fn fresh_context_holds_no_start() {
    let ctx = RequestContext::new();
    assert!(!ctx.is_started());
    assert_eq!(ctx.start(), None);
}

#[test]
fn no_elapsed_time_without_a_start() {
    let ctx = RequestContext::new();
    assert_eq!(ctx.elapsed(0), None);
    assert_eq!(ctx.elapsed(1_000_000), None);
    assert_eq!(ctx.elapsed(u128::MAX), None);
}

#[test]
fn before_at_records_the_reading() {
    let mut ctx = RequestContext::new();
    before_at(&mut ctx, 1_000);
    assert!(ctx.is_started());
    assert_eq!(ctx.start(), Some(1_000));
    before_at(&mut ctx, 7);
    assert_eq!(ctx.start(), Some(7));
}

#[test]
fn elapsed_is_the_difference_of_the_readings() {
    let mut ctx = RequestContext::new();
    before_at(&mut ctx, 1_000);
    assert_eq!(ctx.elapsed(1_000), Some(0));
    assert_eq!(ctx.elapsed(1_001), Some(1));
    assert_eq!(ctx.elapsed(1_501_000), Some(1_500_000));
    assert_eq!(ctx.elapsed(u128::MAX), Some(u128::MAX - 1_000));
}

#[test]
fn elapsed_is_zero_when_the_clock_ran_backwards() {
    let mut ctx = RequestContext::new();
    before_at(&mut ctx, 1_000);
    assert_eq!(ctx.elapsed(999), Some(0));
    assert_eq!(ctx.elapsed(0), Some(0));
}

#[test]
fn after_at_reports_the_elapsed_time() {
    let mut ctx = RequestContext::new();
    before_at(&mut ctx, 1_000);
    let out = after_at(&ctx, 1_501_000, "Hello World");
    assert_eq!(out.response, "Hello World");
    assert_eq!(out.elapsed_nanos, 1_500_000);
    assert_eq!(out.message, "Request took: 1.500ms");
}

#[test]
fn after_at_leaves_the_start_in_place() {
    let mut ctx = RequestContext::new();
    before_at(&mut ctx, 1_000);
    let out = after_at(&ctx, 3_000, ());
    assert_eq!(out.elapsed_nanos, 2_000);
    assert!(ctx.is_started());
    assert_eq!(ctx.start(), Some(1_000));
    let again = after_at(&ctx, 4_000, ());
    assert_eq!(again.elapsed_nanos, 3_000);
    assert_eq!(ctx.start(), Some(1_000));
}

#[test]
fn try_after_at_makes_up_no_time_without_a_start() {
    let ctx = RequestContext::new();
    let out = try_after_at(&ctx, 5_000, "Hello World");
    assert!(out.is_err());
    assert_eq!(out.err(), Some("Hello World"));
    assert!(!ctx.is_started());
}

#[test]
fn try_after_at_reports_where_a_start_was_recorded() {
    let mut ctx = RequestContext::new();
    before_at(&mut ctx, 1_000);
    let out = try_after_at(&ctx, 2_501_000, "Hello World");
    assert!(out.is_ok());
    let timed = out.ok().unwrap();
    assert_eq!(timed.response, "Hello World");
    assert_eq!(timed.elapsed_nanos, 2_500_000);
    assert_eq!(timed.message, "Request took: 2.500ms");
    assert_eq!(ctx.start(), Some(1_000));
}

#[test]
fn try_after_fails_without_the_first_phase() {
    let timer = ResponseTime::new();
    let ctx = RequestContext::new();
    let out = timer.try_after(&ctx, 404u16);
    assert_eq!(out.err(), Some(404u16));
}

#[test]
fn try_after_reports_after_the_first_phase() {
    let timer = ResponseTime::new();
    let mut ctx = RequestContext::new();
    timer.before(&mut ctx);
    let recorded = ctx.start();
    let out = timer.try_after(&ctx, 200u16);
    let timed = out.ok().unwrap();
    assert_eq!(timed.response, 200u16);
    assert_eq!(timed.message, elapsed_message(timed.elapsed_nanos));
    assert_eq!(ctx.start(), recorded);
}

#[test]
fn after_at_hands_the_response_through() {
    let mut ctx = RequestContext::new();
    before_at(&mut ctx, 5);
    let body = vec![0u8, 1, 2, 255];
    let out = after_at(&ctx, 6, (200u16, body.clone()));
    assert_eq!(out.response, (200u16, body));
    let failed: Result<String, String> = Err(String::from("handler failed"));
    let out = after_at(&ctx, 6, failed.clone());
    assert_eq!(out.response, failed);
}

#[test]
fn a_known_delay_is_reported_exactly() {
    let delay: u128 = 250_000_000;
    let mut ctx = RequestContext::new();
    before_at(&mut ctx, 42);
    let out = after_at(&ctx, 42 + delay, ());
    assert_eq!(out.elapsed_nanos, delay);
    assert_eq!(out.message, "Request took: 250.000ms");
}

#[test]
fn two_requests_keep_their_own_start() {
    let mut a = RequestContext::new();
    let mut b = RequestContext::new();
    before_at(&mut a, 100);
    before_at(&mut b, 400);
    assert_eq!(a.start(), Some(100));
    assert_eq!(b.start(), Some(400));
    let out_b = after_at(&b, 1_000, 'b');
    let out_a = after_at(&a, 1_000, 'a');
    assert_eq!(out_a.elapsed_nanos, 900);
    assert_eq!(out_b.elapsed_nanos, 600);
    assert_eq!(out_a.response, 'a');
    assert_eq!(out_b.response, 'b');
}

#[test]
fn elapsed_message_is_in_milliseconds_with_three_decimals() {
    assert_eq!(elapsed_message(0), "Request took: 0.000ms");
    assert_eq!(elapsed_message(999), "Request took: 0.000ms");
    assert_eq!(elapsed_message(1_000), "Request took: 0.001ms");
    assert_eq!(elapsed_message(1_234_567), "Request took: 1.234ms");
    assert_eq!(elapsed_message(1_999_999), "Request took: 1.999ms");
    assert_eq!(elapsed_message(20_050_000), "Request took: 20.050ms");
    assert_eq!(elapsed_message(12_345_678_901), "Request took: 12345.678ms");
}

#[test]
fn clock_readings_do_not_go_back() {
    let clock = MonotonicClock::new();
    let first = clock.now();
    let second = clock.now();
    assert!(second >= first);
}

#[test]
fn clock_elapsed_does_not_go_back() {
    let clock = MonotonicClock::new();
    let first = clock.elapsed();
    let second = clock.elapsed();
    assert!(second >= first);
    assert!(clock.now() >= second.as_nanos());
}

#[test]
fn clock_counts_from_its_own_start() {
    let began = Instant::now();
    let clock = MonotonicClock::new();
    let reading = clock.now();
    assert!(reading <= began.elapsed().as_nanos());
}

#[test]
fn immediate_handler_takes_next_to_nothing() {
    let timer = ResponseTime::new();
    let mut ctx = RequestContext::new();
    timer.before(&mut ctx);
    assert!(ctx.is_started());
    let out = timer.after(&ctx, "Hello World");
    assert_eq!(out.response, "Hello World");
    assert!(ctx.is_started());
    assert!(out.elapsed_nanos < 5_000_000_000);
    assert_eq!(out.message, elapsed_message(out.elapsed_nanos));
}

#[test]
fn slow_handler_is_reported_with_at_least_its_delay() {
    let delay = Duration::from_millis(30);
    let timer = ResponseTime::new();
    let mut ctx = RequestContext::new();
    timer.before(&mut ctx);
    let began = Instant::now();
    while began.elapsed() < delay {
        std::hint::spin_loop();
    }
    let out = timer.after(&ctx, 7u8);
    assert_eq!(out.response, 7u8);
    assert!(out.elapsed_nanos >= delay.as_nanos());
    assert!(out.elapsed_nanos < delay.as_nanos() + 5_000_000_000);
}

#[test]
fn handle_returns_what_the_handler_gave() {
    let timer = ResponseTime::new();
    let out = timer.handle(|req: u32| req + 1, 41);
    assert_eq!(out.response, 42);
    assert_eq!(out.message, elapsed_message(out.elapsed_nanos));
    let out = timer.handle(|name: &str| format!("Hello {}", name), "World");
    assert_eq!(out.response, "Hello World");
}

#[test]
fn handle_passes_handler_errors_through() {
    let timer = ResponseTime::new();
    let out = timer.handle(|_req: ()| -> Result<u8, String> { Err(String::from("boom")) }, ());
    assert_eq!(out.response, Err(String::from("boom")));
}
