use forty_five_bot::commands::forty_five::best_worst::{best_worst_impl, render_record, BestWorstStep};
use forty_five_bot::commands::forty_five::hof::{render_hof, HallOfFame, HofStep};
use forty_five_bot::commands::forty_five::timeouts::TimeoutData;
use forty_five_bot::commands::forty_five::{current_epoch, generate_with_draw, Attempt, Generate};
use forty_five_bot::commands::{ChatPayload, Context};
use forty_five_bot::config::{CommandConfig, FortyFiveConfig};

fn context() -> Context<ChatPayload> {
    Context {
        payload: ChatPayload {
            broadcaster_user_id: "100".to_string(),
            chatter_user_id: "200".to_string(),
            chatter_user_name: "Bob".to_string(),
            source_broadcaster_user_id: None,
            message_text: "!45".to_string(),
            badges: vec![],
        },
        config: CommandConfig { forty_five: FortyFiveConfig { perfect_45_message: None } },
    }
}

fn attempt(epoch: u64, chatter: &str, value: u64, diff: u64, ts: i64) -> Attempt {
    Attempt {
        epoch,
        broadcaster_user_id: "100".to_string(),
        chatter_user_id: chatter.to_string(),
        value_milli: value,
        difference_milli: diff,
        timestamp: ts,
    }
}

#[test]
fn draw_of_9000_is_the_perfect_result() {
    let ctx = context();
    let (msg, a) = generate_with_draw(&ctx, 9000, 1_000, &vec![]);
    assert_eq!(a.value_milli, 45_000);
    assert_eq!(a.difference_milli, 0);
    assert_eq!(a.epoch, 0);
    assert_eq!(a.timestamp, 1_000);
    assert_eq!(msg, "Bob has achieved perfect 45!");
}

#[test]
fn perfect_message_template_is_substituted() {
    let mut ctx = context();
    ctx.config.forty_five.perfect_45_message =
        Some("GG {{ chatter_user_name }}, a perfect {{ chatter_user_name }} run!".to_string());
    let (msg, _) = generate_with_draw(&ctx, 9000, 0, &vec![]);
    assert_eq!(msg, "GG Bob, a perfect Bob run!");
}

#[test]
fn ordinary_draws_report_name_and_value() {
    let ctx = context();
    let (msg, a) = generate_with_draw(&ctx, 123, 0, &vec![]);
    assert_eq!(a.value_milli, 615);
    assert_eq!(a.difference_milli, 44_385);
    assert_eq!(msg, "Bob, 0.615");

    let (msg, a) = generate_with_draw(&ctx, 0, 0, &vec![]);
    assert_eq!(a.value_milli, 0);
    assert_eq!(a.difference_milli, 45_000);
    assert_eq!(msg, "Bob, 0.000");

    let (msg, a) = generate_with_draw(&ctx, 18000, 0, &vec![]);
    assert_eq!(a.value_milli, 90_000);
    assert_eq!(a.difference_milli, 45_000);
    assert_eq!(msg, "Bob, 90.000");

    // One step above the target: the asymmetric threshold branch.
    let (msg, a) = generate_with_draw(&ctx, 9001, 0, &vec![]);
    assert_eq!(a.value_milli, 45_005);
    assert_eq!(a.difference_milli, 5);
    assert_eq!(msg, "Bob, 45.005");
}

#[test]
fn every_generated_value_is_a_step_in_range() {
    let ctx = context();
    for _ in 0..200 {
        let r = Generate {}.call(&ctx, &None, 0, &vec![]).expect("not timed out");
        assert!(r.1.value_milli <= 90_000);
        assert_eq!(r.1.value_milli % 5, 0);
        let v = r.1.value_milli;
        let expected_diff = if v >= 45_005 { v - 45_000 } else { 45_000 - v };
        assert_eq!(r.1.difference_milli, expected_diff);
        assert_eq!(v == 45_000, r.1.difference_milli == 0);
    }
}

#[test]
fn epoch_equals_count_of_prior_perfect_attempts() {
    let ctx = context();
    let history = vec![
        attempt(0, "200", 10_000, 35_000, 1),
        attempt(0, "201", 45_000, 0, 2),
        attempt(1, "200", 45_000, 0, 3),
        // A perfect attempt of another broadcaster does not count.
        Attempt { broadcaster_user_id: "999".to_string(), ..attempt(0, "200", 45_000, 0, 4) },
    ];
    assert_eq!(current_epoch(&history, "100"), 2);
    let (_, a) = generate_with_draw(&ctx, 1, 9, &history);
    assert_eq!(a.epoch, 2);
}

#[test]
fn epochs_never_decrease_as_history_grows() {
    let ctx = context();
    let mut history: Vec<Attempt> = vec![];
    let mut last_epoch = 0u64;
    // Interleave ordinary and perfect attempts; each insertion's epoch is
    // at least the previous one's.
    for raw in [1u32, 9000, 2, 9000, 3] {
        let (_, a) = generate_with_draw(&ctx, raw, history.len() as i64, &history);
        assert!(a.epoch >= last_epoch);
        last_epoch = a.epoch;
        history.push(a);
    }
    assert_eq!(last_epoch, 2);
}

#[test]
fn generation_is_suppressed_while_timed_out() {
    let ctx = context();
    let t = Some(TimeoutData { timestamp: 1_000, secs: 60 });
    assert!(Generate {}.call(&ctx, &t, 2_000, &vec![]).is_none());
    // After the duration has elapsed, generation succeeds again without an
    // explicit untimeout.
    assert!(Generate {}.call(&ctx, &t, 61_000, &vec![]).is_some());
}

#[test]
fn best_returns_smallest_difference() {
    let ctx = context();
    let attempts = vec![
        attempt(0, "alice", 45_100, 100, 1),
        attempt(0, "bob", 45_200, 200, 2),
    ];
    match best_worst_impl(false, false, &None, &None, &ctx, &attempts) {
        BestWorstStep::Lookup { chatter_user_id, value_milli } => {
            assert_eq!(chatter_user_id, "alice");
            assert_eq!(value_milli, 45_100);
        }
        _ => panic!("expected a lookup step"),
    }
    match best_worst_impl(false, true, &None, &None, &ctx, &attempts) {
        BestWorstStep::Lookup { chatter_user_id, .. } => assert_eq!(chatter_user_id, "bob"),
        _ => panic!("expected a lookup step"),
    }
}

#[test]
fn ties_go_to_the_most_recent_timestamp() {
    let ctx = context();
    let attempts = vec![
        attempt(0, "early", 45_100, 100, 1),
        attempt(0, "late", 44_900, 100, 9),
        attempt(0, "mid", 45_100, 100, 5),
    ];
    match best_worst_impl(false, false, &None, &None, &ctx, &attempts) {
        BestWorstStep::Lookup { chatter_user_id, .. } => assert_eq!(chatter_user_id, "late"),
        _ => panic!("expected a lookup step"),
    }
}

#[test]
fn prior_epoch_rows_are_never_reported() {
    let ctx = context();
    // One perfect attempt has occurred, so the current epoch is 1 and the
    // epoch-0 rows are wiped.
    let attempts = vec![
        attempt(0, "alice", 45_005, 5, 1),
        attempt(0, "alice", 45_000, 0, 2),
        attempt(1, "bob", 45_200, 200, 3),
    ];
    match best_worst_impl(false, false, &None, &None, &ctx, &attempts) {
        BestWorstStep::Lookup { chatter_user_id, .. } => assert_eq!(chatter_user_id, "bob"),
        _ => panic!("expected a lookup step"),
    }
}

#[test]
fn named_user_without_history_is_reported() {
    let ctx = context();
    let resolved = Some(("300".to_string(), "A".to_string()));
    match best_worst_impl(true, false, &Some("A".to_string()), &resolved, &ctx, &vec![]) {
        BestWorstStep::Reply(m) => {
            assert_eq!(m, "User A hasn't done a !45 in this channel.");
        }
        _ => panic!("expected a reply"),
    }
}

#[test]
fn wiped_history_is_reported_as_such() {
    let ctx = context();
    let resolved = Some(("300".to_string(), "Alice".to_string()));
    let attempts = vec![
        attempt(0, "300", 45_000, 0, 1),
        attempt(1, "999", 45_100, 100, 2),
    ];
    // Alice only has epoch-0 rows; the current epoch is 1.
    match best_worst_impl(true, false, &Some("alice".to_string()), &resolved, &ctx, &attempts) {
        BestWorstStep::Reply(m) => {
            assert_eq!(
                m,
                "User Alice has done a !45 in this channel, but a perfect 45 has been achieved and such the values has been wiped."
            );
        }
        _ => panic!("expected a reply"),
    }
}

#[test]
fn unresolved_login_is_reported_not_found() {
    let ctx = context();
    match best_worst_impl(true, false, &Some("ghost".to_string()), &None, &ctx, &vec![]) {
        BestWorstStep::Reply(m) => assert_eq!(m, "User ghost not found."),
        _ => panic!("expected a reply"),
    }
}

#[test]
fn self_query_with_no_rows_is_silent() {
    let ctx = context();
    assert!(matches!(
        best_worst_impl(true, false, &None, &None, &ctx, &vec![]),
        BestWorstStep::Silent
    ));
}

#[test]
fn record_reply_is_rendered_with_three_decimals() {
    let r = render_record(false, false, &Some("Alice".to_string()), 45_100).unwrap();
    assert_eq!(r, "Current best 45 by Alice: 45.100");
    let r = render_record(true, true, &Some("Bob".to_string()), 5).unwrap();
    assert_eq!(r, "Personal worst 45 by Bob: 0.005");
    assert!(render_record(false, false, &None, 0).is_none());
}

#[test]
fn hall_of_fame_reports_the_latest_perfect() {
    let ctx = context();
    let attempts = vec![
        attempt(0, "first", 45_000, 0, 1),
        attempt(1, "second", 45_000, 0, 2),
        attempt(1, "loser", 44_000, 1_000, 3),
    ];
    match (HallOfFame { epoch: None }).call(&ctx, &attempts) {
        HofStep::Lookup { chatter_user_id } => assert_eq!(chatter_user_id, "second"),
        _ => panic!("expected a lookup step"),
    }
    match (HallOfFame { epoch: Some(0) }).call(&ctx, &attempts) {
        HofStep::Lookup { chatter_user_id } => assert_eq!(chatter_user_id, "first"),
        _ => panic!("expected a lookup step"),
    }
    match (HallOfFame { epoch: Some(7) }).call(&ctx, &attempts) {
        HofStep::Reply(m) => assert_eq!(m, "No perfect 45.000's found with epoch of 7"),
        _ => panic!("expected a reply"),
    }
    match (HallOfFame { epoch: None }).call(&ctx, &vec![]) {
        HofStep::Reply(m) => assert_eq!(m, "No perfect 45.000's in this channel."),
        _ => panic!("expected a reply"),
    }
}

#[test]
fn hall_of_fame_reply_is_rendered() {
    let r = render_hof(&Some(2), &Some("Ace".to_string())).unwrap();
    assert_eq!(r, "Perfect 45.000 #2 by: Ace");
    let r = render_hof(&None, &Some("Ace".to_string())).unwrap();
    assert_eq!(r, "Latest perfect 45.000 by: Ace");
    assert!(render_hof(&None, &None).is_none());
}
