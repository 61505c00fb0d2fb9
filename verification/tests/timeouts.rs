use forty_five_bot::commands::forty_five::timeouts::{
    is_moderator, is_timeout_active, timeout_key, Timeout, TimeoutData, StoreAction, Untimeout,
};
use forty_five_bot::commands::{ChatPayload, Context};
use forty_five_bot::config::{CommandConfig, FortyFiveConfig};

fn context(badges: Vec<&str>) -> Context<ChatPayload> {
    Context {
        payload: ChatPayload {
            broadcaster_user_id: "100".to_string(),
            chatter_user_id: "200".to_string(),
            chatter_user_name: "Mod".to_string(),
            source_broadcaster_user_id: None,
            message_text: "!45".to_string(),
            badges: badges.into_iter().map(|b| b.to_string()).collect(),
        },
        config: CommandConfig { forty_five: FortyFiveConfig { perfect_45_message: None } },
    }
}

#[test]
fn keys_are_formatted_per_broadcaster_and_chatter() {
    assert_eq!(
        timeout_key(&"100".to_string(), Some(&"200".to_string())),
        "broadcaster=100;chatter=200"
    );
    assert_eq!(timeout_key(&"100".to_string(), None), "broadcaster=100;chatter=*");
}

#[test]
fn badge_sets_gate_moderation() {
    assert!(is_moderator(&vec!["moderator".to_string()]));
    assert!(is_moderator(&vec!["subscriber".to_string(), "broadcaster".to_string()]));
    assert!(!is_moderator(&vec!["subscriber".to_string(), "vip".to_string()]));
    assert!(!is_moderator(&vec![]));
}

#[test]
fn short_durations_are_clamped_to_sixty() {
    let ctx = context(vec!["moderator"]);
    let cmd = Timeout { chatter_user_login: "bob".to_string(), secs: 30 };
    let (store, msg) = cmd.call(&ctx, &Some("300".to_string()), 5_000);
    match store {
        StoreAction::Put { key, data, expiration_ttl } => {
            assert_eq!(key, "broadcaster=100;chatter=300");
            assert_eq!(data.secs, 60);
            assert_eq!(data.timestamp, 5_000);
            assert_eq!(expiration_ttl, 60);
        }
        _ => panic!("expected a put"),
    }
    assert_eq!(msg.unwrap(), "Timed out bob from !45's for 60 seconds.");
}

#[test]
fn long_durations_are_stored_as_requested() {
    let ctx = context(vec!["broadcaster"]);
    let cmd = Timeout { chatter_user_login: "@Bob".to_string(), secs: 120 };
    let (store, msg) = cmd.call(&ctx, &Some("300".to_string()), 0);
    match store {
        StoreAction::Put { data, expiration_ttl, .. } => {
            assert_eq!(data.secs, 120);
            assert_eq!(expiration_ttl, 120);
        }
        _ => panic!("expected a put"),
    }
    // The `@` is stripped from the reply.
    assert_eq!(msg.unwrap(), "Timed out Bob from !45's for 120 seconds.");
}

#[test]
fn non_moderators_get_no_reply() {
    let ctx = context(vec!["subscriber"]);
    let cmd = Timeout { chatter_user_login: "bob".to_string(), secs: 60 };
    let (store, msg) = cmd.call(&ctx, &Some("300".to_string()), 0);
    assert!(matches!(store, StoreAction::NoChange));
    assert!(msg.is_none());
}

#[test]
fn unresolved_target_is_reported() {
    let ctx = context(vec!["moderator"]);
    let cmd = Timeout { chatter_user_login: "@ghost".to_string(), secs: 60 };
    let (store, msg) = cmd.call(&ctx, &None, 0);
    assert!(matches!(store, StoreAction::NoChange));
    assert_eq!(msg.unwrap(), "User ghost not found.");
}

#[test]
fn untimeout_deletes_an_existing_record() {
    let ctx = context(vec!["moderator"]);
    let cmd = Untimeout { chatter_user_login: "bob".to_string() };
    let existing = Some(TimeoutData { timestamp: 0, secs: 60 });
    let (store, msg) = cmd.call(&ctx, &Some("300".to_string()), &existing, 1_000);
    match store {
        StoreAction::Delete { key } => assert_eq!(key, "broadcaster=100;chatter=300"),
        _ => panic!("expected a delete"),
    }
    assert_eq!(msg.unwrap(), "Removed !45 timeout for bob.");
}

#[test]
fn untimeout_without_a_record_reports_so() {
    let ctx = context(vec!["moderator"]);
    let cmd = Untimeout { chatter_user_login: "bob".to_string() };
    let (store, msg) = cmd.call(&ctx, &Some("300".to_string()), &None, 1_000);
    assert!(matches!(store, StoreAction::NoChange));
    assert_eq!(msg.unwrap(), "bob is not currently timed out.");
}

#[test]
fn records_expire_by_elapsed_time() {
    let d = Some(TimeoutData { timestamp: 10_000, secs: 60 });
    assert!(is_timeout_active(&d, 10_000));
    assert!(is_timeout_active(&d, 69_999));
    assert!(!is_timeout_active(&d, 70_000));
    assert!(!is_timeout_active(&None, 0));
}
