//! The moderation timeout subsystem: moderators can suppress a chatter's
//! minigame participation for a bounded duration. A timeout record expires
//! on its own; absence of a record, or an expired one, means the chatter is
//! active again.

use vstd::prelude::*;
use crate::commands::{ChatPayload, Context};
use crate::text::{dec_digits, replaced, u64_to_string, strip_at};

verus! {

/// `timeout <login> [secs]`: suppress a chatter, moderator-gated.
pub struct Timeout {
    pub chatter_user_login: String,
    /// Requested duration in seconds; the grammar's default is 300 and the
    /// stored duration is never below 60.
    pub secs: u64,
}

/// `untimeout <login>`: lift a suppression early, moderator-gated.
pub struct Untimeout {
    pub chatter_user_login: String,
}

/// One timeout record, keyed by broadcaster and chatter.
pub struct TimeoutData {
    /// When the timeout was issued, in milliseconds since the Unix epoch.
    pub timestamp: i64,
    /// Effective duration in seconds.
    pub secs: u64,
}

/// A chatter is suppressed exactly while an unexpired record exists.
pub open spec fn timeout_active(t: Option<TimeoutData>, now_ms: int) -> bool {
    match t {
        Some(d) => now_ms < d.timestamp + d.secs * 1000,
        None => false,
    }
}

/// Checks whether a timeout record still suppresses the chatter at `now_ms`.
/// A record whose duration has elapsed counts as absent.
pub fn is_timeout_active(t: &Option<TimeoutData>, now_ms: i64) -> (r: bool)
    ensures
        r == timeout_active(*t, now_ms as int),
{
    match t {
        Some(d) => (now_ms as i128) < (d.timestamp as i128) + (d.secs as i128) * 1000,
        None => false,
    }
}

/// Once a timeout's duration has elapsed, the chatter is active again with
/// no further action: the record no longer suppresses anything.
pub proof fn lemma_timeout_expires(d: TimeoutData, now_ms: int)
    requires
        now_ms >= d.timestamp + d.secs * 1000,
    ensures
        !timeout_active(Some(d), now_ms),
{
}

/// The store key of a timeout record.
pub open spec fn timeout_key_spec(broadcaster: Seq<char>, chatter: Option<Seq<char>>) -> Seq<char> {
    "broadcaster="@ + broadcaster + ";chatter="@ + match chatter {
        Some(c) => c,
        None => "*"@,
    }
}

/// Formats the store key of a timeout record; `None` stands for every
/// chatter of the broadcaster.
pub fn timeout_key(broadcaster_user_id: &String, chatter_user_id: Option<&String>) -> (r: String)
    ensures
        r@ == timeout_key_spec(
            broadcaster_user_id@,
            match chatter_user_id {
                Some(c) => Some(c@),
                None => None,
            },
        ),
{
    let mut key = String::new();
    key.append("broadcaster=");
    key.append(broadcaster_user_id.as_str());
    key.append(";chatter=");
    match chatter_user_id {
        Some(c) => key.append(c.as_str()),
        None => key.append("*"),
    }
    proof {
        assert(key@ =~= timeout_key_spec(
            broadcaster_user_id@,
            match chatter_user_id {
                Some(c) => Some(c@),
                None => None,
            },
        ));
    }
    key
}

/// The effective duration of a timeout: the request, but never below 60
/// seconds.
pub open spec fn clamped_secs(secs: int) -> int {
    if secs < 60 {
        60
    } else {
        secs
    }
}

/// Whether the sender's badge set marks a moderator (or the broadcaster,
/// who can do whatever a moderator can).
pub open spec fn is_moderator_spec(badges: Seq<String>) -> bool {
    exists|i: int|
        0 <= i < badges.len() && ((#[trigger] badges[i])@ == "moderator"@ || badges[i]@
            == "broadcaster"@)
}

/// Checks the sender's badges for moderator or broadcaster.
pub fn is_moderator(badges: &Vec<String>) -> (r: bool)
    ensures
        r == is_moderator_spec(badges@),
{
    let n = badges.len();
    let mut i: usize = 0;
    while i < n
        invariant
            n == badges@.len(),
            i <= n,
            forall|j: int|
                0 <= j < i ==> !((#[trigger] badges@[j])@ == "moderator"@ || badges@[j]@
                    == "broadcaster"@),
        decreases n - i,
    {
        let b = badges[i].as_str();
        if crate::text::str_eq(b, "moderator") || crate::text::str_eq(b, "broadcaster") {
            return true;
        }
        i += 1;
    }
    false
}

/// `Timed out <chatter> from !45's for <secs> seconds.`
pub open spec fn timed_out_message(chatter: Seq<char>, secs: int) -> Seq<char> {
    "Timed out "@ + chatter + " from !45's for "@ + dec_digits(secs) + " seconds."@
}

/// `Removed !45 timeout for <chatter>.`
pub open spec fn removed_message(chatter: Seq<char>) -> Seq<char> {
    "Removed !45 timeout for "@ + chatter + "."@
}

/// `<chatter> is not currently timed out.`
pub open spec fn not_timed_out_message(chatter: Seq<char>) -> Seq<char> {
    chatter + " is not currently timed out."@
}

/// `User <chatter> not found.`
pub open spec fn user_not_found_message(chatter: Seq<char>) -> Seq<char> {
    "User "@ + chatter + " not found."@
}

/// What a moderation command asks for.
pub enum TimeoutAction {
    Timeout { secs: u64 },
    Untimeout,
}

/// What the caller must do to the timeout store.
pub enum StoreAction {
    NoChange,
    /// Write `data` under `key` with a store-level expiry of
    /// `expiration_ttl` seconds.
    Put { key: String, data: TimeoutData, expiration_ttl: u64 },
    Delete { key: String },
}

/// What a moderation command decides, as a function of its inputs: nothing
/// for a non-moderator; a not-found reply for an unresolved login; a record
/// written with the clamped duration for `timeout`; for `untimeout` a
/// deletion when a record exists, else a reply that none does.
pub open spec fn timeout_post(
    action: TimeoutAction,
    target: Seq<char>,
    resolved: Option<String>,
    existing: Option<TimeoutData>,
    badges: Seq<String>,
    broadcaster: Seq<char>,
    now_ms: int,
    r: (StoreAction, Option<String>),
) -> bool {
    let chatter = replaced(target, "@"@, ""@);
    if !is_moderator_spec(badges) {
        r.0 is NoChange && r.1 is None
    } else {
        match resolved {
            None => r.0 is NoChange && (r.1 matches Some(m) && m@ == user_not_found_message(
                chatter,
            )),
            Some(user_id) => match action {
                TimeoutAction::Timeout { secs } => {
                    let eff = clamped_secs(secs as int);
                    &&& r.0 matches StoreAction::Put { key, data, expiration_ttl } && {
                        &&& key@ == timeout_key_spec(broadcaster, Some(user_id@))
                        &&& data.timestamp == now_ms
                        &&& data.secs == eff
                        &&& expiration_ttl == eff
                    }
                    &&& r.1 matches Some(m) && m@ == timed_out_message(chatter, eff)
                },
                TimeoutAction::Untimeout => {
                    if existing is Some {
                        &&& r.0 matches StoreAction::Delete { key } && key@ == timeout_key_spec(
                            broadcaster,
                            Some(user_id@),
                        )
                        &&& r.1 matches Some(m) && m@ == removed_message(chatter)
                    } else {
                        r.0 is NoChange && (r.1 matches Some(m) && m@ == not_timed_out_message(
                            chatter,
                        ))
                    }
                },
            },
        }
    }
}

/// Runs one moderation command. `resolved` is the user-lookup result for
/// the normalized target login; `existing` is the stored timeout record of
/// that user, read for `untimeout`.
pub fn timeout_impl(
    context: &Context<ChatPayload>,
    action: &TimeoutAction,
    target: &String,
    resolved: &Option<String>,
    existing: &Option<TimeoutData>,
    now_ms: i64,
) -> (r: (StoreAction, Option<String>))
    ensures
        timeout_post(
            *action,
            target@,
            *resolved,
            *existing,
            context.payload.badges@,
            context.payload.broadcaster_user_id@,
            now_ms as int,
            r,
        ),
{
    if !is_moderator(&context.payload.badges) {
        // A non-moderator's request is ignored without any reply.
        return (StoreAction::NoChange, None);
    }

    let chatter = strip_at(target.as_str());

    let user_id = match resolved {
        Some(id) => id,
        None => {
            let mut m = String::new();
            m.append("User ");
            m.append(chatter.as_str());
            m.append(" not found.");
            proof {
                assert(m@ =~= user_not_found_message(replaced(target@, "@"@, ""@)));
            }
            return (StoreAction::NoChange, Some(m));
        },
    };

    match action {
        TimeoutAction::Timeout { secs } => {
            let eff: u64 = if *secs < 60 {
                60
            } else {
                *secs
            };
            let key = timeout_key(&context.payload.broadcaster_user_id, Some(user_id));
            let mut m = String::new();
            m.append("Timed out ");
            m.append(chatter.as_str());
            m.append(" from !45's for ");
            m.append(u64_to_string(eff).as_str());
            m.append(" seconds.");
            proof {
                assert(m@ =~= timed_out_message(replaced(target@, "@"@, ""@), eff as int));
            }
            (
                StoreAction::Put {
                    key,
                    data: TimeoutData { timestamp: now_ms, secs: eff },
                    expiration_ttl: eff,
                },
                Some(m),
            )
        },
        TimeoutAction::Untimeout => {
            let key = timeout_key(&context.payload.broadcaster_user_id, Some(user_id));
            match existing {
                Some(_) => {
                    let mut m = String::new();
                    m.append("Removed !45 timeout for ");
                    m.append(chatter.as_str());
                    m.append(".");
                    proof {
                        assert(m@ =~= removed_message(replaced(target@, "@"@, ""@)));
                    }
                    (StoreAction::Delete { key }, Some(m))
                },
                None => {
                    let mut m = chatter;
                    m.append(" is not currently timed out.");
                    proof {
                        assert(m@ =~= not_timed_out_message(replaced(target@, "@"@, ""@)));
                    }
                    (StoreAction::NoChange, Some(m))
                },
            }
        },
    }
}

impl Timeout {
    /// Suppresses the target chatter's minigame participation for the
    /// requested duration, clamped to at least 60 seconds.
    pub fn call(
        &self,
        context: &Context<ChatPayload>,
        resolved: &Option<String>,
        now_ms: i64,
    ) -> (r: (StoreAction, Option<String>))
        ensures
            timeout_post(
                TimeoutAction::Timeout { secs: self.secs },
                self.chatter_user_login@,
                *resolved,
                None,
                context.payload.badges@,
                context.payload.broadcaster_user_id@,
                now_ms as int,
                r,
            ),
    {
        timeout_impl(
            context,
            &TimeoutAction::Timeout { secs: self.secs },
            &self.chatter_user_login,
            resolved,
            &None,
            now_ms,
        )
    }
}

impl Untimeout {
    /// Lifts the target chatter's suppression early, or reports that none
    /// is in force.
    pub fn call(
        &self,
        context: &Context<ChatPayload>,
        resolved: &Option<String>,
        existing: &Option<TimeoutData>,
        now_ms: i64,
    ) -> (r: (StoreAction, Option<String>))
        ensures
            timeout_post(
                TimeoutAction::Untimeout,
                self.chatter_user_login@,
                *resolved,
                *existing,
                context.payload.badges@,
                context.payload.broadcaster_user_id@,
                now_ms as int,
                r,
            ),
    {
        timeout_impl(
            context,
            &TimeoutAction::Untimeout,
            &self.chatter_user_login,
            resolved,
            existing,
            now_ms,
        )
    }
}

} // verus!
