//! The minigame itself: drawing an attempt, computing its epoch from the
//! attempt history, and building the chat reply.

use vstd::prelude::*;
use crate::commands::{ChatPayload, Context};
use crate::text::{milli_rendered, milli_to_string, replace_all, replaced, str_eq};

pub mod best_worst;
pub mod hof;
pub mod timeouts;

verus! {

/// One minigame play, as it is stored in the attempt table. Rows are
/// immutable once written. Values and differences are counted in
/// thousandths, so that every representable result is exact.
pub struct Attempt {
    /// Count of perfect attempts for this broadcaster that preceded this
    /// row; computed at insert time, never supplied by a caller.
    pub epoch: u64,
    pub broadcaster_user_id: String,
    pub chatter_user_id: String,
    /// The generated value, in thousandths (`45.000` is `45000`).
    pub value_milli: u64,
    /// Distance from the target, in thousandths.
    pub difference_milli: u64,
    /// Milliseconds since the Unix epoch.
    pub timestamp: i64,
}

/// A perfect attempt: zero distance from the target.
pub open spec fn is_perfect(a: Attempt) -> bool {
    a.difference_milli == 0
}

/// How many attempts in `s` are perfect results for broadcaster `b`. The
/// next attempt inserted for `b` carries this number as its epoch.
pub open spec fn perfect_count(s: Seq<Attempt>, b: Seq<char>) -> int
    decreases s.len(),
{
    if s.len() == 0 {
        0
    } else {
        perfect_count(s.drop_last(), b) + if s.last().broadcaster_user_id@ == b
            && is_perfect(s.last()) {
            1int
        } else {
            0int
        }
    }
}

pub proof fn lemma_perfect_count_bounds(s: Seq<Attempt>, b: Seq<char>)
    ensures
        0 <= perfect_count(s, b) <= s.len(),
    decreases s.len(),
{
    if s.len() > 0 {
        lemma_perfect_count_bounds(s.drop_last(), b);
    }
}

/// The epoch counter never decreases as the attempt history grows: the
/// epoch computed over a history extended by any further rows is at least
/// the epoch computed over the original history.
pub proof fn lemma_perfect_count_monotone(s: Seq<Attempt>, t: Seq<Attempt>, b: Seq<char>)
    ensures
        perfect_count(s, b) <= perfect_count(s + t, b),
    decreases t.len(),
{
    if t.len() == 0 {
        assert(s + t =~= s);
    } else {
        lemma_perfect_count_monotone(s, t.drop_last(), b);
        assert((s + t).drop_last() =~= s + t.drop_last());
        assert((s + t).last() == t.last());
    }
}

/// Counts the perfect attempts for `broadcaster` in `attempts`: the epoch
/// the next inserted attempt carries.
pub fn current_epoch(attempts: &Vec<Attempt>, broadcaster: &str) -> (r: u64)
    ensures
        r == perfect_count(attempts@, broadcaster@),
{
    let n = attempts.len();
    let mut count: u64 = 0;
    let mut i: usize = 0;
    proof {
        assert(attempts@.take(0) =~= Seq::<Attempt>::empty());
    }
    while i < n
        invariant
            n == attempts@.len(),
            i <= n,
            count == perfect_count(attempts@.take(i as int), broadcaster@),
        decreases n - i,
    {
        proof {
            lemma_perfect_count_bounds(attempts@.take(i as int), broadcaster@);
            assert(attempts@.take(i + 1).drop_last() =~= attempts@.take(i as int));
            assert(attempts@.take(i + 1).last() == attempts@[i as int]);
        }
        let a = &attempts[i];
        if a.difference_milli == 0 && str_eq(a.broadcaster_user_id.as_str(), broadcaster) {
            count += 1;
        }
        i += 1;
    }
    proof {
        assert(attempts@.take(n as int) =~= attempts@);
    }
    count
}

/// The distance of a generated value (in thousandths) from the target. The
/// upper-half branch compares against `45005`, one step above the target,
/// exactly as the stored leaderboard semantics have it.
pub open spec fn difference_of(value_milli: int) -> int {
    if value_milli >= 45005 {
        value_milli - 45000
    } else {
        45000 - value_milli
    }
}

/// The placeholder a broadcaster's perfect-result message may carry.
pub open spec fn placeholder() -> Seq<char> {
    "{{ chatter_user_name }}"@
}

/// The perfect-result message used when a broadcaster has not set one.
pub open spec fn default_perfect_message() -> Seq<char> {
    "{{ chatter_user_name }} has achieved perfect 45!"@
}

/// The reply to a generated attempt: the custom or default perfect-result
/// message (placeholder replaced by the chatter's display name) when the
/// value hits the target exactly, otherwise `<name>, <value>`.
pub open spec fn gen_message(
    value_milli: int,
    template: Option<Seq<char>>,
    chatter_name: Seq<char>,
) -> Seq<char> {
    if value_milli == 45000 {
        replaced(
            match template {
                Some(t) => t,
                None => default_perfect_message(),
            },
            placeholder(),
            chatter_name,
        )
    } else {
        chatter_name + ", "@ + milli_rendered(value_milli)
    }
}

/// The template a configuration holds, viewed as a sequence of characters.
pub open spec fn template_view(t: Option<String>) -> Option<Seq<char>> {
    match t {
        Some(s) => Some(s@),
        None => None,
    }
}

/// The `gen` subcommand (also the default when none is given).
pub struct Generate {}

/// Relies on `rand::random_range`: returns a uniformly random value within
/// the given (non-empty) range.
#[verifier::external_body]
fn draw_raw() -> (r: u32)
    ensures
        r <= 18000,
{
    rand::random_range(0u32..=18000u32)
}

/// Builds the attempt and the reply for one draw `raw` (in units of five
/// thousandths, so `raw == 9000` is the perfect result `45.000`).
pub fn generate_with_draw(
    context: &Context<ChatPayload>,
    raw: u32,
    now_ms: i64,
    attempts: &Vec<Attempt>,
) -> (r: (String, Attempt))
    requires
        raw <= 18000,
    ensures
        r.1.value_milli == raw * 5,
        r.1.value_milli == 45000 <==> raw == 9000,
        r.1.difference_milli == difference_of(r.1.value_milli as int),
        r.1.epoch == perfect_count(attempts@, context.payload.broadcaster_user_id@),
        r.1.broadcaster_user_id@ == context.payload.broadcaster_user_id@,
        r.1.chatter_user_id@ == context.payload.chatter_user_id@,
        r.1.timestamp == now_ms,
        r.0@ == gen_message(
            r.1.value_milli as int,
            template_view(context.config.forty_five.perfect_45_message),
            context.payload.chatter_user_name@,
        ),
{
    let value_milli: u64 = (raw as u64) * 5;
    let difference_milli: u64 = if value_milli >= 45005 {
        value_milli - 45000
    } else {
        45000 - value_milli
    };

    let message: String = if raw == 9000 {
        let template: &str = match &context.config.forty_five.perfect_45_message {
            Some(m) => m.as_str(),
            None => "{{ chatter_user_name }} has achieved perfect 45!",
        };
        proof {
            reveal_strlit("{{ chatter_user_name }}");
        }
        replace_all(template, "{{ chatter_user_name }}", context.payload.chatter_user_name.as_str())
    } else {
        let mut m = context.payload.chatter_user_name.clone();
        m.append(", ");
        m.append(milli_to_string(value_milli).as_str());
        m
    };

    let attempt = Attempt {
        epoch: current_epoch(attempts, context.payload.broadcaster_user_id.as_str()),
        broadcaster_user_id: context.payload.broadcaster_user_id.clone(),
        chatter_user_id: context.payload.chatter_user_id.clone(),
        value_milli,
        difference_milli,
        timestamp: now_ms,
    };
    (message, attempt)
}

impl Generate {
    /// Runs the `gen` command: nothing happens while the chatter is timed
    /// out; otherwise an attempt is drawn and returned together with the
    /// reply, for the caller to insert and send.
    pub fn call(
        &self,
        context: &Context<ChatPayload>,
        chatter_timeout: &Option<timeouts::TimeoutData>,
        now_ms: i64,
        attempts: &Vec<Attempt>,
    ) -> (r: Option<(String, Attempt)>)
        ensures
            r is Some <==> !timeouts::timeout_active(*chatter_timeout, now_ms as int),
            r matches Some(p) ==> {
                &&& p.1.value_milli <= 90000
                &&& p.1.value_milli % 5 == 0
                &&& p.1.difference_milli == difference_of(p.1.value_milli as int)
                &&& p.1.epoch == perfect_count(attempts@, context.payload.broadcaster_user_id@)
                &&& p.1.broadcaster_user_id@ == context.payload.broadcaster_user_id@
                &&& p.1.chatter_user_id@ == context.payload.chatter_user_id@
                &&& p.1.timestamp == now_ms
                &&& p.0@ == gen_message(
                    p.1.value_milli as int,
                    template_view(context.config.forty_five.perfect_45_message),
                    context.payload.chatter_user_name@,
                )
            },
    {
        if timeouts::is_timeout_active(chatter_timeout, now_ms) {
            // The chatter is timed out, so no attempt is generated.
            return None;
        }
        let raw = draw_raw();
        Some(generate_with_draw(context, raw, now_ms, attempts))
    }
}

/// The minigame's command surface.
pub struct FortyFiveBot {
    pub sub: Option<Subcommands>,
}

/// The subcommands of the minigame; all but the moderation pair are open to
/// any chatter.
pub enum Subcommands {
    Gen(Generate),
    Best(best_worst::Best),
    Worst(best_worst::Worst),
    Pb(best_worst::PersonalBest),
    Pw(best_worst::PersonalWorst),
    Hof(hof::HallOfFame),
    Timeout(timeouts::Timeout),
    Untimeout(timeouts::Untimeout),
}

impl Default for Subcommands {
    /// A bare invocation means `gen`.
    fn default() -> (r: Self)
        ensures
            r is Gen,
    {
        Subcommands::Gen(Generate {})
    }
}

} // verus!
