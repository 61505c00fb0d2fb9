//! Leaderboard and personal-record queries. A query is always scoped to the
//! current epoch: once a perfect result occurs, earlier rows are never
//! reported again. Among equal differences the most recently timestamped
//! row wins.

use vstd::prelude::*;
use crate::commands::{ChatPayload, Context};
use crate::commands::forty_five::{perfect_count, current_epoch, Attempt};
use crate::text::{milli_rendered, milli_to_string, str_eq};

verus! {

/// `best`: the channel-wide best attempt of the current epoch.
pub struct Best {}

/// `pb [login]`: a chatter's personal best, the sender's own by default.
pub struct PersonalBest {
    pub chatter_user_name: Option<String>,
}

/// `worst`: the channel-wide worst attempt of the current epoch.
pub struct Worst {}

/// `pw [login]`: a chatter's personal worst, the sender's own by default.
pub struct PersonalWorst {
    pub chatter_user_name: Option<String>,
}

/// A row a query considers: in the current epoch, of this broadcaster, and
/// of the requested chatter if the query is personal.
pub open spec fn row_matches(
    a: Attempt,
    broadcaster: Seq<char>,
    cur_epoch: int,
    chatter: Option<Seq<char>>,
) -> bool {
    &&& a.epoch == cur_epoch
    &&& a.broadcaster_user_id@ == broadcaster
    &&& match chatter {
        Some(c) => a.chatter_user_id@ == c,
        None => true,
    }
}

/// `a` is reported rather than `b`: a strictly better difference (smaller,
/// or larger for `worst` queries), or an equal difference and a timestamp
/// at least as recent.
pub open spec fn beats(a: Attempt, b: Attempt, is_worst: bool) -> bool {
    if is_worst {
        a.difference_milli > b.difference_milli || (a.difference_milli == b.difference_milli
            && a.timestamp >= b.timestamp)
    } else {
        a.difference_milli < b.difference_milli || (a.difference_milli == b.difference_milli
            && a.timestamp >= b.timestamp)
    }
}

fn beats_exec(a: &Attempt, b: &Attempt, is_worst: bool) -> (r: bool)
    ensures
        r == beats(*a, *b, is_worst),
{
    if is_worst {
        a.difference_milli > b.difference_milli || (a.difference_milli == b.difference_milli
            && a.timestamp >= b.timestamp)
    } else {
        a.difference_milli < b.difference_milli || (a.difference_milli == b.difference_milli
            && a.timestamp >= b.timestamp)
    }
}

/// Selects the single reported row among those the query considers: the
/// extreme difference, ties broken by the most recent timestamp. Returns
/// its index, or `None` when no row matches.
pub fn select_record(
    attempts: &Vec<Attempt>,
    broadcaster: &str,
    cur_epoch: u64,
    is_worst: bool,
    chatter: &Option<String>,
) -> (r: Option<usize>)
    ensures
        r is Some <==> exists|j: int|
            0 <= j < attempts@.len() && row_matches(
                attempts@[j],
                broadcaster@,
                cur_epoch as int,
                match chatter {
                    Some(c) => Some(c@),
                    None => None,
                },
            ),
        r matches Some(i) ==> {
            let c = match chatter {
                Some(c) => Some(c@),
                None => None::<Seq<char>>,
            };
            &&& 0 <= i < attempts@.len()
            &&& row_matches(attempts@[i as int], broadcaster@, cur_epoch as int, c)
            &&& forall|j: int|
                0 <= j < attempts@.len() && row_matches(
                    #[trigger] attempts@[j],
                    broadcaster@,
                    cur_epoch as int,
                    c,
                ) ==> beats(attempts@[i as int], attempts@[j], is_worst)
        },
{
    let ghost c = match chatter {
        Some(c) => Some(c@),
        None => None::<Seq<char>>,
    };
    let n = attempts.len();
    let mut found: Option<usize> = None;
    let mut i: usize = 0;
    while i < n
        invariant
            n == attempts@.len(),
            i <= n,
            c == match chatter {
                Some(c) => Some(c@),
                None => None::<Seq<char>>,
            },
            found is Some <==> exists|j: int|
                0 <= j < i && row_matches(attempts@[j], broadcaster@, cur_epoch as int, c),
            found matches Some(b) ==> {
                &&& 0 <= b < i
                &&& row_matches(attempts@[b as int], broadcaster@, cur_epoch as int, c)
                &&& forall|j: int|
                    0 <= j < i && row_matches(
                        #[trigger] attempts@[j],
                        broadcaster@,
                        cur_epoch as int,
                        c,
                    ) ==> beats(attempts@[b as int], attempts@[j], is_worst)
            },
        decreases n - i,
    {
        let a = &attempts[i];
        let matches_row = a.epoch == cur_epoch
            && str_eq(a.broadcaster_user_id.as_str(), broadcaster)
            && match chatter {
                Some(cu) => str_eq(a.chatter_user_id.as_str(), cu.as_str()),
                None => true,
            };
        if matches_row {
            match found {
                None => {
                    found = Some(i);
                },
                Some(b) => {
                    if beats_exec(a, &attempts[b], is_worst) {
                        found = Some(i);
                    }
                },
            }
        }
        i += 1;
    }
    found
}

/// Once a perfect result has occurred, a row written in an earlier epoch is
/// never reported again: no row whose epoch is below the current perfect
/// count matches any query.
pub proof fn lemma_prior_epoch_never_reported(
    a: Attempt,
    broadcaster: Seq<char>,
    cur_epoch: int,
    chatter: Option<Seq<char>>,
)
    requires
        a.epoch < cur_epoch,
    ensures
        !row_matches(a, broadcaster, cur_epoch, chatter),
{
}

/// `User <login> not found.`
pub open spec fn not_found_message(login: Seq<char>) -> Seq<char> {
    "User "@ + login + " not found."@
}

/// The reply when the target played before, but every row of theirs belongs
/// to a wiped (pre-perfect) epoch.
pub open spec fn wiped_message(name: Seq<char>) -> Seq<char> {
    "User "@ + name
        + " has done a !45 in this channel, but a perfect 45 has been achieved and such the values has been wiped."@
}

/// The reply when the named target never played in this channel.
pub open spec fn never_played_message(login: Seq<char>) -> Seq<char> {
    "User "@ + login + " hasn't done a !45 in this channel."@
}

pub fn build_not_found_message(login: &str) -> (r: String)
    ensures
        r@ == not_found_message(login@),
{
    let mut m = String::new();
    m.append("User ");
    m.append(login);
    m.append(" not found.");
    proof {
        assert(m@ =~= not_found_message(login@));
    }
    m
}

fn build_wiped_message(name: &str) -> (r: String)
    ensures
        r@ == wiped_message(name@),
{
    let mut m = String::new();
    m.append("User ");
    m.append(name);
    m.append(
        " has done a !45 in this channel, but a perfect 45 has been achieved and such the values has been wiped.",
    );
    proof {
        assert(m@ =~= wiped_message(name@));
    }
    m
}

fn build_never_played_message(login: &str) -> (r: String)
    ensures
        r@ == never_played_message(login@),
{
    let mut m = String::new();
    m.append("User ");
    m.append(login);
    m.append(" hasn't done a !45 in this channel.");
    proof {
        assert(m@ =~= never_played_message(login@));
    }
    m
}

/// What a query decides before any display-name lookup: an immediate reply,
/// silence, or the row to report once its chatter's display name is known.
pub enum BestWorstStep {
    Reply(String),
    Silent,
    Lookup { chatter_user_id: String, value_milli: u64 },
}

/// Whether any attempt of `chatter` for `broadcaster` exists at all, in any
/// epoch; distinguishes "never played" from "wiped by an epoch rollover".
pub open spec fn has_history(s: Seq<Attempt>, broadcaster: Seq<char>, chatter: Seq<char>) -> bool {
    exists|j: int|
        0 <= j < s.len() && (#[trigger] s[j]).broadcaster_user_id@ == broadcaster
            && s[j].chatter_user_id@ == chatter
}

fn has_history_exec(attempts: &Vec<Attempt>, broadcaster: &str, chatter: &str) -> (r: bool)
    ensures
        r == has_history(attempts@, broadcaster@, chatter@),
{
    let n = attempts.len();
    let mut i: usize = 0;
    while i < n
        invariant
            n == attempts@.len(),
            i <= n,
            forall|j: int|
                0 <= j < i ==> !((#[trigger] attempts@[j]).broadcaster_user_id@ == broadcaster@
                    && attempts@[j].chatter_user_id@ == chatter@),
        decreases n - i,
    {
        let a = &attempts[i];
        if str_eq(a.broadcaster_user_id.as_str(), broadcaster) && str_eq(
            a.chatter_user_id.as_str(),
            chatter,
        ) {
            return true;
        }
        i += 1;
    }
    false
}

/// The prefix of a reported record: which query it answers.
pub open spec fn record_prefix(is_personal: bool, is_worst: bool) -> Seq<char> {
    if !is_personal {
        if !is_worst {
            "Current best"@
        } else {
            "Current worst"@
        }
    } else if !is_worst {
        "Personal best"@
    } else {
        "Personal worst"@
    }
}

/// `<prefix> 45 by <name>: <value>`, the value with three decimals.
pub open spec fn record_message(
    is_personal: bool,
    is_worst: bool,
    name: Seq<char>,
    value_milli: int,
) -> Seq<char> {
    record_prefix(is_personal, is_worst) + " 45 by "@ + name + ": "@ + milli_rendered(value_milli)
}

/// Builds the reply for a reported record once the chatter's display name
/// is known; a failed display-name lookup suppresses the reply entirely.
pub fn render_record(
    is_personal: bool,
    is_worst: bool,
    display_name: &Option<String>,
    value_milli: u64,
) -> (r: Option<String>)
    ensures
        match display_name {
            Some(n) => r matches Some(m) && m@ == record_message(
                is_personal,
                is_worst,
                n@,
                value_milli as int,
            ),
            None => r is None,
        },
{
    match display_name {
        Some(n) => {
            let mut m = String::new();
            if !is_personal {
                if !is_worst {
                    m.append("Current best");
                } else {
                    m.append("Current worst");
                }
            } else if !is_worst {
                m.append("Personal best");
            } else {
                m.append("Personal worst");
            }
            m.append(" 45 by ");
            m.append(n.as_str());
            m.append(": ");
            m.append(milli_to_string(value_milli).as_str());
            proof {
                assert(m@ =~= record_message(is_personal, is_worst, n@, value_milli as int));
            }
            Some(m)
        },
        None => None,
    }
}

/// Everything a query decides, as a function of its inputs: an unresolved
/// named login is reported not found; otherwise the selected row of the
/// current epoch is handed on for display-name lookup; with no matching row
/// the reply distinguishes a wiped history from one that never existed, and
/// a self-query with no history stays silent.
pub open spec fn best_worst_post(
    is_personal: bool,
    is_worst: bool,
    chatter_user_name: Option<String>,
    resolved: Option<(String, String)>,
    broadcaster: Seq<char>,
    sender_id: Seq<char>,
    sender_name: Seq<char>,
    attempts: Seq<Attempt>,
    r: BestWorstStep,
) -> bool {
    let cur = perfect_count(attempts, broadcaster);
    let target_id = match chatter_user_name {
        Some(_) => resolved->Some_0.0@,
        None => sender_id,
    };
    let target_name = match chatter_user_name {
        Some(_) => resolved->Some_0.1@,
        None => sender_name,
    };
    let filt = if is_personal {
        Some(target_id)
    } else {
        None::<Seq<char>>
    };
    if chatter_user_name is Some && resolved is None {
        r matches BestWorstStep::Reply(m) && m@ == not_found_message(chatter_user_name->Some_0@)
    } else if exists|j: int|
        0 <= j < attempts.len() && row_matches(#[trigger] attempts[j], broadcaster, cur, filt) {
        r matches BestWorstStep::Lookup { chatter_user_id, value_milli } && exists|i: int|
            {
                &&& 0 <= i < attempts.len()
                &&& row_matches(#[trigger] attempts[i], broadcaster, cur, filt)
                &&& forall|j: int|
                    0 <= j < attempts.len() && row_matches(
                        #[trigger] attempts[j],
                        broadcaster,
                        cur,
                        filt,
                    ) ==> beats(attempts[i], attempts[j], is_worst)
                &&& chatter_user_id@ == attempts[i].chatter_user_id@
                &&& value_milli == attempts[i].value_milli
            }
    } else if has_history(attempts, broadcaster, target_id) {
        r matches BestWorstStep::Reply(m) && m@ == wiped_message(target_name)
    } else {
        match chatter_user_name {
            Some(login) => r matches BestWorstStep::Reply(m) && m@ == never_played_message(
                login@,
            ),
            None => r is Silent,
        }
    }
}

/// Runs one leaderboard or personal-record query up to the point where a
/// display name is needed. `resolved` is the user-lookup result for the
/// normalized `chatter_user_name` and is only read when a login was named.
pub fn best_worst_impl(
    is_personal: bool,
    is_worst: bool,
    chatter_user_name: &Option<String>,
    resolved: &Option<(String, String)>,
    context: &Context<ChatPayload>,
    attempts: &Vec<Attempt>,
) -> (r: BestWorstStep)
    ensures
        best_worst_post(
            is_personal,
            is_worst,
            *chatter_user_name,
            *resolved,
            context.payload.broadcaster_user_id@,
            context.payload.chatter_user_id@,
            context.payload.chatter_user_name@,
            attempts@,
            r,
        ),
{
    let (target_id, target_name): (&String, &String) = match chatter_user_name {
        Some(login) => {
            match resolved {
                Some(user) => (&user.0, &user.1),
                None => {
                    return BestWorstStep::Reply(build_not_found_message(login.as_str()));
                },
            }
        },
        None => (&context.payload.chatter_user_id, &context.payload.chatter_user_name),
    };

    let cur = current_epoch(attempts, context.payload.broadcaster_user_id.as_str());
    let filt: Option<String> = if is_personal {
        Some(target_id.clone())
    } else {
        None
    };

    match select_record(attempts, context.payload.broadcaster_user_id.as_str(), cur, is_worst, &filt) {
        Some(i) => {
            let a = &attempts[i];
            BestWorstStep::Lookup {
                chatter_user_id: a.chatter_user_id.clone(),
                value_milli: a.value_milli,
            }
        },
        None => {
            if has_history_exec(
                attempts,
                context.payload.broadcaster_user_id.as_str(),
                target_id.as_str(),
            ) {
                BestWorstStep::Reply(build_wiped_message(target_name.as_str()))
            } else {
                match chatter_user_name {
                    Some(login) => BestWorstStep::Reply(
                        build_never_played_message(login.as_str()),
                    ),
                    None => BestWorstStep::Silent,
                }
            }
        },
    }
}

impl Best {
    /// The channel-wide best of the current epoch.
    pub fn call(
        &self,
        context: &Context<ChatPayload>,
        attempts: &Vec<Attempt>,
    ) -> (r: BestWorstStep)
        ensures
            best_worst_post(
                false,
                false,
                None,
                None,
                context.payload.broadcaster_user_id@,
                context.payload.chatter_user_id@,
                context.payload.chatter_user_name@,
                attempts@,
                r,
            ),
    {
        best_worst_impl(false, false, &None, &None, context, attempts)
    }
}

impl Worst {
    /// The channel-wide worst of the current epoch.
    pub fn call(
        &self,
        context: &Context<ChatPayload>,
        attempts: &Vec<Attempt>,
    ) -> (r: BestWorstStep)
        ensures
            best_worst_post(
                false,
                true,
                None,
                None,
                context.payload.broadcaster_user_id@,
                context.payload.chatter_user_id@,
                context.payload.chatter_user_name@,
                attempts@,
                r,
            ),
    {
        best_worst_impl(false, true, &None, &None, context, attempts)
    }
}

impl PersonalBest {
    /// The personal best of the named chatter, or of the sender.
    pub fn call(
        &self,
        context: &Context<ChatPayload>,
        resolved: &Option<(String, String)>,
        attempts: &Vec<Attempt>,
    ) -> (r: BestWorstStep)
        ensures
            best_worst_post(
                true,
                false,
                self.chatter_user_name,
                *resolved,
                context.payload.broadcaster_user_id@,
                context.payload.chatter_user_id@,
                context.payload.chatter_user_name@,
                attempts@,
                r,
            ),
    {
        best_worst_impl(true, false, &self.chatter_user_name, resolved, context, attempts)
    }
}

impl PersonalWorst {
    /// The personal worst of the named chatter, or of the sender.
    pub fn call(
        &self,
        context: &Context<ChatPayload>,
        resolved: &Option<(String, String)>,
        attempts: &Vec<Attempt>,
    ) -> (r: BestWorstStep)
        ensures
            best_worst_post(
                true,
                true,
                self.chatter_user_name,
                *resolved,
                context.payload.broadcaster_user_id@,
                context.payload.chatter_user_id@,
                context.payload.chatter_user_name@,
                attempts@,
                r,
            ),
    {
        best_worst_impl(true, true, &self.chatter_user_name, resolved, context, attempts)
    }
}

} // verus!
