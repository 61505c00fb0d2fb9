//! The hall of fame: who achieved the most recent perfect result, overall
//! or in one given epoch.

use vstd::prelude::*;
use crate::commands::{ChatPayload, Context};
use crate::commands::forty_five::Attempt;
use crate::text::{dec_digits, str_eq, u64_to_string};

verus! {

/// `hof [epoch]`: report the latest perfect result, or the one of a given
/// epoch.
pub struct HallOfFame {
    pub epoch: Option<usize>,
}

/// A row the hall of fame considers: a perfect value of this broadcaster,
/// in the requested epoch if one was given.
pub open spec fn hof_matches(a: Attempt, broadcaster: Seq<char>, epoch: Option<int>) -> bool {
    &&& a.value_milli == 45000
    &&& a.broadcaster_user_id@ == broadcaster
    &&& match epoch {
        Some(e) => a.epoch == e,
        None => true,
    }
}

/// `Perfect 45.000 #<epoch> by: <name>`
pub open spec fn hof_epoch_message(epoch: int, name: Seq<char>) -> Seq<char> {
    "Perfect 45.000 #"@ + dec_digits(epoch) + " by: "@ + name
}

/// `Latest perfect 45.000 by: <name>`
pub open spec fn hof_latest_message(name: Seq<char>) -> Seq<char> {
    "Latest perfect 45.000 by: "@ + name
}

/// `No perfect 45.000's found with epoch of <epoch>`
pub open spec fn hof_none_for_epoch_message(epoch: int) -> Seq<char> {
    "No perfect 45.000's found with epoch of "@ + dec_digits(epoch)
}

/// `No perfect 45.000's in this channel.`
pub open spec fn hof_none_message() -> Seq<char> {
    "No perfect 45.000's in this channel."@
}

/// What the hall of fame decides before any display-name lookup.
pub enum HofStep {
    Reply(String),
    Lookup { chatter_user_id: String },
}

/// What the query decides, as a function of its inputs: the reported row is
/// a perfect one of the most recent matching epoch; with no matching row
/// the reply names the requested epoch, or the channel.
pub open spec fn hof_post(
    epoch: Option<usize>,
    broadcaster: Seq<char>,
    attempts: Seq<Attempt>,
    r: HofStep,
) -> bool {
    let filt = match epoch {
        Some(e) => Some(e as int),
        None => None::<int>,
    };
    if exists|j: int| 0 <= j < attempts.len() && hof_matches(#[trigger] attempts[j], broadcaster, filt) {
        r matches HofStep::Lookup { chatter_user_id } && exists|i: int|
            {
                &&& 0 <= i < attempts.len()
                &&& hof_matches(#[trigger] attempts[i], broadcaster, filt)
                &&& forall|j: int|
                    0 <= j < attempts.len() && hof_matches(
                        #[trigger] attempts[j],
                        broadcaster,
                        filt,
                    ) ==> attempts[i].epoch >= attempts[j].epoch
                &&& chatter_user_id@ == attempts[i].chatter_user_id@
            }
    } else {
        match epoch {
            Some(e) => r matches HofStep::Reply(m) && m@ == hof_none_for_epoch_message(e as int),
            None => r matches HofStep::Reply(m) && m@ == hof_none_message(),
        }
    }
}

impl HallOfFame {
    /// Finds the most recent perfect attempt, optionally within one epoch,
    /// and hands its chatter on for display-name lookup; otherwise reports
    /// that none was found.
    pub fn call(&self, context: &Context<ChatPayload>, attempts: &Vec<Attempt>) -> (r: HofStep)
        ensures
            hof_post(self.epoch, context.payload.broadcaster_user_id@, attempts@, r),
    {
        let ghost filt = match self.epoch {
            Some(e) => Some(e as int),
            None => None::<int>,
        };
        let broadcaster = context.payload.broadcaster_user_id.as_str();
        let n = attempts.len();
        let mut found: Option<usize> = None;
        let mut i: usize = 0;
        while i < n
            invariant
                n == attempts@.len(),
                i <= n,
                filt == match self.epoch {
                    Some(e) => Some(e as int),
                    None => None::<int>,
                },
                broadcaster@ == context.payload.broadcaster_user_id@,
                found is Some <==> exists|j: int|
                    0 <= j < i && hof_matches(attempts@[j], broadcaster@, filt),
                found matches Some(b) ==> {
                    &&& 0 <= b < i
                    &&& hof_matches(attempts@[b as int], broadcaster@, filt)
                    &&& forall|j: int|
                        0 <= j < i && hof_matches(#[trigger] attempts@[j], broadcaster@, filt)
                            ==> attempts@[b as int].epoch >= attempts@[j].epoch
                },
            decreases n - i,
        {
            let a = &attempts[i];
            let matches_row = a.value_milli == 45000
                && str_eq(a.broadcaster_user_id.as_str(), broadcaster)
                && match &self.epoch {
                    Some(e) => a.epoch == (*e as u64),
                    None => true,
                };
            if matches_row {
                match found {
                    None => {
                        found = Some(i);
                    },
                    Some(b) => {
                        if a.epoch >= attempts[b].epoch {
                            found = Some(i);
                        }
                    },
                }
            }
            i += 1;
        }
        match found {
            Some(i) => HofStep::Lookup { chatter_user_id: attempts[i].chatter_user_id.clone() },
            None => {
                match &self.epoch {
                    Some(e) => {
                        let mut m = String::new();
                        m.append("No perfect 45.000's found with epoch of ");
                        m.append(u64_to_string(*e as u64).as_str());
                        proof {
                            assert(m@ =~= hof_none_for_epoch_message(*e as int));
                        }
                        HofStep::Reply(m)
                    },
                    None => {
                        HofStep::Reply(String::from_str("No perfect 45.000's in this channel."))
                    },
                }
            },
        }
    }
}

/// Builds the hall-of-fame reply once the display name is known; a failed
/// lookup suppresses the reply.
pub fn render_hof(epoch: &Option<usize>, display_name: &Option<String>) -> (r: Option<String>)
    ensures
        match display_name {
            Some(n) => r matches Some(m) && m@ == match epoch {
                Some(e) => hof_epoch_message(*e as int, n@),
                None => hof_latest_message(n@),
            },
            None => r is None,
        },
{
    match display_name {
        Some(n) => {
            let mut m = String::new();
            match epoch {
                Some(e) => {
                    m.append("Perfect 45.000 #");
                    m.append(u64_to_string(*e as u64).as_str());
                    m.append(" by: ");
                    m.append(n.as_str());
                    proof {
                        assert(m@ =~= hof_epoch_message(*e as int, n@));
                    }
                },
                None => {
                    m.append("Latest perfect 45.000 by: ");
                    m.append(n.as_str());
                    proof {
                        assert(m@ =~= hof_latest_message(n@));
                    }
                },
            }
            Some(m)
        },
        None => None,
    }
}

} // verus!
