//! The command router: tokenizing a chat message, gating it (prefix, the
//! bot's own messages, mirrored shared chats), and parsing the fixed command
//! grammar into one of the minigame's subcommands.

use vstd::prelude::*;
use crate::config::CommandConfig;
use crate::text::str_eq;

pub mod forty_five;

verus! {

/// The parts of an inbound chat-message event that the command logic reads.
pub struct ChatPayload {
    pub broadcaster_user_id: String,
    pub chatter_user_id: String,
    pub chatter_user_name: String,
    /// Present when the message was mirrored from a shared chat; the bot
    /// only acts in its canonical channel.
    pub source_broadcaster_user_id: Option<String>,
    pub message_text: String,
    /// The set identifiers of the badges the sender holds.
    pub badges: Vec<String>,
}

/// Everything a command handler gets for one invocation.
pub struct Context<T> {
    pub payload: T,
    pub config: CommandConfig,
}

/// A fully parsed command line.
pub struct Root {
    pub sub: Subcommands,
}

/// The top-level commands the bot answers to.
pub enum Subcommands {
    FortyFive(forty_five::FortyFiveBot),
}

/// The Unicode white-space characters, the set `str::split_whitespace`
/// splits on.
pub open spec fn is_space_char(c: char) -> bool {
    ||| c == ' '
    ||| c == '\t'
    ||| c == '\n'
    ||| c == '\u{b}'
    ||| c == '\u{c}'
    ||| c == '\r'
    ||| c == '\u{85}'
    ||| c == '\u{a0}'
    ||| c == '\u{1680}'
    ||| c == '\u{2000}'
    ||| c == '\u{2001}'
    ||| c == '\u{2002}'
    ||| c == '\u{2003}'
    ||| c == '\u{2004}'
    ||| c == '\u{2005}'
    ||| c == '\u{2006}'
    ||| c == '\u{2007}'
    ||| c == '\u{2008}'
    ||| c == '\u{2009}'
    ||| c == '\u{200a}'
    ||| c == '\u{2028}'
    ||| c == '\u{2029}'
    ||| c == '\u{202f}'
    ||| c == '\u{205f}'
    ||| c == '\u{3000}'
}

fn is_space(c: char) -> (r: bool)
    ensures
        r == is_space_char(c),
{
    c == ' ' || c == '\t' || c == '\n' || c == '\u{b}' || c == '\u{c}' || c == '\r'
        || c == '\u{85}' || c == '\u{a0}' || c == '\u{1680}' || c == '\u{2000}' || c == '\u{2001}'
        || c == '\u{2002}' || c == '\u{2003}' || c == '\u{2004}' || c == '\u{2005}'
        || c == '\u{2006}' || c == '\u{2007}' || c == '\u{2008}' || c == '\u{2009}'
        || c == '\u{200a}' || c == '\u{2028}' || c == '\u{2029}' || c == '\u{202f}'
        || c == '\u{205f}' || c == '\u{3000}'
}

/// The invalid-encoding artifact a third-party chat overlay tool is known
/// to inject; such a token is discarded.
pub open spec fn artifact_token() -> Seq<char> {
    "\u{e0000}"@
}

/// The length of the leading run of non-space characters.
pub open spec fn token_end(s: Seq<char>) -> nat
    decreases s.len(),
{
    if s.len() == 0 || is_space_char(s[0]) {
        0
    } else {
        1 + token_end(s.skip(1))
    }
}

proof fn lemma_token_end(s: Seq<char>)
    ensures
        token_end(s) <= s.len(),
        forall|k: int| 0 <= k < token_end(s) ==> !is_space_char(#[trigger] s[k]),
        token_end(s) < s.len() ==> is_space_char(s[token_end(s) as int]),
    decreases s.len(),
{
    if s.len() > 0 && !is_space_char(s[0]) {
        lemma_token_end(s.skip(1));
        assert forall|k: int| 0 <= k < token_end(s) implies !is_space_char(#[trigger] s[k]) by {
            if k > 0 {
                assert(s[k] == s.skip(1)[k - 1]);
            }
        }
        if token_end(s) < s.len() {
            assert(s[token_end(s) as int] == s.skip(1)[token_end(s) - 1]);
        }
    }
}

/// A run of non-space characters ended by a space or the end of the string
/// is exactly the leading token.
proof fn lemma_token_end_of_run(s: Seq<char>, j: int)
    requires
        0 <= j <= s.len(),
        forall|k: int| 0 <= k < j ==> !is_space_char(#[trigger] s[k]),
        j == s.len() || is_space_char(s[j]),
    ensures
        token_end(s) == j,
    decreases j,
{
    if j == 0 {
    } else {
        assert(!is_space_char(s[0]));
        lemma_token_end_of_run(s.skip(1), j - 1);
    }
}

/// The tokens of a chat message: maximal runs of non-space characters, with
/// every artifact token discarded.
pub open spec fn message_tokens(s: Seq<char>) -> Seq<Seq<char>>
    decreases s.len(),
    via message_tokens_decreases
{
    if s.len() == 0 {
        Seq::empty()
    } else if is_space_char(s[0]) {
        message_tokens(s.skip(1))
    } else {
        let k = 1 + token_end(s.skip(1)) as int;
        let t = s.take(k);
        let rest = message_tokens(s.skip(k));
        if t == artifact_token() {
            rest
        } else {
            seq![t] + rest
        }
    }
}

#[via_fn]
proof fn message_tokens_decreases(s: Seq<char>) {
    if s.len() > 0 && !is_space_char(s[0]) {
        lemma_token_end(s.skip(1));
    }
}

/// Splits a chat message on white space, discarding artifact tokens.
pub fn tokenize(text: &str) -> (r: Vec<String>)
    ensures
        r@.map_values(|t: String| t@) == message_tokens(text@),
{
    let n = text.unicode_len();
    let mut toks: Vec<String> = Vec::new();
    let mut i: usize = 0;
    proof {
        assert(text@.skip(0) =~= text@);
        assert(toks@.map_values(|t: String| t@) + message_tokens(text@) =~= message_tokens(
            text@,
        ));
    }
    while i < n
        invariant
            n == text@.len(),
            i <= n,
            toks@.map_values(|t: String| t@) + message_tokens(text@.skip(i as int))
                == message_tokens(text@),
        decreases n - i,
    {
        let ghost rest = text@.skip(i as int);
        let ghost toks0 = toks@;
        let c = text.get_char(i);
        if is_space(c) {
            proof {
                assert(rest.skip(1) =~= text@.skip(i + 1));
            }
            i += 1;
        } else {
            let mut j: usize = i + 1;
            while j < n && !is_space(text.get_char(j))
                invariant
                    n == text@.len(),
                    i < j <= n,
                    forall|k: int| i <= k < j ==> !is_space_char(#[trigger] text@[k]),
                decreases n - j,
            {
                j += 1;
            }
            proof {
                assert(forall|k: int| 0 <= k < j - i ==> !is_space_char(#[trigger] rest[k]));
                if j < n {
                    assert(is_space_char(rest[j - i]));
                }
                lemma_token_end_of_run(rest, j - i);
                assert(rest.skip(j - i) =~= text@.skip(j as int));
            }
            let tok = text.substring_char(i, j);
            proof {
                assert(tok@ =~= rest.take(j - i));
            }
            if str_eq(tok, "\u{e0000}") {
                proof {
                    reveal_strlit("\u{e0000}");
                    assert(tok@ == artifact_token());
                }
            } else {
                proof {
                    reveal_strlit("\u{e0000}");
                    assert(tok@ != artifact_token());
                }
                let owned = String::from_str(tok);
                toks.push(owned);
                proof {
                    assert(toks@.map_values(|t: String| t@) =~= toks0.map_values(|t: String| t@)
                        + seq![tok@]);
                    assert(toks0.map_values(|t: String| t@) + (seq![tok@] + message_tokens(
                        text@.skip(j as int),
                    )) =~= toks@.map_values(|t: String| t@) + message_tokens(text@.skip(j as int)));
                }
            }
            i = j;
        }
    }
    proof {
        assert(text@.skip(n as int) =~= Seq::<char>::empty());
        assert(toks@.map_values(|t: String| t@) + message_tokens(Seq::<char>::empty())
            =~= toks@.map_values(|t: String| t@));
    }
    toks
}

/// A token usable as a positional argument: not an (unknown) option flag.
pub open spec fn arg_ok(t: Seq<char>) -> bool {
    !(t.len() > 0 && t[0] == '-')
}

fn arg_ok_exec(t: &String) -> (r: bool)
    ensures
        r == arg_ok(t@),
{
    !(t.unicode_len() > 0 && t.as_str().get_char(0) == '-')
}

/// Whether a token list fits the command grammar:
/// `!45 [gen|best|worst|pb [login]|pw [login]|hof [epoch]|timeout <login> [secs]|untimeout <login>]`.
pub open spec fn grammar_ok(t: Seq<Seq<char>>) -> bool {
    t.len() >= 1 && t[0] == "!45"@ && (t.len() == 1 || {
        ||| (t[1] == "gen"@ && t.len() == 2)
        ||| (t[1] == "best"@ && t.len() == 2)
        ||| (t[1] == "worst"@ && t.len() == 2)
        ||| (t[1] == "pb"@ && (t.len() == 2 || (t.len() == 3 && arg_ok(t[2]))))
        ||| (t[1] == "pw"@ && (t.len() == 2 || (t.len() == 3 && arg_ok(t[2]))))
        ||| (t[1] == "hof"@ && (t.len() == 2 || (t.len() == 3 && arg_ok(t[2])
            && crate::text::unsigned_literal_shape(t[2]) && crate::text::unsigned_literal_value(
            t[2],
        ) <= usize::MAX)))
        ||| (t[1] == "timeout"@ && arg_ok(t[2]) && (t.len() == 3 || (t.len() == 4 && arg_ok(t[3])
            && crate::text::unsigned_literal_shape(t[3]) && crate::text::unsigned_literal_value(
            t[3],
        ) <= u64::MAX)))
        ||| (t[1] == "untimeout"@ && t.len() == 3 && arg_ok(t[2]))
    })
}

/// Whether a parsed command is the one the token list spells.
pub open spec fn parsed_cmd(t: Seq<Seq<char>>, root: Root) -> bool {
    match root.sub {
        Subcommands::FortyFive(ff) => {
            if t.len() == 1 {
                ff.sub is None
            } else {
                match ff.sub {
                    None => false,
                    Some(sub) => match sub {
                        forty_five::Subcommands::Gen(_) => t[1] == "gen"@ && t.len() == 2,
                        forty_five::Subcommands::Best(_) => t[1] == "best"@ && t.len() == 2,
                        forty_five::Subcommands::Worst(_) => t[1] == "worst"@ && t.len() == 2,
                        forty_five::Subcommands::Pb(pb) => t[1] == "pb"@ && match pb
                            .chatter_user_name {
                            None => t.len() == 2,
                            Some(l) => t.len() == 3 && l@ == t[2],
                        },
                        forty_five::Subcommands::Pw(pw) => t[1] == "pw"@ && match pw
                            .chatter_user_name {
                            None => t.len() == 2,
                            Some(l) => t.len() == 3 && l@ == t[2],
                        },
                        forty_five::Subcommands::Hof(h) => t[1] == "hof"@ && match h.epoch {
                            None => t.len() == 2,
                            Some(e) => t.len() == 3 && e == crate::text::unsigned_literal_value(
                                t[2],
                            ),
                        },
                        forty_five::Subcommands::Timeout(to) => t[1] == "timeout"@ && to
                            .chatter_user_login@ == t[2] && (if t.len() == 3 {
                            to.secs == 300
                        } else {
                            t.len() == 4 && to.secs == crate::text::unsigned_literal_value(t[3])
                        }),
                        forty_five::Subcommands::Untimeout(ut) => t[1] == "untimeout"@ && t.len()
                            == 3 && ut.chatter_user_login@ == t[2],
                    },
                }
            }
        },
    }
}

/// The silent rejections that precede grammar parsing: an empty message, a
/// first token without the command prefix, the bot's own messages, and
/// messages mirrored from another channel's shared chat.
pub open spec fn router_rejects(
    text: Seq<char>,
    chatter_user_id: Seq<char>,
    broadcaster_user_id: Seq<char>,
    source_broadcaster_user_id: Option<String>,
) -> bool {
    let toks = message_tokens(text);
    ||| toks.len() == 0
    ||| toks[0].len() == 0
    ||| toks[0][0] != '!'
    ||| chatter_user_id == crate::config::BOT_USER_ID@
    ||| (source_broadcaster_user_id matches Some(src) && src@ != broadcaster_user_id)
}

/// Tokenizes a chat message, applies the silent rejections, and parses the
/// command grammar; any parse failure is a silent `None`.
pub fn parse(payload: &ChatPayload) -> (r: Option<Root>)
    ensures
        r is Some <==> !router_rejects(
            payload.message_text@,
            payload.chatter_user_id@,
            payload.broadcaster_user_id@,
            payload.source_broadcaster_user_id,
        ) && grammar_ok(message_tokens(payload.message_text@)),
        r matches Some(root) ==> parsed_cmd(message_tokens(payload.message_text@), root),
{
    let toks = tokenize(payload.message_text.as_str());
    let ghost t = message_tokens(payload.message_text@);
    proof {
        reveal_strlit("!45");
        reveal_strlit("gen");
        reveal_strlit("best");
        reveal_strlit("worst");
        reveal_strlit("pb");
        reveal_strlit("pw");
        reveal_strlit("hof");
        reveal_strlit("timeout");
        reveal_strlit("untimeout");
        assert(toks@.map_values(|x: String| x@).len() == t.len());
        assert(forall|k: int| 0 <= k < toks@.len() ==> (#[trigger] toks@[k])@ == t[k]);
    }

    if toks.len() == 0 {
        return None;
    }
    let first = &toks[0];
    if first.unicode_len() == 0 || first.as_str().get_char(0) != '!' {
        return None;
    }
    if str_eq(payload.chatter_user_id.as_str(), crate::config::BOT_USER_ID) {
        return None;
    }
    match &payload.source_broadcaster_user_id {
        Some(src) => {
            if !str_eq(src.as_str(), payload.broadcaster_user_id.as_str()) {
                return None;
            }
        },
        None => {},
    }

    if !str_eq(first.as_str(), "!45") {
        return None;
    }

    let sub: Option<forty_five::Subcommands> = if toks.len() == 1 {
        None
    } else {
        let word = toks[1].as_str();
        if str_eq(word, "gen") && toks.len() == 2 {
            Some(forty_five::Subcommands::Gen(forty_five::Generate {}))
        } else if str_eq(word, "best") && toks.len() == 2 {
            Some(forty_five::Subcommands::Best(forty_five::best_worst::Best {}))
        } else if str_eq(word, "worst") && toks.len() == 2 {
            Some(forty_five::Subcommands::Worst(forty_five::best_worst::Worst {}))
        } else if str_eq(word, "pb") && (toks.len() == 2 || (toks.len() == 3 && arg_ok_exec(
            &toks[2],
        ))) {
            let login: Option<String> = if toks.len() == 3 {
                Some(toks[2].clone())
            } else {
                None
            };
            Some(
                forty_five::Subcommands::Pb(
                    forty_five::best_worst::PersonalBest { chatter_user_name: login },
                ),
            )
        } else if str_eq(word, "pw") && (toks.len() == 2 || (toks.len() == 3 && arg_ok_exec(
            &toks[2],
        ))) {
            let login: Option<String> = if toks.len() == 3 {
                Some(toks[2].clone())
            } else {
                None
            };
            Some(
                forty_five::Subcommands::Pw(
                    forty_five::best_worst::PersonalWorst { chatter_user_name: login },
                ),
            )
        } else if str_eq(word, "hof") && toks.len() == 2 {
            Some(forty_five::Subcommands::Hof(forty_five::hof::HallOfFame { epoch: None }))
        } else if str_eq(word, "hof") && toks.len() == 3 && arg_ok_exec(&toks[2]) {
            match crate::text::parse_usize(toks[2].as_str()) {
                Some(e) => Some(
                    forty_five::Subcommands::Hof(forty_five::hof::HallOfFame { epoch: Some(e) }),
                ),
                None => {
                    return None;
                },
            }
        } else if str_eq(word, "timeout") && toks.len() == 3 && arg_ok_exec(&toks[2]) {
            Some(
                forty_five::Subcommands::Timeout(
                    forty_five::timeouts::Timeout {
                        chatter_user_login: toks[2].clone(),
                        secs: 300,
                    },
                ),
            )
        } else if str_eq(word, "timeout") && toks.len() == 4 && arg_ok_exec(&toks[2]) && arg_ok_exec(
            &toks[3],
        ) {
            match crate::text::parse_u64(toks[3].as_str()) {
                Some(secs) => Some(
                    forty_five::Subcommands::Timeout(
                        forty_five::timeouts::Timeout {
                            chatter_user_login: toks[2].clone(),
                            secs,
                        },
                    ),
                ),
                None => {
                    return None;
                },
            }
        } else if str_eq(word, "untimeout") && toks.len() == 3 && arg_ok_exec(&toks[2]) {
            Some(
                forty_five::Subcommands::Untimeout(
                    forty_five::timeouts::Untimeout { chatter_user_login: toks[2].clone() },
                ),
            )
        } else {
            return None;
        }
    };

    Some(Root { sub: Subcommands::FortyFive(forty_five::FortyFiveBot { sub }) })
}

} // verus!
