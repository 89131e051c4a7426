//! Casual chatter outside the slash commands: a melon reaction for
//! messages that open with the melon marker, and an answer to praise or
//! scolding arriving shortly after the bot last did something.
//!
//! A message counts as praise when, lowercased and stripped of whatever
//! punctuation decorates it, it reads exactly "good bot"; as scolding
//! when it reads "bad bot".

use crate::text::{chars_of, lowercase, spec_lowercase};
use vstd::prelude::*;

verus! {

/// How long after its last interaction the bot keeps answering praise,
/// in seconds.
pub const CHATTER_WINDOW_SECS: u64 = 60;

/// An ASCII letter.
pub open spec fn is_ascii_alpha(c: char) -> bool {
    (97 <= c as u32 && c as u32 <= 122) || (65 <= c as u32 && c as u32 <= 90)
}

/// `s` without its leading and trailing non-letter characters.
pub open spec fn spec_trim_non_alpha(s: Seq<char>) -> Seq<char>
    decreases s.len(),
{
    if s.len() == 0 {
        s
    } else if !is_ascii_alpha(s[0]) {
        spec_trim_non_alpha(s.drop_first())
    } else if !is_ascii_alpha(s.last()) {
        spec_trim_non_alpha(s.drop_last())
    } else {
        s
    }
}

/// What a chat message amounts to once lowercased and trimmed.
#[derive(Clone, Copy, Debug, PartialEq, Eq, Structural)]
pub enum ChatVerdict {
    GoodBot,
    BadBot,
    Plain,
}

/// The verdict on a message's text.
pub open spec fn spec_chat_verdict(content: Seq<char>) -> ChatVerdict {
    let trimmed = spec_trim_non_alpha(spec_lowercase(content));
    if trimmed == "good bot"@ {
        ChatVerdict::GoodBot
    } else if trimmed == "bad bot"@ {
        ChatVerdict::BadBot
    } else {
        ChatVerdict::Plain
    }
}

/// A message opens with the melon marker.
pub open spec fn spec_is_melo(content: Seq<char>) -> bool {
    content.len() >= 6 && content.subrange(0, 6) == "->melo"@
}

fn exec_is_ascii_alpha(c: char) -> (b: bool)
    ensures
        b == is_ascii_alpha(c),
{
    let u = c as u32;
    (97 <= u && u <= 122) || (65 <= u && u <= 90)
}

/// The bounds of `v` with non-letter characters stripped from both ends:
/// the subrange they select is the trimmed text.
fn trim_bounds(v: &Vec<char>) -> (r: (usize, usize))
    ensures
        r.0 <= r.1 <= v@.len(),
        v@.subrange(r.0 as int, r.1 as int) == spec_trim_non_alpha(v@),
{
    let mut lo: usize = 0;
    let mut hi: usize = v.len();
    proof {
        assert(v@.subrange(0, v@.len() as int) =~= v@);
    }
    while lo < hi && !exec_is_ascii_alpha(v[lo])
        invariant
            lo <= hi <= v@.len(),
            spec_trim_non_alpha(v@.subrange(lo as int, hi as int)) == spec_trim_non_alpha(v@),
        decreases hi - lo,
    {
        proof {
            let sub = v@.subrange(lo as int, hi as int);
            assert(sub.drop_first() =~= v@.subrange(lo as int + 1, hi as int));
        }
        lo = lo + 1;
    }
    while lo < hi && !exec_is_ascii_alpha(v[hi - 1])
        invariant
            lo <= hi <= v@.len(),
            spec_trim_non_alpha(v@.subrange(lo as int, hi as int)) == spec_trim_non_alpha(v@),
            lo < hi ==> is_ascii_alpha(v@[lo as int]),
        decreases hi - lo,
    {
        proof {
            let sub = v@.subrange(lo as int, hi as int);
            assert(sub.drop_last() =~= v@.subrange(lo as int, hi as int - 1));
        }
        hi = hi - 1;
    }
    proof {
        let sub = v@.subrange(lo as int, hi as int);
        if lo == hi {
            assert(sub =~= spec_trim_non_alpha(sub));
        } else {
            assert(is_ascii_alpha(sub[0]));
            assert(is_ascii_alpha(sub.last()));
        }
    }
    (lo, hi)
}

/// Whether the characters of `v` between `lo` and `hi` read exactly as
/// `pattern`.
fn range_eq(v: &Vec<char>, lo: usize, hi: usize, pattern: &Vec<char>) -> (b: bool)
    requires
        lo <= hi <= v@.len(),
    ensures
        b == (v@.subrange(lo as int, hi as int) == pattern@),
{
    if hi - lo != pattern.len() {
        proof {
            assert(v@.subrange(lo as int, hi as int).len() == hi - lo);
        }
        return false;
    }
    let n = pattern.len();
    let mut k: usize = 0;
    while k < n
        invariant
            k <= n == pattern@.len(),
            lo + n == hi,
            hi <= v@.len(),
            forall|j: int| 0 <= j < k ==> v@[lo + j] == pattern@[j],
        decreases n - k,
    {
        if v[lo + k] != pattern[k] {
            proof {
                assert(v@.subrange(lo as int, hi as int)[k as int] != pattern@[k as int]);
            }
            return false;
        }
        k = k + 1;
    }
    proof {
        assert(v@.subrange(lo as int, hi as int) =~= pattern@);
    }
    true
}

/// Judges a message's text: praise, scolding, or plain chatter.
pub fn chat_verdict(content: &str) -> (r: ChatVerdict)
    ensures
        r == spec_chat_verdict(content@),
{
    let lower = lowercase(content);
    let chars = chars_of(lower.as_str());
    let (lo, hi) = trim_bounds(&chars);
    let good: Vec<char> = vec!['g', 'o', 'o', 'd', ' ', 'b', 'o', 't'];
    let bad: Vec<char> = vec!['b', 'a', 'd', ' ', 'b', 'o', 't'];
    proof {
        reveal_strlit("good bot");
        reveal_strlit("bad bot");
        assert(good@ =~= "good bot"@);
        assert(bad@ =~= "bad bot"@);
    }
    if range_eq(&chars, lo, hi, &good) {
        ChatVerdict::GoodBot
    } else if range_eq(&chars, lo, hi, &bad) {
        ChatVerdict::BadBot
    } else {
        ChatVerdict::Plain
    }
}

/// Whether a message opens with the melon marker.
pub fn is_melo(content: &str) -> (b: bool)
    ensures
        b == spec_is_melo(content@),
{
    let chars = chars_of(content);
    let marker: Vec<char> = vec!['-', '>', 'm', 'e', 'l', 'o'];
    proof {
        reveal_strlit("->melo");
        assert(marker@ =~= "->melo"@);
    }
    if chars.len() < 6 {
        return false;
    }
    range_eq(&chars, 0, 6, &marker)
}

/// The reply a plain chat message earns.
#[derive(Clone, Copy, Debug, PartialEq, Eq, Structural)]
pub enum ChatReply {
    /// Thank the user for the praise.
    Thanks,
    /// Answer the scolding with the reproachful image.
    Slap,
    /// Say nothing.
    Silence,
}

/// What happens to the last-interaction stopwatch after a message.
#[derive(Clone, Copy, Debug, PartialEq, Eq, Structural)]
pub enum StopwatchAction {
    /// Record the interaction happening now.
    Start,
    /// Forget the last interaction: praise is answered only once.
    Clear,
    /// Leave the stopwatch as it is.
    Keep,
}

/// Everything the bot does with one plain chat message.
#[derive(Clone, Copy, Debug, PartialEq, Eq, Structural)]
pub struct MessagePlan {
    /// React to the melon marker with the melon emoji.
    pub react_melo: bool,
    pub reply: ChatReply,
    pub stopwatch: StopwatchAction,
}

/// The reply owed to a message: praise and scolding are answered only
/// while the bot counts as recently active, and a melon message makes it
/// active on the spot.
pub open spec fn spec_chat_reply(content: Seq<char>, recently_active: bool) -> ChatReply {
    if recently_active || spec_is_melo(content) {
        match spec_chat_verdict(content) {
            ChatVerdict::GoodBot => ChatReply::Thanks,
            ChatVerdict::BadBot => ChatReply::Slap,
            ChatVerdict::Plain => ChatReply::Silence,
        }
    } else {
        ChatReply::Silence
    }
}

/// Decides what one plain chat message leads to. `recently_active` says
/// whether the bot interacted with anyone within the chatter window
/// before this message arrived. Answering praise or scolding clears the
/// stopwatch, so the bot answers only once per interaction; a melon
/// message starts it.
pub fn plan_message(content: &str, recently_active: bool) -> (p: MessagePlan)
    ensures
        p.react_melo == spec_is_melo(content@),
        p.reply == spec_chat_reply(content@, recently_active),
        p.stopwatch == if p.reply is Silence {
            if spec_is_melo(content@) {
                StopwatchAction::Start
            } else {
                StopwatchAction::Keep
            }
        } else {
            StopwatchAction::Clear
        },
{
    let melo = is_melo(content);
    let reply = if recently_active || melo {
        match chat_verdict(content) {
            ChatVerdict::GoodBot => ChatReply::Thanks,
            ChatVerdict::BadBot => ChatReply::Slap,
            ChatVerdict::Plain => ChatReply::Silence,
        }
    } else {
        ChatReply::Silence
    };
    let stopwatch = match reply {
        ChatReply::Silence => if melo {
            StopwatchAction::Start
        } else {
            StopwatchAction::Keep
        },
        _ => StopwatchAction::Clear,
    };
    MessagePlan { react_melo: melo, reply, stopwatch }
}

} // verus!
