//! Text handling at the relay's edge: reducing an inbound message to the
//! normalized prompt (every mention of the bot removed, surrounding
//! whitespace trimmed) and the routing rule that decides whether a message
//! is addressed to the bot at all.

use vstd::prelude::*;
use vstd::string::{StrSliceExecFns, StringExecFns};

verus! {

/// The mention of a username, as it appears in message text.
pub open spec fn spec_mention(username: Seq<char>) -> Seq<char> {
    "@"@ + username
}

/// `s` with every occurrence of `pat` removed: the scan runs left to right,
/// takes the leftmost match first, and continues after it — what replacing
/// a pattern by the empty string leaves.
pub open spec fn spec_strip(s: Seq<char>, pat: Seq<char>) -> Seq<char>
    recommends
        pat.len() > 0,
    decreases s.len(),
{
    if pat.len() == 0 || s.len() < pat.len() {
        s
    } else if s.subrange(0, pat.len() as int) == pat {
        spec_strip(s.skip(pat.len() as int), pat)
    } else {
        seq![s[0]] + spec_strip(s.skip(1), pat)
    }
}

/// A character of the Unicode `White_Space` class: what trimming removes.
pub open spec fn spec_is_whitespace(c: char) -> bool {
    ||| c == '\u{9}'
    ||| c == '\u{a}'
    ||| c == '\u{b}'
    ||| c == '\u{c}'
    ||| c == '\u{d}'
    ||| c == ' '
    ||| c == '\u{85}'
    ||| c == '\u{a0}'
    ||| c == '\u{1680}'
    ||| ('\u{2000}' <= c && c <= '\u{200a}')
    ||| c == '\u{2028}'
    ||| c == '\u{2029}'
    ||| c == '\u{202f}'
    ||| c == '\u{205f}'
    ||| c == '\u{3000}'
}

/// `s` without its leading whitespace.
pub open spec fn spec_trim_start(s: Seq<char>) -> Seq<char>
    decreases s.len(),
{
    if s.len() > 0 && spec_is_whitespace(s[0]) {
        spec_trim_start(s.drop_first())
    } else {
        s
    }
}

/// `s` without its trailing whitespace.
pub open spec fn spec_trim_end(s: Seq<char>) -> Seq<char>
    decreases s.len(),
{
    if s.len() > 0 && spec_is_whitespace(s.last()) {
        spec_trim_end(s.drop_last())
    } else {
        s
    }
}

/// `s` without surrounding whitespace.
pub open spec fn spec_trim(s: Seq<char>) -> Seq<char> {
    spec_trim_end(spec_trim_start(s))
}

/// The normalized prompt: the inbound text with every mention of the bot
/// removed, then trimmed.
pub open spec fn spec_normalize(text: Seq<char>, username: Seq<char>) -> Seq<char> {
    spec_trim(spec_strip(text, spec_mention(username)))
}

fn is_whitespace_char(c: char) -> (r: bool)
    ensures
        r == spec_is_whitespace(c),
{
    c == '\u{9}' || c == '\u{a}' || c == '\u{b}' || c == '\u{c}' || c == '\u{d}' || c == ' '
        || c == '\u{85}' || c == '\u{a0}' || c == '\u{1680}' || ('\u{2000}' <= c && c
        <= '\u{200a}') || c == '\u{2028}' || c == '\u{2029}' || c == '\u{202f}' || c == '\u{205f}'
        || c == '\u{3000}'
}

fn matches_at(s: &str, pat: &str, i: usize) -> (r: bool)
    requires
        i + pat@.len() <= s@.len(),
        s@.len() <= usize::MAX,
    ensures
        r == (s@.subrange(i as int, i + pat@.len()) == pat@),
{
    let m = pat.unicode_len();
    let mut j: usize = 0;
    while j < m
        invariant
            j <= m,
            m == pat@.len(),
            i + m <= s@.len() <= usize::MAX,
            forall|k: int| 0 <= k < j ==> s@[i + k] == pat@[k],
        decreases m - j,
    {
        if s.get_char(i + j) != pat.get_char(j) {
            proof {
                let sub = s@.subrange(i as int, i + m);
                assert(sub[j as int] == s@[i + j]);
            }
            return false;
        }
        j += 1;
    }
    proof {
        assert(s@.subrange(i as int, i + m) =~= pat@);
    }
    true
}

/// Removes every occurrence of `pat` from `s`, left to right.
pub fn strip_all(s: &str, pat: &str) -> (r: String)
    requires
        pat@.len() > 0,
    ensures
        r@ == spec_strip(s@, pat@),
{
    let n = s.unicode_len();
    let m = pat.unicode_len();
    let mut out = String::new();
    let mut i: usize = 0;
    proof {
        assert(s@.skip(0) =~= s@);
        assert(out@ + spec_strip(s@, pat@) =~= spec_strip(s@, pat@));
    }
    while i < n
        invariant
            i <= n,
            n == s@.len(),
            m == pat@.len(),
            pat@.len() > 0,
            out@ + spec_strip(s@.skip(i as int), pat@) == spec_strip(s@, pat@),
        decreases n - i,
    {
        let ghost rem = s@.skip(i as int);
        if m <= n - i && matches_at(s, pat, i) {
            proof {
                assert(rem.subrange(0, m as int) =~= s@.subrange(i as int, i + m));
                assert(rem.skip(m as int) =~= s@.skip(i + m));
            }
            i += m;
        } else {
            out.append(s.substring_char(i, i + 1));
            proof {
                assert(s@.subrange(i as int, i + 1) =~= seq![rem[0]]);
                if m <= n - i {
                    assert(rem.subrange(0, m as int) =~= s@.subrange(i as int, i + m));
                } else {
                    assert(rem =~= seq![rem[0]] + rem.skip(1));
                }
                assert(rem.skip(1) =~= s@.skip(i + 1));
            }
            i += 1;
        }
    }
    proof {
        assert(s@.skip(n as int) =~= Seq::<char>::empty());
        assert(out@ + Seq::<char>::empty() =~= out@);
    }
    out
}

/// `s` without surrounding whitespace, as a fresh string.
pub fn trim_text(s: &str) -> (r: String)
    ensures
        r@ == spec_trim(s@),
{
    let n = s.unicode_len();
    let mut a: usize = 0;
    proof {
        assert(s@.skip(0) =~= s@);
    }
    while a < n && is_whitespace_char(s.get_char(a))
        invariant
            a <= n,
            n == s@.len(),
            spec_trim_start(s@) == spec_trim_start(s@.skip(a as int)),
        decreases n - a,
    {
        proof {
            assert(s@.skip(a as int).drop_first() =~= s@.skip(a + 1));
        }
        a += 1;
    }
    proof {
        if a == n {
            assert(s@.skip(a as int) =~= Seq::<char>::empty());
        }
        assert(spec_trim_start(s@) == s@.skip(a as int));
    }
    let mut b: usize = n;
    proof {
        assert(s@.subrange(a as int, b as int) =~= s@.skip(a as int));
    }
    while b > a && is_whitespace_char(s.get_char(b - 1))
        invariant
            a <= b <= n,
            n == s@.len(),
            spec_trim_start(s@) == s@.skip(a as int),
            spec_trim_end(s@.skip(a as int)) == spec_trim_end(s@.subrange(a as int, b as int)),
        decreases b,
    {
        proof {
            let cur = s@.subrange(a as int, b as int);
            assert(cur.last() == s@[b - 1]);
            assert(cur.drop_last() =~= s@.subrange(a as int, b - 1));
        }
        b -= 1;
    }
    let r = s.substring_char(a, b).to_owned();
    proof {
        assert(spec_trim_end(s@.subrange(a as int, b as int)) == s@.subrange(a as int, b as int));
    }
    r
}

/// Normalizes an inbound message into the prompt the backend receives:
/// every mention of the bot's username removed, then surrounding whitespace
/// trimmed.
pub fn normalize_prompt(text: &str, username: &str) -> (r: String)
    ensures
        r@ == spec_normalize(text@, username@),
{
    let mut pat = String::from_str("@");
    pat.append(username);
    proof {
        reveal_strlit("@");
    }
    let stripped = strip_all(text, pat.as_str());
    trim_text(stripped.as_str())
}

/// One message entity, reduced to what the routing rule reads: whether the
/// entity is a mention, and its text.
pub struct Entity {
    pub is_mention: bool,
    pub text: String,
}

/// Whether some mention entity addresses the given username.
pub open spec fn spec_mentioned(entities: Seq<Entity>, username: Seq<char>) -> bool {
    exists|k: int|
        0 <= k < entities.len() && entities[k].is_mention && entities[k].text@ == spec_mention(
            username,
        )
}

/// Whether some mention entity addresses the given username.
pub fn is_mentioned(entities: &Vec<Entity>, username: &str) -> (r: bool)
    ensures
        r == spec_mentioned(entities@, username@),
{
    let mut pat = String::from_str("@");
    pat.append(username);
    let mut k: usize = 0;
    while k < entities.len()
        invariant
            k <= entities@.len(),
            pat@ == spec_mention(username@),
            forall|j: int|
                0 <= j < k ==> !(entities@[j].is_mention && entities@[j].text@ == spec_mention(
                    username@,
                )),
        decreases entities@.len() - k,
    {
        if entities[k].is_mention && entities[k].text == pat {
            proof {
                assert(entities@[k as int].is_mention && entities@[k as int].text@ == spec_mention(
                    username@,
                ));
            }
            return true;
        }
        k += 1;
    }
    false
}

/// The routing rule: the relay handles a message when the chat is private,
/// when the bot is mentioned in it, or when it replies to a message the bot
/// sent (`reply_to_sender` is the sender of the replied-to message).
pub fn should_handle(
    is_private: bool,
    entities: &Vec<Entity>,
    username: &str,
    reply_to_sender: Option<u64>,
    bot_id: u64,
) -> (r: bool)
    ensures
        r == (is_private || spec_mentioned(entities@, username@) || reply_to_sender == Some(
            bot_id,
        )),
{
    if is_private {
        return true;
    }
    if is_mentioned(entities, username) {
        return true;
    }
    match reply_to_sender {
        Some(id) => id == bot_id,
        None => false,
    }
}

} // verus!
