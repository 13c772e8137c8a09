//! Pure formatting of a backend payload fragment into display text: the
//! answer text, then the citations under a header, then the suggested
//! follow-ups under an emphasized header. Input order is kept, nothing is
//! deduplicated or truncated, and entries are 1-indexed.

use vstd::prelude::*;
use vstd::string::StringExecFns;

use crate::payload::{Citation, Suggestion};

verus! {

/// The character for one decimal digit.
pub open spec fn digit_char(d: nat) -> char
    recommends
        d < 10,
{
    if d == 0 {
        '0'
    } else if d == 1 {
        '1'
    } else if d == 2 {
        '2'
    } else if d == 3 {
        '3'
    } else if d == 4 {
        '4'
    } else if d == 5 {
        '5'
    } else if d == 6 {
        '6'
    } else if d == 7 {
        '7'
    } else if d == 8 {
        '8'
    } else {
        '9'
    }
}

/// The decimal digits of `n`, most significant first, no leading zeros
/// (a single zero for `n == 0`).
pub open spec fn spec_decimal(n: nat) -> Seq<char>
    decreases n,
{
    if n < 10 {
        seq![digit_char(n)]
    } else {
        spec_decimal(n / 10).push(digit_char(n % 10))
    }
}

fn digit_str(d: u64) -> (r: &'static str)
    requires
        d < 10,
    ensures
        r@ == seq![digit_char(d as nat)],
{
    proof {
        reveal_strlit("0");
        reveal_strlit("1");
        reveal_strlit("2");
        reveal_strlit("3");
        reveal_strlit("4");
        reveal_strlit("5");
        reveal_strlit("6");
        reveal_strlit("7");
        reveal_strlit("8");
        reveal_strlit("9");
    }
    let r: &'static str = if d == 0 {
        "0"
    } else if d == 1 {
        "1"
    } else if d == 2 {
        "2"
    } else if d == 3 {
        "3"
    } else if d == 4 {
        "4"
    } else if d == 5 {
        "5"
    } else if d == 6 {
        "6"
    } else if d == 7 {
        "7"
    } else if d == 8 {
        "8"
    } else {
        "9"
    };
    proof {
        assert(r@ =~= seq![digit_char(d as nat)]);
    }
    r
}

/// `n` written in decimal.
pub fn decimal_string(n: u64) -> (s: String)
    ensures
        s@ == spec_decimal(n as nat),
    decreases n,
{
    if n < 10 {
        String::from_str(digit_str(n))
    } else {
        let mut s = decimal_string(n / 10);
        s.append(digit_str(n % 10));
        proof {
            assert(s@ =~= spec_decimal(n as nat));
        }
        s
    }
}

/// The line for the citation at 0-based position `i`: `"{i+1}: [{name}]({url})"`.
pub open spec fn spec_citation_line(i: int, c: Citation) -> Seq<char>
    recommends
        0 <= i,
{
    spec_decimal((i + 1) as nat) + ": ["@ + c.name@ + "]("@ + c.url@ + ")"@
}

/// The first `n` citation lines joined by newlines, with no trailing
/// separator after the last entry.
pub open spec fn spec_citation_lines(cs: Seq<Citation>, n: int) -> Seq<char>
    recommends
        n <= cs.len(),
    decreases n,
{
    if n <= 0 {
        Seq::empty()
    } else if n == 1 {
        spec_citation_line(0, cs[0])
    } else {
        spec_citation_lines(cs, n - 1) + "\n"@ + spec_citation_line(n - 1, cs[n - 1])
    }
}

/// What citations add to the rendering: nothing when there are none, else a
/// blank line, the header, and the lines.
pub open spec fn spec_citation_block(cs: Seq<Citation>) -> Seq<char> {
    if cs.len() == 0 {
        Seq::empty()
    } else {
        "\n\nLearn more:\n"@ + spec_citation_lines(cs, cs.len() as int)
    }
}

/// The line for the suggestion at 0-based position `i`: `"_{i+1}: {text}_"`.
pub open spec fn spec_suggestion_line(i: int, s: Suggestion) -> Seq<char>
    recommends
        0 <= i,
{
    "_"@ + spec_decimal((i + 1) as nat) + ": "@ + s.text@ + "_"@
}

/// The first `n` suggestion lines joined by newlines.
pub open spec fn spec_suggestion_lines(ss: Seq<Suggestion>, n: int) -> Seq<char>
    recommends
        n <= ss.len(),
    decreases n,
{
    if n <= 0 {
        Seq::empty()
    } else if n == 1 {
        spec_suggestion_line(0, ss[0])
    } else {
        spec_suggestion_lines(ss, n - 1) + "\n"@ + spec_suggestion_line(n - 1, ss[n - 1])
    }
}

/// What suggestions add to the rendering: nothing when there are none, else
/// a blank line, the emphasized header, and the lines.
pub open spec fn spec_suggestion_block(ss: Seq<Suggestion>) -> Seq<char> {
    if ss.len() == 0 {
        Seq::empty()
    } else {
        "\n\n_Suggested responses:_\n"@ + spec_suggestion_lines(ss, ss.len() as int)
    }
}

/// The full rendering of a fragment.
pub open spec fn spec_render(text: Seq<char>, cs: Seq<Citation>, ss: Seq<Suggestion>) -> Seq<
    char,
> {
    text + spec_citation_block(cs) + spec_suggestion_block(ss)
}

/// An absent list renders like an empty one.
pub open spec fn spec_opt_citations(c: Option<&Vec<Citation>>) -> Seq<Citation> {
    match c {
        Some(v) => v@,
        None => Seq::empty(),
    }
}

/// An absent list renders like an empty one.
pub open spec fn spec_opt_suggestions(s: Option<&Vec<Suggestion>>) -> Seq<Suggestion> {
    match s {
        Some(v) => v@,
        None => Seq::empty(),
    }
}

/// Rendering with zero citations and zero suggestions returns the answer
/// text unchanged: byte-identical, no trailing blank lines added.
pub proof fn lemma_render_plain(text: Seq<char>)
    ensures
        spec_render(text, Seq::<Citation>::empty(), Seq::<Suggestion>::empty()) == text,
{
    assert(spec_render(text, Seq::<Citation>::empty(), Seq::<Suggestion>::empty()) =~= text);
}

fn citation_line(i: usize, c: &Citation) -> (r: String)
    requires
        i < usize::MAX,
    ensures
        r@ == spec_citation_line(i as int, *c),
{
    let mut line = decimal_string((i as u64) + 1);
    line.append(": [");
    line.append(c.name.as_str());
    line.append("](");
    line.append(c.url.as_str());
    line.append(")");
    proof {
        assert(line@ =~= spec_citation_line(i as int, *c));
    }
    line
}

fn suggestion_line(i: usize, s: &Suggestion) -> (r: String)
    requires
        i < usize::MAX,
    ensures
        r@ == spec_suggestion_line(i as int, *s),
{
    let mut line = String::from_str("_");
    line.append(decimal_string((i as u64) + 1).as_str());
    line.append(": ");
    line.append(s.text.as_str());
    line.append("_");
    proof {
        assert(line@ =~= spec_suggestion_line(i as int, *s));
    }
    line
}

fn append_citations(ans: &mut String, cs: &Vec<Citation>)
    ensures
        final(ans)@ == old(ans)@ + spec_citation_block(cs@),
{
    if cs.len() == 0 {
        proof {
            assert(ans@ =~= old(ans)@ + spec_citation_block(cs@));
        }
        return ;
    }
    ans.append("\n\nLearn more:\n");
    let ghost base = old(ans)@ + "\n\nLearn more:\n"@;
    let mut i: usize = 0;
    proof {
        assert(ans@ =~= base + spec_citation_lines(cs@, 0));
    }
    while i < cs.len()
        invariant
            i <= cs@.len(),
            ans@ == base + spec_citation_lines(cs@, i as int),
        decreases cs@.len() - i,
    {
        if i > 0 {
            ans.append("\n");
        }
        let line = citation_line(i, &cs[i]);
        ans.append(line.as_str());
        proof {
            assert(ans@ =~= base + spec_citation_lines(cs@, i + 1));
        }
        i += 1;
    }
    proof {
        assert(ans@ =~= old(ans)@ + spec_citation_block(cs@));
    }
}

fn append_suggestions(ans: &mut String, ss: &Vec<Suggestion>)
    ensures
        final(ans)@ == old(ans)@ + spec_suggestion_block(ss@),
{
    if ss.len() == 0 {
        proof {
            assert(ans@ =~= old(ans)@ + spec_suggestion_block(ss@));
        }
        return ;
    }
    ans.append("\n\n_Suggested responses:_\n");
    let ghost base = old(ans)@ + "\n\n_Suggested responses:_\n"@;
    let mut i: usize = 0;
    proof {
        assert(ans@ =~= base + spec_suggestion_lines(ss@, 0));
    }
    while i < ss.len()
        invariant
            i <= ss@.len(),
            ans@ == base + spec_suggestion_lines(ss@, i as int),
        decreases ss@.len() - i,
    {
        if i > 0 {
            ans.append("\n");
        }
        let line = suggestion_line(i, &ss[i]);
        ans.append(line.as_str());
        proof {
            assert(ans@ =~= base + spec_suggestion_lines(ss@, i + 1));
        }
        i += 1;
    }
    proof {
        assert(ans@ =~= old(ans)@ + spec_suggestion_block(ss@));
    }
}

/// Renders a fragment: the answer text, then the citation block, then the
/// suggestion block, exactly in backend order.
pub fn render(
    text: &String,
    citations: Option<&Vec<Citation>>,
    suggestions: Option<&Vec<Suggestion>>,
) -> (r: String)
    ensures
        r@ == spec_render(text@, spec_opt_citations(citations), spec_opt_suggestions(suggestions)),
{
    let mut ans = text.clone();
    match citations {
        Some(cs) => append_citations(&mut ans, cs),
        None => (),
    }
    match suggestions {
        Some(ss) => append_suggestions(&mut ans, ss),
        None => (),
    }
    proof {
        assert(ans@ =~= spec_render(
            text@,
            spec_opt_citations(citations),
            spec_opt_suggestions(suggestions),
        ));
    }
    ans
}

} // verus!
