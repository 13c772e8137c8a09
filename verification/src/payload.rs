//! The semi-structured document the backend returns for one poll iteration,
//! and the pieces it is made of. Every field is optional: the schema lists
//! what the relay reads, and a document may omit any part of it.

use vstd::prelude::*;

verus! {

/// One source citation attached to an answer: a display name and a link.
#[derive(Clone, Debug, PartialEq)]
pub struct Citation {
    pub name: String,
    pub url: String,
}

impl Citation {
    /// An equal copy.
    pub fn duplicate(&self) -> (c: Citation)
        ensures
            c == *self,
    {
        Citation { name: self.name.clone(), url: self.url.clone() }
    }
}

/// One suggested follow-up question attached to an answer.
#[derive(Clone, Debug, PartialEq)]
pub struct Suggestion {
    pub text: String,
}

impl Suggestion {
    /// An equal copy.
    pub fn duplicate(&self) -> (s: Suggestion)
        ensures
            s == *self,
    {
        Suggestion { text: self.text.clone() }
    }
}

fn duplicate_citations(v: &Vec<Citation>) -> (r: Vec<Citation>)
    ensures
        r@ == v@,
{
    let mut r: Vec<Citation> = Vec::new();
    let mut i: usize = 0;
    while i < v.len()
        invariant
            i <= v@.len(),
            r@ =~= v@.subrange(0, i as int),
        decreases v@.len() - i,
    {
        r.push(v[i].duplicate());
        proof {
            assert(r@ =~= v@.subrange(0, i + 1));
        }
        i += 1;
    }
    proof {
        assert(r@ =~= v@);
    }
    r
}

fn duplicate_suggestions(v: &Vec<Suggestion>) -> (r: Vec<Suggestion>)
    ensures
        r@ == v@,
{
    let mut r: Vec<Suggestion> = Vec::new();
    let mut i: usize = 0;
    while i < v.len()
        invariant
            i <= v@.len(),
            r@ =~= v@.subrange(0, i as int),
        decreases v@.len() - i,
    {
        r.push(v[i].duplicate());
        proof {
            assert(r@ =~= v@.subrange(0, i + 1));
        }
        i += 1;
    }
    proof {
        assert(r@ =~= v@);
    }
    r
}

/// A backend response payload. It doubles as the "prior payload" carried
/// into the next request: a fresh conversation starts from the empty
/// document, and each poll iteration replaces it with the latest response.
#[derive(Clone, Debug, PartialEq)]
pub struct Payload {
    /// The free-text answer so far.
    pub text: Option<String>,
    /// The completion flag: `true` once the backend considers the answer final.
    pub done: Option<bool>,
    /// Source citations, in backend order.
    pub citations: Option<Vec<Citation>>,
    /// Suggested follow-ups, in backend order.
    pub suggestions: Option<Vec<Suggestion>>,
    /// The backend's internal continuation identifier. Stripping it before
    /// storage makes the next turn start a new upstream query.
    pub id: Option<String>,
}

/// The mathematical content of a [`Payload`]: the same fields, with each
/// list abstracted to the sequence it holds. Two payloads with equal views
/// carry the same document.
pub struct PayloadView {
    pub text: Option<String>,
    pub done: Option<bool>,
    pub citations: Option<Seq<Citation>>,
    pub suggestions: Option<Seq<Suggestion>>,
    pub id: Option<String>,
}

impl View for Payload {
    type V = PayloadView;

    open spec fn view(&self) -> PayloadView {
        PayloadView {
            text: self.text,
            done: self.done,
            citations: match self.citations {
                Some(v) => Some(v@),
                None => None,
            },
            suggestions: match self.suggestions {
                Some(v) => Some(v@),
                None => None,
            },
            id: self.id,
        }
    }
}

impl Payload {
    /// The empty document: what a fresh conversation starts from.
    pub open spec fn spec_empty() -> Payload {
        Payload {
            text: None,
            done: None,
            citations: None,
            suggestions: None,
            id: None,
        }
    }

    /// Builds the empty document.
    pub fn empty() -> (p: Payload)
        ensures
            p == Self::spec_empty(),
    {
        Payload { text: None, done: None, citations: None, suggestions: None, id: None }
    }

    /// This document with the continuation identifier dropped.
    pub open spec fn spec_without_id(self) -> Payload {
        Payload { id: None, ..self }
    }

    /// Drops the continuation identifier, leaving every other field as it is.
    pub fn without_id(self) -> (p: Payload)
        ensures
            p == self.spec_without_id(),
    {
        Payload { id: None, ..self }
    }

    /// A copy carrying the same document.
    pub fn duplicate(&self) -> (p: Payload)
        ensures
            p@ == self@,
    {
        let text = match &self.text {
            Some(t) => Some(t.clone()),
            None => None,
        };
        let citations = match &self.citations {
            Some(v) => Some(duplicate_citations(v)),
            None => None,
        };
        let suggestions = match &self.suggestions {
            Some(v) => Some(duplicate_suggestions(v)),
            None => None,
        };
        let id = match &self.id {
            Some(t) => Some(t.clone()),
            None => None,
        };
        Payload { text, done: self.done, citations, suggestions, id }
    }
}

} // verus!
