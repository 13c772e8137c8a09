//! The progress-polling state machine. One exchange sends a placeholder
//! anchor message, then repeatedly queries the backend and edits the anchor
//! in place until the backend marks the answer done, or the exchange aborts.
//! This module holds every decision of that loop as a pure step function;
//! the caller performs the transport work (the HTTP call, the edits, the
//! backoff sleep) and feeds each outcome back in as an event.

use vstd::prelude::*;

use crate::payload::{Citation, Payload, Suggestion};
use crate::render::{render, spec_render};

verus! {

/// Why an exchange ended without a final answer.
#[derive(Clone, Copy, Debug, PartialEq, Eq, Structural)]
pub enum AbortReason {
    /// No credential is stored for the chat; the backend was never called.
    NoCredential,
    /// The backend call failed or timed out.
    Transport,
    /// The response carried no answer-text field.
    MissingText,
    /// The response rendered to visible text but carried no completion flag.
    MissingDone,
}

/// The state of one exchange.
#[derive(Debug, PartialEq)]
pub enum ExchangeState {
    /// The anchor message is sent; the first backend call is next.
    FirstCall { prior: Payload },
    /// At least one call was answered; polling until the backend is done.
    Polling { prior: Payload },
    /// Terminal: the final answer was delivered.
    Done,
    /// Terminal: the exchange was abandoned.
    Aborted { reason: AbortReason },
}

impl ExchangeState {
    /// Whether the exchange still issues backend calls.
    pub open spec fn spec_is_running(self) -> bool {
        self is FirstCall || self is Polling
    }

    /// Whether the exchange still issues backend calls.
    pub fn is_running(&self) -> (r: bool)
        ensures
            r == self.spec_is_running(),
    {
        match self {
            ExchangeState::FirstCall { .. } => true,
            ExchangeState::Polling { .. } => true,
            ExchangeState::Done => false,
            ExchangeState::Aborted { .. } => false,
        }
    }
}

/// The payload a running exchange carries into its next request.
pub open spec fn spec_prior(s: ExchangeState) -> Payload
    recommends
        s.spec_is_running(),
{
    match s {
        ExchangeState::FirstCall { prior } => prior,
        ExchangeState::Polling { prior } => prior,
        _ => Payload::spec_empty(),
    }
}

/// What the transport produced for one poll iteration.
#[derive(Debug)]
pub enum PollEvent {
    /// The backend call failed or timed out.
    Failed,
    /// The backend answered with a (not yet validated) document.
    Response(Payload),
}

/// What the caller must do after one iteration. Each field is one action;
/// `None` means the action is not taken this iteration.
#[derive(Debug)]
pub struct StepEffects {
    /// Best-effort in-place edit of the anchor with progress text; a failed
    /// edit is logged and does not abort the exchange.
    pub progress_edit: Option<String>,
    /// Terminal in-place edit of the anchor with rich formatting.
    pub final_edit: Option<String>,
    /// Payload to persist in the session store, keyed by the anchor message.
    pub store_payload: Option<Payload>,
}

/// The spec-level mirror of [`StepEffects`], with edit text as character
/// sequences.
pub struct SpecEffects {
    pub progress_edit: Option<Seq<char>>,
    pub final_edit: Option<Seq<char>>,
    pub store_payload: Option<Payload>,
}

/// An iteration with nothing for the caller to do.
pub open spec fn spec_no_effects() -> SpecEffects {
    SpecEffects { progress_edit: None, final_edit: None, store_payload: None }
}

/// The citations a payload carries, an absent list reading as empty.
pub open spec fn spec_payload_citations(p: Payload) -> Seq<Citation> {
    match p.citations {
        Some(v) => v@,
        None => Seq::empty(),
    }
}

/// The suggestions a payload carries, an absent list reading as empty.
pub open spec fn spec_payload_suggestions(p: Payload) -> Seq<Suggestion> {
    match p.suggestions {
        Some(v) => v@,
        None => Seq::empty(),
    }
}

/// The display text a response payload renders to.
pub open spec fn spec_rendered(p: Payload) -> Seq<char>
    recommends
        p.text is Some,
{
    spec_render(p.text.unwrap()@, spec_payload_citations(p), spec_payload_suggestions(p))
}

/// One iteration of the polling loop, as a pure function of the current
/// state and the event the transport produced.
///
/// * A terminal state ignores the event and asks for nothing.
/// * A failed call aborts the exchange; it is surfaced, never retried.
/// * A response without answer text is a fatal formatting error.
/// * A response that renders to empty text advances the prior payload and
///   polls again, with no edit.
/// * Visible text without a completion flag is likewise fatal.
/// * An incomplete answer is shown by a best-effort progress edit, and the
///   loop continues with the response as the new prior payload.
/// * A complete answer is shown by one terminal edit with rich formatting,
///   and the payload — continuation identifier stripped — is handed back for
///   the session store, keyed by the anchor message.
pub open spec fn spec_step(state: ExchangeState, ev: PollEvent) -> (ExchangeState, SpecEffects) {
    if !state.spec_is_running() {
        (state, spec_no_effects())
    } else {
        match ev {
            PollEvent::Failed => (
                ExchangeState::Aborted { reason: AbortReason::Transport },
                spec_no_effects(),
            ),
            PollEvent::Response(p) => {
                if p.text is None {
                    (ExchangeState::Aborted { reason: AbortReason::MissingText }, spec_no_effects())
                } else {
                    let rendered = spec_rendered(p);
                    if rendered.len() == 0 {
                        (ExchangeState::Polling { prior: p }, spec_no_effects())
                    } else if p.done is None {
                        (
                            ExchangeState::Aborted { reason: AbortReason::MissingDone },
                            spec_no_effects(),
                        )
                    } else if p.done == Some(true) {
                        (
                            ExchangeState::Done,
                            SpecEffects {
                                progress_edit: None,
                                final_edit: Some(rendered),
                                store_payload: Some(p.spec_without_id()),
                            },
                        )
                    } else {
                        (
                            ExchangeState::Polling { prior: p },
                            SpecEffects {
                                progress_edit: Some(rendered),
                                final_edit: None,
                                store_payload: None,
                            },
                        )
                    }
                }
            },
        }
    }
}

/// Whether executable effects say exactly what the spec-level effects say.
pub open spec fn effects_match(e: StepEffects, s: SpecEffects) -> bool {
    &&& (match e.progress_edit {
        Some(t) => s.progress_edit == Some(t@),
        None => s.progress_edit is None,
    })
    &&& (match e.final_edit {
        Some(t) => s.final_edit == Some(t@),
        None => s.final_edit is None,
    })
    &&& e.store_payload == s.store_payload
}

fn no_effects() -> (e: StepEffects)
    ensures
        effects_match(e, spec_no_effects()),
{
    StepEffects { progress_edit: None, final_edit: None, store_payload: None }
}

/// Runs one iteration of the polling loop. See [`spec_step`] for the full
/// transition relation this follows.
pub fn poll_step(state: ExchangeState, ev: PollEvent) -> (r: (ExchangeState, StepEffects))
    ensures
        r.0 == spec_step(state, ev).0,
        effects_match(r.1, spec_step(state, ev).1),
{
    if !state.is_running() {
        return (state, no_effects());
    }
    match ev {
        PollEvent::Failed => (
            ExchangeState::Aborted { reason: AbortReason::Transport },
            no_effects(),
        ),
        PollEvent::Response(p) => {
            let rendered = match &p.text {
                None => {
                    return (
                        ExchangeState::Aborted { reason: AbortReason::MissingText },
                        no_effects(),
                    );
                },
                Some(t) => render(t, p.citations.as_ref(), p.suggestions.as_ref()),
            };
            proof {
                assert(rendered@ == spec_rendered(p));
            }
            if rendered.as_str().is_empty() {
                (ExchangeState::Polling { prior: p }, no_effects())
            } else {
                match p.done {
                    None => (
                        ExchangeState::Aborted { reason: AbortReason::MissingDone },
                        no_effects(),
                    ),
                    Some(true) => {
                        let stored = p.without_id();
                        (
                            ExchangeState::Done,
                            StepEffects {
                                progress_edit: None,
                                final_edit: Some(rendered),
                                store_payload: Some(stored),
                            },
                        )
                    },
                    Some(false) => (
                        ExchangeState::Polling { prior: p },
                        StepEffects {
                            progress_edit: Some(rendered),
                            final_edit: None,
                            store_payload: None,
                        },
                    ),
                }
            }
        },
    }
}

/// The precondition check at exchange start: without a credential the
/// exchange aborts before any backend call — the caller shows a user-facing
/// notice instead of the placeholder. With one, the exchange proceeds to
/// the first call and the caller sends the placeholder anchor message.
pub fn begin_exchange(credential: &Option<String>, prior: Payload) -> (r: ExchangeState)
    ensures
        credential is None ==> r == (ExchangeState::Aborted { reason: AbortReason::NoCredential }),
        credential is Some ==> r == (ExchangeState::FirstCall { prior }),
{
    match credential {
        Some(_) => ExchangeState::FirstCall { prior },
        None => ExchangeState::Aborted { reason: AbortReason::NoCredential },
    }
}

/// One backend request body: the normalized prompt, the chat's credential,
/// and the prior payload giving conversational context.
#[derive(Debug)]
pub struct ExchangeRequest {
    pub prompt: String,
    pub cookie: String,
    pub last_resp: Payload,
}

/// The request for the next iteration, rebuilt every poll so the prior
/// payload is always the latest response.
pub fn build_request(prompt: &String, cookie: &String, state: &ExchangeState) -> (r:
    ExchangeRequest)
    requires
        state.spec_is_running(),
    ensures
        r.prompt == *prompt,
        r.cookie == *cookie,
        r.last_resp@ == spec_prior(*state)@,
{
    let last = match state {
        ExchangeState::FirstCall { prior } => prior.duplicate(),
        ExchangeState::Polling { prior } => prior.duplicate(),
        ExchangeState::Done => Payload::empty(),
        ExchangeState::Aborted { .. } => Payload::empty(),
    };
    ExchangeRequest { prompt: prompt.clone(), cookie: cookie.clone(), last_resp: last }
}

/// One edit made to the anchor message.
#[derive(Debug, PartialEq)]
pub struct Edit {
    /// The text the anchor was edited to.
    pub text: String,
    /// Whether this was the terminal, richly formatted edit.
    pub terminal: bool,
}

/// The observable outcome of driving an exchange over a sequence of events:
/// every edit in order, the payload persisted for the anchor (if any), and
/// the state reached.
#[derive(Debug)]
pub struct Transcript {
    pub edits: Vec<Edit>,
    pub stored: Option<Payload>,
    pub state: ExchangeState,
}

/// The edits one iteration asks for, in order.
pub open spec fn spec_effect_edits(e: SpecEffects) -> Seq<(Seq<char>, bool)> {
    (match e.progress_edit {
        Some(t) => seq![(t, false)],
        None => Seq::empty(),
    }) + (match e.final_edit {
        Some(t) => seq![(t, true)],
        None => Seq::empty(),
    })
}

/// The edits of a sequence of executable [`Edit`]s, as text and a flag.
pub open spec fn spec_edits_view(es: Seq<Edit>) -> Seq<(Seq<char>, bool)> {
    es.map_values(|e: Edit| (e.text@, e.terminal))
}

/// The transcript of feeding `evs` through [`spec_step`], one by one, from
/// `state`. The first store wins (at most one ever happens, when a response
/// is done); terminal states consume the remaining events without effect.
pub open spec fn spec_run(state: ExchangeState, evs: Seq<PollEvent>) -> (Seq<(Seq<char>, bool)>,
    Option<Payload>,
    ExchangeState,
)
    decreases evs.len(),
{
    if evs.len() == 0 {
        (Seq::empty(), None, state)
    } else {
        let step = spec_step(state, evs[0]);
        let rest = spec_run(step.0, evs.drop_first());
        (
            spec_effect_edits(step.1) + rest.0,
            if step.1.store_payload is Some {
                step.1.store_payload
            } else {
                rest.1
            },
            rest.2,
        )
    }
}

/// Drives a whole exchange over a pre-recorded sequence of events, applying
/// [`poll_step`] to each in turn, and collects what a transport would have
/// been told to do. This is the loop of an exchange with the backend calls
/// and the sleeps taken out.
pub fn run_exchange(start: ExchangeState, events: Vec<PollEvent>) -> (t: Transcript)
    ensures
        spec_edits_view(t.edits@) == spec_run(start, events@).0,
        t.stored == spec_run(start, events@).1,
        t.state == spec_run(start, events@).2,
{
    let ghost all = events@;
    let mut events = events;
    let mut state = start;
    let mut edits: Vec<Edit> = Vec::new();
    let mut stored: Option<Payload> = None;
    proof {
        assert(spec_edits_view(edits@) =~= Seq::<(Seq<char>, bool)>::empty());
    }
    while events.len() > 0
        invariant
            spec_run(start, all).0 == spec_edits_view(edits@) + spec_run(state, events@).0,
            spec_run(start, all).1 == (if stored is Some {
                stored
            } else {
                spec_run(state, events@).1
            }),
            spec_run(start, all).2 == spec_run(state, events@).2,
        decreases events@.len(),
    {
        let ghost st0 = state;
        let ghost evs0 = events@;
        let ghost edits0 = edits@;
        let ev = events.remove(0);
        proof {
            assert(events@ =~= evs0.drop_first());
        }
        let r = poll_step(state, ev);
        state = r.0;
        let eff = r.1;
        match eff.progress_edit {
            Some(tx) => edits.push(Edit { text: tx, terminal: false }),
            None => (),
        }
        match eff.final_edit {
            Some(tx) => edits.push(Edit { text: tx, terminal: true }),
            None => (),
        }
        match eff.store_payload {
            Some(p) => {
                if stored.is_none() {
                    stored = Some(p);
                }
            },
            None => (),
        }
        proof {
            let step = spec_step(st0, ev);
            assert(spec_edits_view(edits@) =~= spec_edits_view(edits0) + spec_effect_edits(
                step.1,
            ));
            assert(spec_edits_view(edits0) + (spec_effect_edits(step.1) + spec_run(
                state,
                events@,
            ).0) =~= spec_edits_view(edits@) + spec_run(state, events@).0);
        }
    }
    Transcript { edits, stored, state }
}

/// A payload is stored only when an iteration completes the exchange, it
/// never carries the continuation identifier, and the terminal edit comes
/// alone — no iteration asks for a progress edit and a terminal edit both.
pub proof fn lemma_completion_effects(state: ExchangeState, ev: PollEvent)
    ensures
        spec_step(state, ev).1.store_payload matches Some(p) ==> p.id is None,
        spec_step(state, ev).1.store_payload is Some ==> spec_step(state, ev).0 is Done,
        spec_step(state, ev).1.final_edit is Some ==> spec_step(state, ev).0 is Done
            && spec_step(state, ev).1.progress_edit is None,
        state.spec_is_running() && spec_step(state, ev).0 is Done ==> spec_step(
            state,
            ev,
        ).1.store_payload is Some,
{
}

/// A response with no answer text aborts the exchange at once: the renderer
/// is never invoked, nothing is edited, and nothing is stored.
pub proof fn lemma_missing_text_aborts(state: ExchangeState, p: Payload)
    requires
        state.spec_is_running(),
        p.text is None,
    ensures
        spec_step(state, PollEvent::Response(p)).0 == (ExchangeState::Aborted {
            reason: AbortReason::MissingText,
        }),
        spec_step(state, PollEvent::Response(p)).1.progress_edit is None,
        spec_step(state, PollEvent::Response(p)).1.final_edit is None,
        spec_step(state, PollEvent::Response(p)).1.store_payload is None,
{
}

} // verus!
