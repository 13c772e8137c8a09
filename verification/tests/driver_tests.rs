use chat_relay::driver::{
    begin_exchange, build_request, poll_step, run_exchange, AbortReason, ExchangeState, PollEvent,
};
use chat_relay::payload::{Citation, Payload};
use chat_relay::store::PayloadStore;

fn response(text: Option<&str>, done: Option<bool>, id: Option<&str>) -> Payload {
    Payload {
        text: text.map(|s| s.to_string()),
        done,
        citations: None,
        suggestions: None,
        id: id.map(|s| s.to_string()),
    }
}

fn first_call() -> ExchangeState {
    ExchangeState::FirstCall { prior: Payload::empty() }
}

#[test]
fn begin_without_credential_aborts() {
    let st = begin_exchange(&None, Payload::empty());
    assert_eq!(st, ExchangeState::Aborted { reason: AbortReason::NoCredential });
}

#[test]
fn begin_with_credential_starts_first_call() {
    let st = begin_exchange(&Some("cookie".to_string()), Payload::empty());
    assert_eq!(st, first_call());
}

#[test]
fn request_carries_prompt_cookie_and_prior() {
    let prior = response(Some("ctx"), Some(true), None);
    let st = ExchangeState::Polling { prior: prior.clone() };
    let req = build_request(&"ask".to_string(), &"ck".to_string(), &st);
    assert_eq!(req.prompt, "ask");
    assert_eq!(req.cookie, "ck");
    assert_eq!(req.last_resp, prior);
}

#[test]
fn transport_failure_aborts() {
    let (st, eff) = poll_step(first_call(), PollEvent::Failed);
    assert_eq!(st, ExchangeState::Aborted { reason: AbortReason::Transport });
    assert!(eff.progress_edit.is_none());
    assert!(eff.final_edit.is_none());
    assert!(eff.store_payload.is_none());
}

#[test]
fn missing_text_aborts_without_render_or_store() {
    let ev = PollEvent::Response(response(None, Some(true), None));
    let (st, eff) = poll_step(first_call(), ev);
    assert_eq!(st, ExchangeState::Aborted { reason: AbortReason::MissingText });
    assert!(eff.progress_edit.is_none());
    assert!(eff.final_edit.is_none());
    assert!(eff.store_payload.is_none());
}

#[test]
fn empty_rendering_polls_on_without_edit() {
    let p = response(Some(""), None, None);
    let ev = PollEvent::Response(p.clone());
    let (st, eff) = poll_step(first_call(), ev);
    assert_eq!(st, ExchangeState::Polling { prior: p });
    assert!(eff.progress_edit.is_none());
    assert!(eff.final_edit.is_none());
    assert!(eff.store_payload.is_none());
}

#[test]
fn visible_text_without_done_flag_aborts() {
    let ev = PollEvent::Response(response(Some("partial"), None, None));
    let (st, eff) = poll_step(first_call(), ev);
    assert_eq!(st, ExchangeState::Aborted { reason: AbortReason::MissingDone });
    assert!(eff.progress_edit.is_none());
    assert!(eff.final_edit.is_none());
    assert!(eff.store_payload.is_none());
}

#[test]
fn incomplete_answer_edits_progress() {
    let p = response(Some("so far"), Some(false), Some("conv"));
    let (st, eff) = poll_step(first_call(), PollEvent::Response(p.clone()));
    assert_eq!(st, ExchangeState::Polling { prior: p });
    assert_eq!(eff.progress_edit, Some("so far".to_string()));
    assert!(eff.final_edit.is_none());
    assert!(eff.store_payload.is_none());
}

#[test]
fn complete_answer_makes_terminal_edit_and_store() {
    let p = response(Some("final"), Some(true), Some("conv"));
    let (st, eff) = poll_step(first_call(), PollEvent::Response(p));
    assert_eq!(st, ExchangeState::Done);
    assert!(eff.progress_edit.is_none());
    assert_eq!(eff.final_edit, Some("final".to_string()));
    let stored = eff.store_payload.expect("payload must be stored");
    assert_eq!(stored.id, None);
    assert_eq!(stored.text, Some("final".to_string()));
    assert_eq!(stored.done, Some(true));
}

#[test]
fn terminal_state_ignores_events() {
    let (st, eff) = poll_step(
        ExchangeState::Done,
        PollEvent::Response(response(Some("late"), Some(true), None)),
    );
    assert_eq!(st, ExchangeState::Done);
    assert!(eff.progress_edit.is_none());
    assert!(eff.final_edit.is_none());
    assert!(eff.store_payload.is_none());
}

#[test]
fn two_iteration_exchange_edits_once_then_finishes() {
    let partial = response(Some("Hi"), Some(false), Some("conv"));
    let mut done = response(Some("Hello"), Some(true), Some("conv"));
    done.citations = Some(vec![
        Citation { name: "A".to_string(), url: "http://a".to_string() },
        Citation { name: "B".to_string(), url: "http://b".to_string() },
    ]);
    let events = vec![PollEvent::Response(partial), PollEvent::Response(done)];
    let t = run_exchange(first_call(), events);

    assert_eq!(t.state, ExchangeState::Done);
    assert_eq!(t.edits.len(), 2);
    assert_eq!(t.edits[0].text, "Hi");
    assert!(!t.edits[0].terminal);
    assert_eq!(t.edits[1].text, "Hello\n\nLearn more:\n1: [A](http://a)\n2: [B](http://b)");
    assert!(t.edits[1].terminal);

    let stored = t.stored.expect("the finished exchange must store its payload");
    assert_eq!(stored.id, None);
    assert_eq!(stored.text, Some("Hello".to_string()));

    let anchor = 1001;
    let mut store = PayloadStore::new();
    store.store_last_payload(anchor, stored);
    let kept = store.take_last_payload(anchor);
    assert_eq!(kept.id, None);
    assert_eq!(kept.text, Some("Hello".to_string()));
    assert_eq!(store.take_last_payload(anchor), Payload::empty());
}

#[test]
fn aborted_exchange_stores_nothing() {
    let events = vec![
        PollEvent::Response(response(Some("Hi"), Some(false), None)),
        PollEvent::Failed,
        PollEvent::Response(response(Some("late"), Some(true), None)),
    ];
    let t = run_exchange(first_call(), events);
    assert_eq!(t.state, ExchangeState::Aborted { reason: AbortReason::Transport });
    assert_eq!(t.edits.len(), 1);
    assert!(t.stored.is_none());
}
