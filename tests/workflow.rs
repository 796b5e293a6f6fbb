use fxsm::compile::{compile, Table};
use fxsm::model::{duplication_from_derives, CommitStrategy, Duplication, PayloadShape, SpecError, StateDecl, Value};
use fxsm::pattern::pattern;

#[derive(Clone, Debug, PartialEq, Eq)]
enum Payload {
    Nothing,
    Text(String),
    Count(u64),
}

fn decl(name: &str, shape: PayloadShape, transitions: Option<&[&str]>) -> StateDecl {
    StateDecl {
        name: name.to_string(),
        shape,
        transitions: transitions.map(|ts| ts.iter().map(|t| t.to_string()).collect()),
    }
}

fn cup_decls() -> Vec<StateDecl> {
    vec![
        decl("Waiting", PayloadShape::Unit, Some(&["Checkins", "Aborted", "Rescheduled"])),
        decl("Checkins", PayloadShape::Unit, Some(&["InProgress", "Aborted", "Rescheduled"])),
        decl("InProgress", PayloadShape::Tuple(1), Some(&["Finished", "Aborted", "Rescheduled"])),
        decl("Aborted", PayloadShape::Tuple(1), None),
        decl("Rescheduled", PayloadShape::Struct(vec!["info".to_string()]), None),
        decl("Finished", PayloadShape::Unit, None),
    ]
}

fn cup() -> Table {
    compile(cup_decls(), Duplication::Explicit).unwrap()
}

fn val(t: &Table, name: &str, payload: Payload) -> Value<Payload> {
    Value { tag: t.tag_of(name).unwrap(), payload }
}

fn waiting(t: &Table) -> Value<Payload> {
    val(t, "Waiting", Payload::Nothing)
}
fn checkins(t: &Table) -> Value<Payload> {
    val(t, "Checkins", Payload::Nothing)
}
fn in_progress(t: &Table) -> Value<Payload> {
    val(t, "InProgress", Payload::Text(String::new()))
}
fn aborted(t: &Table, n: u64) -> Value<Payload> {
    val(t, "Aborted", Payload::Count(n))
}
fn rescheduled(t: &Table, info: &str) -> Value<Payload> {
    val(t, "Rescheduled", Payload::Text(info.to_string()))
}
fn finished(t: &Table) -> Value<Payload> {
    val(t, "Finished", Payload::Nothing)
}

#[test]
fn waiting_guards() {
    let t = cup();
    let cur = waiting(&t);
    assert!(!t.can_change(&cur, &waiting(&t)));
    assert!(t.can_change(&cur, &checkins(&t)));
    assert!(!t.can_change(&cur, &in_progress(&t)));
    assert!(t.can_change(&cur, &aborted(&t, 0)));
    assert!(t.can_change(&cur, &rescheduled(&t, "")));
    assert!(!t.can_change(&cur, &finished(&t)));
    assert!(!t.at_finish_state(&cur));
}

#[test]
fn change_to_checkins() {
    let t = cup();
    let mut cur = waiting(&t);
    assert!(t.change(&mut cur, checkins(&t)));
    assert_eq!(cur, checkins(&t));
    assert!(!t.can_change(&cur, &waiting(&t)));
    assert!(t.can_change(&cur, &aborted(&t, 0)));
    assert!(t.can_change(&cur, &rescheduled(&t, "")));
    assert!(t.can_change(&cur, &in_progress(&t)));
    assert!(!t.can_change(&cur, &finished(&t)));
    assert!(!t.at_finish_state(&cur));
}

#[test]
fn finish_classification() {
    let t = cup();
    assert!(t.is_finish_state(&finished(&t)));
    assert!(t.is_finish_state(&aborted(&t, 0)));
    assert!(t.is_finish_state(&rescheduled(&t, "")));
    assert!(!t.is_finish_state(&waiting(&t)));
    assert!(!t.is_finish_state(&checkins(&t)));
    assert!(!t.is_finish_state(&in_progress(&t)));
    assert_eq!(t.finish_states(), 3);
}

#[test]
fn unchecked_assignment_reaches_finish() {
    let t = cup();
    let mut cur = checkins(&t);
    assert!(!t.at_finish_state(&cur));
    cur = finished(&t);
    assert!(t.at_finish_state(&cur));
}

#[test]
fn finish_iff_no_transition_list() {
    let decls = cup_decls();
    let t = cup();
    for (i, d) in decls.iter().enumerate() {
        let v = Value { tag: i, payload: Payload::Nothing };
        assert_eq!(t.is_finish_state(&v), d.transitions.is_none());
    }
}

#[test]
fn legal_iff_listed() {
    let decls = cup_decls();
    let t = cup();
    for (i, d) in decls.iter().enumerate() {
        for (j, e) in decls.iter().enumerate() {
            let cur = Value { tag: i, payload: Payload::Nothing };
            let cand = Value { tag: j, payload: Payload::Count(7) };
            let listed = match &d.transitions {
                None => false,
                Some(ts) => ts.contains(&e.name),
            };
            assert_eq!(t.can_change(&cur, &cand), listed);
        }
    }
}

#[test]
fn finish_state_has_no_exit() {
    let t = cup();
    for name in ["Aborted", "Rescheduled", "Finished"] {
        let cur = val(&t, name, Payload::Nothing);
        for j in 0..t.len() {
            assert!(!t.can_change(&cur, &Value { tag: j, payload: Payload::Nothing }));
        }
    }
}

#[test]
fn payload_does_not_matter() {
    let t = cup();
    let cur = waiting(&t);
    assert!(t.can_change(&cur, &aborted(&t, 0)));
    assert!(t.can_change(&cur, &aborted(&t, u64::MAX)));
    assert!(t.is_finish_state(&rescheduled(&t, "")));
    assert!(t.is_finish_state(&rescheduled(&t, "rain")));
    assert!(t.is_finish_state(&aborted(&t, 42)));
}

#[test]
fn refused_change_keeps_receiver() {
    let t = cup();
    let mut cur = in_progress(&t);
    cur.payload = Payload::Text("half time".to_string());
    let before = cur.clone();
    assert!(!t.change(&mut cur, waiting(&t)));
    assert_eq!(cur, before);
    let mut done = finished(&t);
    assert!(!t.change(&mut done, aborted(&t, 3)));
    assert_eq!(done, finished(&t));
}

#[test]
fn change_replaces_tag_and_payload() {
    let t = cup();
    let mut cur = in_progress(&t);
    cur.payload = Payload::Text("half time".to_string());
    assert!(t.change(&mut cur, rescheduled(&t, "rain")));
    assert_eq!(cur.tag, t.tag_of("Rescheduled").unwrap());
    assert_eq!(cur.payload, Payload::Text("rain".to_string()));
}

#[test]
fn empty_list_is_stuck_not_finished() {
    let decls = vec![
        decl("Start", PayloadShape::Unit, Some(&["Stuck"])),
        decl("Stuck", PayloadShape::Unit, Some(&[])),
    ];
    let t = compile(decls, Duplication::Trivial).unwrap();
    let stuck = Value { tag: 1, payload: () };
    assert!(!t.is_finish_state(&stuck));
    assert!(!t.can_change(&stuck, &Value { tag: 0, payload: () }));
    assert!(!t.can_change(&stuck, &Value { tag: 1, payload: () }));
    assert_eq!(t.finish_states(), 0);
}

#[test]
fn self_transition_only_when_declared() {
    let decls = vec![
        decl("Loop", PayloadShape::Tuple(1), Some(&["Loop", "Loop", "End"])),
        decl("End", PayloadShape::Unit, None),
    ];
    let t = compile(decls, Duplication::Trivial).unwrap();
    let mut cur = Value { tag: 0, payload: 1u8 };
    assert!(t.change(&mut cur, Value { tag: 0, payload: 2u8 }));
    assert_eq!(cur, Value { tag: 0, payload: 2u8 });
    assert!(t.change(&mut cur, Value { tag: 1, payload: 0u8 }));
    assert!(!t.change(&mut cur, Value { tag: 1, payload: 9u8 }));
    assert_eq!(cur, Value { tag: 1, payload: 0u8 });
}

#[test]
fn tag_out_of_range_is_neither_legal_nor_finished() {
    let t = cup();
    let stranger = Value { tag: 99, payload: Payload::Nothing };
    assert!(!t.is_finish_state(&stranger));
    assert!(!t.can_change(&stranger, &checkins(&t)));
    assert!(!t.can_change(&waiting(&t), &stranger));
    assert_eq!(t.tag_of("Missing"), None);
}

#[test]
fn strategy_follows_duplication() {
    assert_eq!(compile(cup_decls(), Duplication::Trivial).unwrap().strategy(), CommitStrategy::Reuse);
    assert_eq!(cup().strategy(), CommitStrategy::Duplicate);
}

#[test]
fn error_missing_duplication() {
    assert_eq!(
        compile(cup_decls(), Duplication::Unsupported).err(),
        Some(SpecError::MissingDuplicationCapability)
    );
    assert_eq!(compile(vec![], Duplication::Unsupported).err(), Some(SpecError::MissingDuplicationCapability));
}

#[test]
fn error_empty_state_set() {
    assert_eq!(compile(vec![], Duplication::Trivial).err(), Some(SpecError::EmptyStateSet));
}

#[test]
fn error_duplicate_name() {
    let mut decls = cup_decls();
    decls.push(decl("Checkins", PayloadShape::Unit, None));
    assert_eq!(
        compile(decls, Duplication::Explicit).err(),
        Some(SpecError::DuplicateStateName("Checkins".to_string()))
    );
}

#[test]
fn error_unknown_target() {
    let mut decls = cup_decls();
    decls[1] = decl("Checkins", PayloadShape::Unit, Some(&["InProgress", "Paused"]));
    assert_eq!(
        compile(decls, Duplication::Explicit).err(),
        Some(SpecError::UnknownTransitionTarget {
            state: "Checkins".to_string(),
            target: "Paused".to_string()
        })
    );
}

#[test]
fn patterns_by_shape() {
    let t = cup();
    assert_eq!(pattern("CupState", t.decl(0)), "CupState::Waiting");
    assert_eq!(pattern("CupState", t.decl(2)), "CupState::InProgress(..)");
    assert_eq!(pattern("CupState", t.decl(4)), "CupState::Rescheduled{..}");
}

#[test]
fn destinations_resolve_to_tags() {
    let t = cup();
    assert_eq!(t.destinations(0), Some(&vec![1, 3, 4]));
    assert_eq!(t.destinations(2), Some(&vec![5, 3, 4]));
    assert_eq!(t.destinations(5), None);
    assert_eq!(t.len(), 6);
}

fn names(ns: &[&str]) -> Vec<String> {
    ns.iter().map(|n| n.to_string()).collect()
}

#[test]
fn duplication_from_derived_traits() {
    assert_eq!(duplication_from_derives(&names(&["Clone", "Copy", "Debug"])), Duplication::Trivial);
    assert_eq!(duplication_from_derives(&names(&["Clone", "Debug"])), Duplication::Explicit);
    assert_eq!(duplication_from_derives(&names(&["Debug", "PartialEq"])), Duplication::Unsupported);
    assert_eq!(duplication_from_derives(&names(&[])), Duplication::Unsupported);
    assert_eq!(duplication_from_derives(&names(&["copy", "Cloned"])), Duplication::Unsupported);
}
