use proctor::elements::collection::{
    accept_target, finished, parse_target, CheckReport, CheckStep, Collect, CollectionError, ParsedUrl,
    StageKind, TargetError,
};
use proctor::elements::policy_filter::protocol::{
    load_outcome, PolicyError, PolicyFilterCmd, PolicyFilterDetail, PolicyFilterEvent, PolicyLoad,
    PolicySource,
};
use proctor::error::governance_errors::{GovernanceError, NextLabel};
use proctor::graph::{Inlet, Links, Outlet};
use std::path::PathBuf;

#[test]
fn a_target_is_a_url_with_a_host() {
    assert_eq!(
        parse_target("https://httpbin.org/get?f=foo&b=bar"),
        Ok("https://httpbin.org/get?f=foo&b=bar".to_string())
    );
    assert_eq!(parse_target("HTTP://Example.COM:80"), Ok("http://example.com/".to_string()));
    assert_eq!(parse_target("data:text/plain,Stuff"), Err(TargetError::NoHost));
    assert_eq!(parse_target("no url"), Err(TargetError::NotAUrl));
    assert_eq!(accept_target(None), Err(TargetError::NotAUrl));
    assert_eq!(
        accept_target(Some(ParsedUrl { text: "x".to_string(), has_host: true })),
        Ok("x".to_string())
    );
    assert_eq!(
        accept_target(Some(ParsedUrl { text: "x".to_string(), has_host: false })),
        Err(TargetError::NoHost)
    );
}

#[test]
fn a_collection_is_a_line_of_four_stages() {
    let plan = Collect::<()>::make_graph("collect-args", "http://localhost/".to_string(), 5);
    let stages: Vec<(&str, StageKind)> =
        plan.stages.iter().map(|s| (s.name.as_str(), s.kind)).collect();
    assert_eq!(
        stages,
        vec![
            ("collect-args-trigger-bridge", StageKind::TriggerBridge),
            ("collect-args-query", StageKind::Query),
            ("collect-args-transform", StageKind::Transform),
            ("collect-args-output-bridge", StageKind::OutputBridge),
        ]
    );
    assert_eq!(plan.links, vec![(0, 1), (1, 2), (2, 3)]);
    assert_eq!(plan.target, "http://localhost/");
    assert_eq!((plan.trigger.name.as_str(), plan.trigger.port), ("into_collection_graph", 5));
    assert_eq!((plan.outlet.name.as_str(), plan.outlet.port), ("collection-outlet", 0));
    assert_eq!((plan.first, plan.last), (0, 3));
}

#[test]
fn a_collection_runs_once() {
    let mut collect = Collect::new("c", "http://localhost/x", 5, |_| 42);
    assert_eq!(collect.name(), "c");
    assert_eq!(collect.target, "http://localhost/x");
    assert_eq!(collect.inlet().name, "into_collection_graph");
    assert_eq!(collect.inlet().port, 5);
    assert_eq!(collect.outlet().name, "collection-outlet");
    assert_eq!(collect.links.peer(&collect.outlet()), None);
    assert_eq!(collect.start(), Some(42));
    assert_eq!(collect.start(), None);
}

#[test]
fn a_collection_has_a_target_or_none_is_made() {
    let collect = Collect::try_new("c", "HTTP://LocalHost/x", 5, |plan| (plan.target, plan.stages.len())).unwrap();
    assert_eq!(collect.target, "http://localhost/x");
    assert_eq!(collect.name, "c");
    assert_eq!(collect.graph, Some(("http://localhost/x".to_string(), 4)));
    assert!(matches!(Collect::try_new("c", "mailto:x@y.z", 5, |_| 42), Err(TargetError::NoHost)));
    assert!(matches!(Collect::try_new("c", "x", 5, |_| 42), Err(TargetError::NotAUrl)));
}

#[test]
fn a_run_ends_as_its_graph_does_and_a_second_run_does_nothing() {
    let mut collect = Collect::new("c", "http://localhost/x", 5, |_| "graph");
    let ran = collect.start().map(|_| Err("bad"));
    assert!(matches!(finished::<(), _>(ran), Err(CollectionError::Stage("bad"))));
    let ran: Option<Result<(), &str>> = collect.start().map(|_| Err("never"));
    assert!(ran.is_none());
    assert!(matches!(finished::<(), _>(ran), Ok(())));
    assert!(matches!(finished::<(), &str>(Some(Ok(()))), Ok(())));
}

#[test]
fn a_check_stops_at_the_first_fault() {
    let mut collect = Collect::new("c".to_string(), "http://localhost/x", 5, |_| ());
    let next = collect.next_check::<&str, &str>(CheckReport::Trigger(Ok(())));
    assert!(matches!(next, Ok(CheckStep::Outlet)));
    let next = collect.next_check::<&str, &str>(CheckReport::Outlet(Ok(())));
    assert!(matches!(next, Ok(CheckStep::Graph)));
    let next = collect.next_check::<&str, &str>(CheckReport::Graph(Ok(())));
    assert!(matches!(next, Ok(CheckStep::Done)));
    let next = collect.next_check::<&str, &str>(CheckReport::Trigger(Err("loose")));
    assert!(matches!(next, Err(CollectionError::Port("loose"))));
    let next = collect.next_check::<&str, &str>(CheckReport::Outlet(Err("open")));
    assert!(matches!(next, Err(CollectionError::Port("open"))));
    let next = collect.next_check::<&str, &str>(CheckReport::Graph(Err("bad")));
    assert!(matches!(next, Err(CollectionError::Stage("bad"))));
    collect.start();
    let next = collect.next_check::<&str, &str>(CheckReport::Outlet(Ok(())));
    assert!(matches!(next, Ok(CheckStep::Done)));
}

#[test]
fn a_policy_text_is_what_the_engine_is_given() {
    let engine = oso::Oso::new();
    let rule = "allow(\"guest\", \"read\", \"book\") if true;";
    let source = PolicySource::from_string(rule);
    match source.load_into() {
        PolicyLoad::Text(text) => {
            assert_eq!(text, rule);
            assert!(matches!(load_outcome(engine.load_str(text)), Ok(())));
        }
        other => panic!("unexpected {:?}", other),
    }
    assert!(engine.is_allowed("guest", "read", "book").unwrap());
    assert!(!engine.is_allowed("guest", "burn", "book").unwrap());

    let broken = PolicySource::from_string("allow(".to_string());
    match broken.load_into() {
        PolicyLoad::Text(text) => {
            assert!(matches!(load_outcome(engine.load_str(text)), Err(PolicyError::Refused(_))));
        }
        other => panic!("unexpected {:?}", other),
    }
}

#[test]
fn a_policy_in_a_file_is_given_by_its_path() {
    let source = PolicySource::from_path(PathBuf::from("rules.polar"));
    match source.load_into() {
        PolicyLoad::InFile(path) => assert_eq!(path, &PathBuf::from("rules.polar")),
        other => panic!("unexpected {:?}", other),
    }
    assert!(matches!(load_outcome(Ok(())), Ok(())));
}

#[test]
fn policy_commands_carry_the_channel_of_their_answer() {
    let (replace, mut rx) =
        PolicyFilterCmd::<u8>::replace_policy(PolicySource::from_string("a();"));
    match replace {
        PolicyFilterCmd::ReplacePolicy { new_policy: PolicySource::String(text), tx } => {
            assert_eq!(text, "a();");
            assert!(tx.send(()).is_ok());
        }
        other => panic!("unexpected {:?}", other),
    }
    assert!(rx.try_recv().is_ok());

    let (append, mut rx) = PolicyFilterCmd::<u8>::append_policy(PolicySource::from_string("b();"));
    match append {
        PolicyFilterCmd::AppendPolicy { policy: PolicySource::String(text), tx } => {
            assert_eq!(text, "b();");
            assert!(tx.send(()).is_ok());
        }
        other => panic!("unexpected {:?}", other),
    }
    assert!(rx.try_recv().is_ok());

    let (reset, mut rx) = PolicyFilterCmd::<u8>::reset_policy();
    match reset {
        PolicyFilterCmd::ResetPolicy(tx) => assert!(tx.send(()).is_ok()),
        other => panic!("unexpected {:?}", other),
    }
    assert!(rx.try_recv().is_ok());

    let (inspect, mut rx) = PolicyFilterCmd::<u8>::inspect();
    match inspect {
        PolicyFilterCmd::Inspect(tx) => {
            let detail = PolicyFilterDetail { name: "filter".to_string(), environment: Some(3) };
            assert!(tx.send(detail).is_ok());
        }
        other => panic!("unexpected {:?}", other),
    }
    let detail = rx.try_recv().unwrap();
    assert_eq!(detail.name, "filter");
    assert_eq!(detail.environment, Some(3));

    let event: PolicyFilterEvent<u8, u8> = PolicyFilterEvent::ItemBlocked(1);
    assert!(matches!(event.clone(), PolicyFilterEvent::ItemBlocked(1)));
}

#[test]
fn governance_errors_have_labels() {
    let port: GovernanceError<&str, u8, ()> = GovernanceError::Port("loose");
    assert_eq!(port.slug(), "governance");
    assert!(matches!(port.next(), NextLabel::Port(&"loose")));
    assert_eq!(port.message(), None);

    let telemetry: GovernanceError<&str, u8, ()> = GovernanceError::Telemetry(4);
    assert!(matches!(telemetry.next(), NextLabel::Telemetry(&4)));

    let binding: GovernanceError<&str, u8, ()> =
        GovernanceError::Binding { key: "k".to_string(), value: "v".to_string() };
    match binding.next() {
        NextLabel::Leaf(label) => assert_eq!(label, "binding"),
        other => panic!("unexpected {:?}", other),
    }
    assert_eq!(
        binding.message(),
        Some("failed to handle policy binding: k = v".to_string())
    );

    let stage: GovernanceError<&str, u8, ()> = GovernanceError::Stage(());
    match stage.next() {
        NextLabel::Leaf(label) => assert_eq!(label, "stage"),
        other => panic!("unexpected {:?}", other),
    }
}

#[test]
fn an_outlet_feeds_the_port_it_was_connected_to_last() {
    let (one, two) = (Inlet::new("same", 1), Inlet::new("same", 2));
    let outlet = Outlet::new("out", 0);
    let other = Outlet::new("out", 1);
    let mut links = Links::new();
    assert_eq!(links.peer(&outlet), None);
    assert!(!links.is_attached(&one));

    links.connect(&outlet, &one);
    links.connect(&other, &one);
    assert_eq!(links.peer(&outlet), Some(1));
    assert!(links.is_attached(&one));

    links.connect(&outlet.clone(), &two);
    assert_eq!(links.peer(&outlet), Some(2));
    assert_eq!(links.peer(&other), Some(1));
    assert!(links.is_attached(&one) && links.is_attached(&two));

    links.close(&other);
    assert_eq!(links.peer(&other), None);
    assert_eq!(links.peer(&outlet), Some(2));
    assert!(!links.is_attached(&one));
    links.close(&other);
    assert_eq!(links.peer(&outlet.clone()), Some(2));
    assert_eq!(one.clone().port, 1);
    assert_eq!(outlet.clone().name, "out");
}

#[test]
fn a_port_that_a_collection_handed_out_connects_the_collection() {
    let mut collect = Collect::new("c", "http://localhost/x", 5, |_| ());
    let outlet = collect.outlet();
    collect.links.connect(&outlet, &Inlet::new("in", 6));
    assert_eq!(collect.links.peer(&collect.outlet), Some(6));
    collect.links.close(&outlet);
    assert_eq!(collect.links.peer(&collect.outlet), None);
}
