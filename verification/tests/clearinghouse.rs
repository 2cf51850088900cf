use proctor::elements::telemetry::{FieldSet, TelemetryData};
use proctor::graph::{Inlet, Links, Outlet};
use proctor::phases::collection::clearinghouse::{
    Clearinghouse, ClearinghouseAction, ClearinghouseCmd, ClearinghouseEvent, ClearinghouseReply,
    ClearinghouseResp, Delivery, RunEvent, TelemetrySubscription,
};
use std::collections::HashMap;
use std::sync::mpsc;

fn fields(names: &[&str]) -> FieldSet {
    FieldSet::from_names(names.iter().map(|n| n.to_string()).collect())
}

fn data(entries: &[(&str, &str)]) -> TelemetryData {
    TelemetryData::from_data(entries.iter().map(|(k, v)| (k.to_string(), v.to_string())).collect())
}

fn subscription(name: &str, names: &[&str], outlet: &str, port: u64) -> TelemetrySubscription {
    TelemetrySubscription {
        name: name.to_string(),
        fields: fields(names),
        outlet_to_subscription: Outlet::new(outlet, port),
    }
}

/// The number of the inlet that the subscription at `i` is served at.
fn peer(clearinghouse: &Clearinghouse, i: usize) -> Option<u64> {
    clearinghouse.links.peer(&clearinghouse.subscriptions[i].outlet_to_subscription)
}

fn subscriptions() -> Vec<TelemetrySubscription> {
    vec![
        subscription("none", &[], "none_outlet", 0),
        subscription("cat_pos", &["pos", "cat"], "cat_pos_outlet", 1),
        subscription("all", &["pos", "cat", "value"], "all_outlet", 2),
    ]
}

fn db_rows() -> Vec<TelemetryData> {
    vec![
        data(&[("pos", "1"), ("cat", "Stella")]),
        data(&[("value", "3.14159"), ("cat", "Otis")]),
        data(&[("pos", "3"), ("cat", "Neo")]),
        data(&[("pos", "4"), ("value", "2.71828"), ("cat", "Apollo")]),
    ]
}

/// Carries out every command that waits and delivers the answers.
fn serve(clearinghouse: &mut Clearinghouse) {
    while let Ok(command) = clearinghouse.rx_api.try_recv() {
        match clearinghouse.step(ClearinghouseEvent::Command(command)) {
            ClearinghouseAction::Reply(reply) => {
                reply.deliver();
            }
            other => panic!("a command is answered, not {:?}", other),
        }
    }
}

fn send_command(clearinghouse: &mut Clearinghouse, command: ClearinghouseCmd) {
    let tx_api = clearinghouse.tx_api();
    assert!(tx_api.send(command).is_ok());
    serve(clearinghouse);
}

fn feed(clearinghouse: &mut Clearinghouse, data: TelemetryData) -> Vec<Delivery> {
    match clearinghouse.step(ClearinghouseEvent::Telemetry(Some(data))) {
        ClearinghouseAction::Publish(outgoing) => outgoing,
        other => panic!("telemetry is published, not {:?}", other),
    }
}

#[test]
fn test_create_with_subscriptions() {
    let mut clearinghouse = Clearinghouse::new("test", 0);
    assert!(clearinghouse.database.is_empty());
    assert!(clearinghouse.subscriptions.is_empty());
    assert!(clearinghouse.outlets.is_empty());
    assert_eq!(clearinghouse.name, "test");

    let sub1_inlet = Inlet::new("sub1", 1);
    assert!(!clearinghouse.links.is_attached(&clearinghouse.inlet));
    assert!(!clearinghouse.links.is_attached(&sub1_inlet));
    clearinghouse.add_subscription("sub1", fields(&["aaa", "bbb"]), &sub1_inlet);
    assert_eq!(clearinghouse.subscriptions.len(), 1);
    assert_eq!(clearinghouse.outlets.len(), 1);
    assert!(clearinghouse.links.is_attached(&sub1_inlet));
    assert!(!clearinghouse.links.is_attached(&clearinghouse.inlet));
}

#[test]
fn test_api_add_subscriptions() {
    let mut clearinghouse = Clearinghouse::new("test-clearinghouse", 0);
    let tick = data(&[("aaa", "17")]);
    assert!(feed(&mut clearinghouse, tick.clone()).is_empty());

    let (get_0, mut rx_get_0) = ClearinghouseCmd::get_clearinghouse_snapshot();
    send_command(&mut clearinghouse, get_0);
    let ClearinghouseResp::Snapshot { database: _, missing: _, subscriptions: subs_0 } =
        rx_get_0.try_recv().unwrap();
    assert_eq!(subs_0.len(), 0);

    let sub1_inlet = Inlet::new("sub1", 1);
    let (add_cmd, mut rx_add) =
        ClearinghouseCmd::subscribe("sub1", fields(&["aaa", "bbb"]), sub1_inlet.clone());
    send_command(&mut clearinghouse, add_cmd);
    assert_eq!(rx_add.try_recv().unwrap(), ());

    let (get_1, mut rx_get_1) = ClearinghouseCmd::get_clearinghouse_snapshot();
    send_command(&mut clearinghouse, get_1);
    let ClearinghouseResp::Snapshot { database: _, missing: _, subscriptions: subs_1 } =
        rx_get_1.try_recv().unwrap();
    assert_eq!(subs_1.len(), 1);

    assert!(feed(&mut clearinghouse, tick).is_empty());
    assert!(matches!(
        clearinghouse.step(ClearinghouseEvent::Telemetry(None)),
        ClearinghouseAction::Stop
    ));
}

#[test]
fn test_api_remove_subscriptions() {
    let mut clearinghouse = Clearinghouse::new("test-clearinghouse", 0);
    let tx_api = clearinghouse.tx_api();
    assert!(feed(&mut clearinghouse, data(&[("dr", "17")])).is_empty());

    let inlet_1 = Inlet::new("inlet_1", 1);
    let (add, mut rx_add) = ClearinghouseCmd::subscribe("sub1", fields(&["dr"]), inlet_1.clone());
    assert!(tx_api.send(add).is_ok());
    let (get_1, mut rx_get_1) = ClearinghouseCmd::get_clearinghouse_snapshot();
    assert!(tx_api.send(get_1).is_ok());
    serve(&mut clearinghouse);

    assert_eq!(rx_add.try_recv().unwrap(), ());
    let ClearinghouseResp::Snapshot { database: _, missing: _, subscriptions: subs1 } =
        rx_get_1.try_recv().unwrap();
    assert_eq!(subs1.len(), 1);

    let name_1 = &subs1[0].name;
    let (remove, mut rx_remove) = ClearinghouseCmd::unsubscribe(name_1);
    send_command(&mut clearinghouse, remove);
    assert_eq!(rx_remove.try_recv().unwrap(), ());

    let (get_2, mut rx_get_2) = ClearinghouseCmd::get_clearinghouse_snapshot();
    send_command(&mut clearinghouse, get_2);
    let ClearinghouseResp::Snapshot { database: _, missing: _, subscriptions: subs2 } =
        rx_get_2.try_recv().unwrap();
    assert_eq!(subs2.len(), 0);

    assert!(matches!(
        clearinghouse.step(ClearinghouseEvent::Telemetry(None)),
        ClearinghouseAction::Stop
    ));
}

#[test]
fn test_find_interested_subscriptions() {
    let subs = subscriptions();

    let actual = Clearinghouse::find_interested_subscriptions(&subs, FieldSet::default());
    assert_eq!(actual, Vec::<&TelemetrySubscription>::default());

    let actual = Clearinghouse::find_interested_subscriptions(&subs, fields(&["extra"]));
    assert_eq!(actual, Vec::<&TelemetrySubscription>::default());

    let actual = Clearinghouse::find_interested_subscriptions(&subs, fields(&["pos"]));
    assert_eq!(actual, vec![&subs[1], &subs[2]]);

    let actual = Clearinghouse::find_interested_subscriptions(&subs, fields(&["value"]));
    assert_eq!(actual, vec![&subs[2]]);

    let actual = Clearinghouse::find_interested_subscriptions(&subs, fields(&["pos", "cat"]));
    assert_eq!(actual, vec![&subs[1], &subs[2]]);

    let actual =
        Clearinghouse::find_interested_subscriptions(&subs, fields(&["pos", "value", "cat"]));
    assert_eq!(actual, vec![&subs[1], &subs[2]]);

    let actual = Clearinghouse::find_interested_subscriptions(
        &subs,
        fields(&["pos", "value", "cat", "extra"]),
    );
    assert_eq!(actual, vec![&subs[1], &subs[2]]);
}

#[test]
fn test_fulfill_subscription() {
    let subs = subscriptions();
    let expected: HashMap<String, Vec<Option<TelemetryData>>> = HashMap::from([
        (subs[0].name.clone(), vec![None, None, None, None]),
        (
            subs[1].name.clone(),
            vec![
                Some(data(&[("pos", "1"), ("cat", "Stella")])),
                None,
                Some(data(&[("pos", "3"), ("cat", "Neo")])),
                Some(data(&[("pos", "4"), ("cat", "Apollo")])),
            ],
        ),
        (
            subs[2].name.clone(),
            vec![
                None,
                None,
                None,
                Some(data(&[("pos", "4"), ("value", "2.71828"), ("cat", "Apollo")])),
            ],
        ),
    ]);

    for subscriber in 0..=2 {
        let sub = &subs[subscriber];
        let expected = &expected[&sub.name];
        for ((row, data_row), expected_row) in db_rows().iter().enumerate().zip(expected) {
            let actual = Clearinghouse::fulfill_subscription(&sub.fields, data_row);
            assert_eq!((subscriber, row, &actual), (subscriber, row, expected_row));
        }
    }
}

#[test]
fn test_push_to_subscribers() {
    let subs = subscriptions();
    let all_expected: HashMap<String, Vec<Option<TelemetryData>>> = HashMap::from([
        (subs[0].name.clone(), vec![None, None, None, None]),
        (
            subs[1].name.clone(),
            vec![
                Some(data(&[("pos", "1"), ("cat", "Stella")])),
                Some(data(&[("pos", "3"), ("cat", "Neo")])),
                Some(data(&[("pos", "4"), ("cat", "Apollo")])),
                None,
            ],
        ),
        (
            subs[2].name.clone(),
            vec![
                Some(data(&[("pos", "4"), ("value", "2.71828"), ("cat", "Apollo")])),
                None,
                None,
                None,
            ],
        ),
    ]);

    let subscribers: Vec<&TelemetrySubscription> = subs.iter().collect();
    let mut links = Links::new();
    let mut lines: HashMap<u64, mpsc::Sender<TelemetryData>> = HashMap::new();
    let mut sub_receivers = Vec::with_capacity(subs.len());
    for (port, s) in (10u64..).zip(subs.iter()) {
        let inlet = Inlet::new(format!("recv_from_{}", s.name), port);
        links.connect(&s.outlet_to_subscription, &inlet);
        let (line, receiver) = mpsc::channel();
        lines.insert(port, line);
        sub_receivers.push((s, receiver));
    }

    for db in db_rows().iter() {
        let statuses: Vec<Result<(), mpsc::SendError<TelemetryData>>> =
            Clearinghouse::push_to_subscribers(db, subscribers.clone())
                .into_iter()
                .map(|d| lines[&links.peer(&d.outlet).unwrap()].send(d.data))
                .collect();
        Clearinghouse::published(statuses).expect("failed to publish");
    }

    for s in subs.iter() {
        let outlet = s.outlet_to_subscription.clone();
        lines.remove(&links.peer(&outlet).unwrap());
        links.close(&outlet);
        assert_eq!(links.peer(&s.outlet_to_subscription), None);
    }

    for row in 0..db_rows().len() {
        for (sub, receiver) in sub_receivers.iter() {
            let sub_name = &sub.name;
            let expected = &all_expected[sub_name][row];
            let actual: Option<TelemetryData> = receiver.recv().ok();
            assert_eq!((row, sub_name, &actual), (row, sub_name, expected));
        }
    }
}

#[test]
fn subscribing_opens_a_port_of_the_subscriptions_name() {
    let mut clearinghouse = Clearinghouse::new("house", 0);
    let (add, _rx) = ClearinghouseCmd::subscribe("cats", fields(&["cat"]), Inlet::new("in", 9));
    send_command(&mut clearinghouse, add);
    assert_eq!(clearinghouse.subscriptions[0].name, "cats");
    assert_eq!(
        clearinghouse.subscriptions[0].outlet_to_subscription.name,
        "outlet_to_subscription_cats"
    );
    assert_eq!(peer(&clearinghouse, 0), Some(9));
    assert_eq!(clearinghouse.outlets[0].name, "outlet_to_subscription_cats");
    assert_eq!(clearinghouse.inlet.name, "house");
    assert_eq!(clearinghouse.name(), "house");
    assert_eq!(clearinghouse.inlet().port, 0);
    assert_eq!(clearinghouse.outlets().len(), 1);
}

#[test]
fn subscribers_wait_for_every_field_and_get_the_latest_values() {
    let mut clearinghouse = Clearinghouse::new("house", 0);
    clearinghouse.add_subscription("both", fields(&["a", "b"]), &Inlet::new("both", 1));
    clearinghouse.add_subscription("just_b", fields(&["b"]), &Inlet::new("just_b", 2));

    assert!(feed(&mut clearinghouse, data(&[("a", "1")])).is_empty());

    let sent = feed(&mut clearinghouse, data(&[("b", "2"), ("c", "x")]));
    assert_eq!(sent.len(), 2);
    assert_eq!(sent[0].subscription, "both");
    assert_eq!(clearinghouse.links.peer(&sent[0].outlet), Some(1));
    assert_eq!(clearinghouse.links.peer(&sent[1].outlet), Some(2));
    assert_eq!(sent[0].data, data(&[("a", "1"), ("b", "2")]));
    assert_eq!(sent[1].subscription, "just_b");
    assert_eq!(sent[1].data, data(&[("b", "2")]));

    let sent = feed(&mut clearinghouse, data(&[("a", "3")]));
    assert_eq!(sent.len(), 1);
    assert_eq!(sent[0].data, data(&[("b", "2"), ("a", "3")]));

    assert!(feed(&mut clearinghouse, data(&[("c", "y")])).is_empty());
    assert!(feed(&mut clearinghouse, TelemetryData::new()).is_empty());
    assert_eq!(clearinghouse.database, data(&[("a", "3"), ("b", "2"), ("c", "y")]));
    assert_eq!(clearinghouse.subscriptions.len(), 2);
}

#[test]
fn unsubscribing_takes_the_first_of_the_name_and_keeps_its_port() {
    let mut clearinghouse = Clearinghouse::new("house", 0);
    clearinghouse.add_subscription("twin", fields(&["a"]), &Inlet::new("one", 1));
    clearinghouse.add_subscription("other", fields(&["a"]), &Inlet::new("two", 2));
    clearinghouse.add_subscription("twin", fields(&["b"]), &Inlet::new("three", 3));

    let (remove, mut rx) = ClearinghouseCmd::unsubscribe("twin");
    send_command(&mut clearinghouse, remove);
    assert!(rx.try_recv().is_ok());
    let left: Vec<(&str, Option<u64>)> = clearinghouse
        .subscriptions
        .iter()
        .map(|s| (s.name.as_str(), clearinghouse.links.peer(&s.outlet_to_subscription)))
        .collect();
    assert_eq!(left, vec![("other", Some(2)), ("twin", Some(3))]);
    assert_eq!(clearinghouse.outlets.len(), 3);

    let (remove, mut rx) = ClearinghouseCmd::unsubscribe("nobody");
    send_command(&mut clearinghouse, remove);
    assert!(rx.try_recv().is_ok());
    assert_eq!(clearinghouse.subscriptions.len(), 2);
}

#[test]
fn subscribing_and_unsubscribing_leaves_the_subscriptions_as_they_were() {
    let mut clearinghouse = Clearinghouse::new("house", 0);
    clearinghouse.add_subscription("kept", fields(&["a"]), &Inlet::new("kept", 1));
    let before = clearinghouse.subscriptions.clone();
    let (add, _rx) = ClearinghouseCmd::subscribe("brief", fields(&["a"]), Inlet::new("brief", 2));
    send_command(&mut clearinghouse, add);
    let (remove, _rx) = ClearinghouseCmd::unsubscribe("brief");
    send_command(&mut clearinghouse, remove);
    assert_eq!(clearinghouse.subscriptions, before);
    assert_eq!(clearinghouse.outlets.len(), 2);
    for s in clearinghouse.subscriptions.iter() {
        assert!(clearinghouse.outlets.iter().any(|o| o.name == s.outlet_to_subscription.name
            && o.port == s.outlet_to_subscription.port));
    }
}

#[test]
fn snapshots_show_the_whole_or_the_part_of_a_subscription() {
    let mut clearinghouse = Clearinghouse::new("house", 0);
    clearinghouse.add_subscription("pair", fields(&["a", "b"]), &Inlet::new("pair", 1));
    clearinghouse.add_subscription("single", fields(&["c"]), &Inlet::new("single", 2));
    feed(&mut clearinghouse, data(&[("a", "1"), ("c", "3")]));

    let (get, mut rx) = ClearinghouseCmd::get_subscription_snapshot("pair");
    send_command(&mut clearinghouse, get);
    let ClearinghouseResp::Snapshot { database, missing, subscriptions } = rx.try_recv().unwrap();
    assert_eq!(database, data(&[("a", "1")]));
    assert_eq!(missing, fields(&["a"]));
    assert_eq!(subscriptions.len(), 1);
    assert_eq!(subscriptions[0], clearinghouse.subscriptions[0]);

    for (get, mut rx) in [
        ClearinghouseCmd::get_subscription_snapshot("nobody"),
        ClearinghouseCmd::get_clearinghouse_snapshot(),
    ] {
        send_command(&mut clearinghouse, get);
        let ClearinghouseResp::Snapshot { database, missing, subscriptions } =
            rx.try_recv().unwrap();
        assert_eq!(database, data(&[("a", "1"), ("c", "3")]));
        assert!(missing.is_empty());
        assert_eq!(subscriptions, clearinghouse.subscriptions);
    }
    assert_eq!(clearinghouse.database, data(&[("a", "1"), ("c", "3")]));
}

#[test]
fn answers_go_to_the_channel_of_their_command() {
    let (ask_1, mut rx_1) = ClearinghouseCmd::get_clearinghouse_snapshot();
    let (ask_2, mut rx_2) = ClearinghouseCmd::get_clearinghouse_snapshot();
    let mut clearinghouse = Clearinghouse::new("house", 0);
    send_command(&mut clearinghouse, ask_2);
    assert!(rx_1.try_recv().is_err());
    assert!(rx_2.try_recv().is_ok());
    send_command(&mut clearinghouse, ask_1);
    assert!(rx_1.try_recv().is_ok());
}

#[test]
fn an_answer_that_nobody_waits_for_is_not_delivered() {
    let mut clearinghouse = Clearinghouse::new("house", 0);
    let (ask, rx) = ClearinghouseCmd::get_clearinghouse_snapshot();
    drop(rx);
    match clearinghouse.step(ClearinghouseEvent::Command(ask)) {
        ClearinghouseAction::Reply(reply) => assert!(!reply.deliver()),
        other => panic!("unexpected {:?}", other),
    }
    let (remove, mut rx) = ClearinghouseCmd::unsubscribe("x");
    match clearinghouse.step(ClearinghouseEvent::Command(remove)) {
        ClearinghouseAction::Reply(reply) => {
            assert!(matches!(reply, ClearinghouseReply::Ack { .. }));
            assert!(reply.deliver());
        }
        other => panic!("unexpected {:?}", other),
    }
    assert!(rx.try_recv().is_ok());
}

#[test]
fn commands_reach_the_clearinghouse_whose_handle_they_took() {
    let mut first = Clearinghouse::new("first", 0);
    let mut second = Clearinghouse::new("second", 1);
    let (remove, _rx) = ClearinghouseCmd::unsubscribe("x");
    assert!(first.tx_api().send(remove).is_ok());
    assert!(second.rx_api.try_recv().is_err());
    assert!(first.rx_api.try_recv().is_ok());
}

#[test]
fn a_closed_clearinghouse_stops() {
    let mut clearinghouse = Clearinghouse::new("house", 0);
    assert!(matches!(
        clearinghouse.step(ClearinghouseEvent::Closed),
        ClearinghouseAction::Stop
    ));
}

#[test]
fn sending_ends_with_the_first_failure() {
    assert_eq!(Clearinghouse::published::<u8>(vec![]), Ok(()));
    assert_eq!(Clearinghouse::published::<u8>(vec![Ok(()), Ok(())]), Ok(()));
    assert_eq!(Clearinghouse::published(vec![Ok(()), Err(7), Ok(()), Err(8)]), Err(7));
}

#[test]
fn dried_up_sources_leave_the_database_alone() {
    let subs = subscriptions();
    let mut database = data(&[("a", "1")]);
    assert!(Clearinghouse::handle_telemetry_data(None, &subs, &mut database).is_none());
    assert_eq!(database, data(&[("a", "1")]));
    let sent =
        Clearinghouse::handle_telemetry_data(Some(data(&[("pos", "5"), ("cat", "Tom")])), &subs, &mut database)
            .unwrap();
    assert_eq!(sent.len(), 1);
    assert_eq!(sent[0].subscription, "cat_pos");
    assert_eq!(database, data(&[("a", "1"), ("pos", "5"), ("cat", "Tom")]));
}

#[test]
fn subscriptions_are_compared_by_name_and_fields() {
    let one = subscription("s", &["a", "b"], "x", 1);
    let two = subscription("s", &["b", "a", "a"], "y", 2);
    let three = subscription("s", &["a"], "x", 1);
    assert_eq!(one, two);
    assert!(one != three);
    assert!(one != subscription("t", &["a", "b"], "x", 1));
    assert_eq!(one.clone(), one);
}

#[test]
fn the_same_data_twice_leave_the_database_as_once() {
    let mut clearinghouse = Clearinghouse::new("house", 0);
    clearinghouse.add_subscription("a", fields(&["a"]), &Inlet::new("a", 1));
    let first = feed(&mut clearinghouse, data(&[("a", "1"), ("b", "2")]));
    let once = clearinghouse.database.clone();
    let second = feed(&mut clearinghouse, data(&[("a", "1"), ("b", "2")]));
    assert_eq!(clearinghouse.database, once);
    assert_eq!(first.len(), 1);
    assert_eq!(second.len(), 1);
    assert_eq!(first[0].data, second[0].data);
}

#[test]
fn commands_leave_the_database_alone() {
    let mut clearinghouse = Clearinghouse::new("house", 0);
    feed(&mut clearinghouse, data(&[("a", "1")]));
    let (add, _rx) = ClearinghouseCmd::subscribe("s", fields(&["a"]), Inlet::new("s", 1));
    send_command(&mut clearinghouse, add);
    let (get, _rx) = ClearinghouseCmd::get_subscription_snapshot("s");
    send_command(&mut clearinghouse, get);
    let (remove, _rx) = ClearinghouseCmd::unsubscribe("s");
    send_command(&mut clearinghouse, remove);
    assert_eq!(clearinghouse.database, data(&[("a", "1")]));
}

#[test]
fn a_new_subscription_stands_in_the_next_snapshots() {
    let mut clearinghouse = Clearinghouse::new("house", 0);
    clearinghouse.add_subscription("old", fields(&["a"]), &Inlet::new("old", 1));
    let (add, _rx) = ClearinghouseCmd::subscribe("new", fields(&["b"]), Inlet::new("new", 2));
    send_command(&mut clearinghouse, add);

    let (get, mut rx) = ClearinghouseCmd::get_clearinghouse_snapshot();
    send_command(&mut clearinghouse, get);
    let ClearinghouseResp::Snapshot { subscriptions, .. } = rx.try_recv().unwrap();
    let names: Vec<&str> = subscriptions.iter().map(|s| s.name.as_str()).collect();
    assert_eq!(names, vec!["old", "new"]);

    let (get, mut rx) = ClearinghouseCmd::get_subscription_snapshot("new");
    send_command(&mut clearinghouse, get);
    let ClearinghouseResp::Snapshot { subscriptions, .. } = rx.try_recv().unwrap();
    assert_eq!(subscriptions.len(), 1);
    assert_eq!(subscriptions[0].fields, fields(&["b"]));
    assert_eq!(clearinghouse.links.peer(&subscriptions[0].outlet_to_subscription), Some(2));
}

#[test]
fn a_focused_snapshot_shows_what_the_subscriber_was_sent() {
    let mut clearinghouse = Clearinghouse::new("house", 0);
    clearinghouse.add_subscription("pair", fields(&["a", "b"]), &Inlet::new("pair", 1));
    let sent = feed(&mut clearinghouse, data(&[("a", "1"), ("b", "2"), ("c", "3")]));
    let (get, mut rx) = ClearinghouseCmd::get_subscription_snapshot("pair");
    send_command(&mut clearinghouse, get);
    let ClearinghouseResp::Snapshot { database, missing, .. } = rx.try_recv().unwrap();
    assert_eq!(database, sent[0].data);
    assert_eq!(missing, database.keys());
}

#[test]
fn a_command_to_a_dropped_clearinghouse_comes_back() {
    let clearinghouse = Clearinghouse::new("house", 0);
    let tx_api = clearinghouse.tx_api();
    drop(clearinghouse);
    let (get, _rx) = ClearinghouseCmd::get_clearinghouse_snapshot();
    assert!(tx_api.send(get).is_err());
}

#[test]
fn a_run_ends_well_when_the_sources_dry_up() {
    let mut clearinghouse = Clearinghouse::new("house", 0);
    clearinghouse.add_subscription("a", fields(&["a"]), &Inlet::new("a", 1));
    let mut ended: Option<Result<(), &str>> = None;

    let event = ClearinghouseEvent::Telemetry(Some(data(&[("a", "1")])));
    match clearinghouse.proceed(&mut ended, RunEvent::Happened(event)) {
        Some(ClearinghouseAction::Publish(outgoing)) => assert_eq!(outgoing.len(), 1),
        other => panic!("unexpected {:?}", other),
    }
    assert_eq!(ended, None);
    assert!(clearinghouse.proceed(&mut ended, RunEvent::Sent(vec![Ok(())])).is_none());
    assert_eq!(ended, None);

    let (remove, _rx) = ClearinghouseCmd::unsubscribe("a");
    let event = ClearinghouseEvent::Command(remove);
    assert!(matches!(
        clearinghouse.proceed(&mut ended, RunEvent::Happened(event)),
        Some(ClearinghouseAction::Reply(_))
    ));
    assert_eq!(ended, None);

    let event = ClearinghouseEvent::Telemetry(None);
    assert!(matches!(
        clearinghouse.proceed(&mut ended, RunEvent::Happened(event)),
        Some(ClearinghouseAction::Stop)
    ));
    assert_eq!(ended, Some(Ok(())));
}

#[test]
fn a_run_ends_with_the_first_failed_delivery_and_takes_nothing_in_after() {
    let mut clearinghouse = Clearinghouse::new("house", 0);
    let mut ended = None;
    let statuses = vec![Ok(()), Err("first"), Err("second")];
    assert!(clearinghouse.proceed(&mut ended, RunEvent::Sent(statuses)).is_none());
    assert_eq!(ended, Some(Err("first")));

    let event = ClearinghouseEvent::Telemetry(Some(data(&[("a", "1")])));
    assert!(clearinghouse.proceed(&mut ended, RunEvent::Happened(event)).is_none());
    let (add, mut rx) = ClearinghouseCmd::subscribe("s", fields(&["a"]), Inlet::new("s", 1));
    let event = ClearinghouseEvent::Command(add);
    assert!(clearinghouse.proceed(&mut ended, RunEvent::Happened(event)).is_none());
    assert!(clearinghouse.proceed(&mut ended, RunEvent::Sent(vec![Err("third")])).is_none());

    assert!(clearinghouse.database.is_empty());
    assert!(clearinghouse.subscriptions.is_empty());
    assert!(rx.try_recv().is_err());
    assert_eq!(ended, Some(Err("first")));
}

#[test]
fn a_closed_run_ends_well() {
    let mut clearinghouse = Clearinghouse::new("house", 0);
    let mut ended: Option<Result<(), u8>> = None;
    let event = RunEvent::Happened(ClearinghouseEvent::Closed);
    assert!(matches!(
        clearinghouse.proceed(&mut ended, event),
        Some(ClearinghouseAction::Stop)
    ));
    assert_eq!(ended, Some(Ok(())));
}

#[test]
fn adding_directly_and_subscribing_by_command_have_the_same_effect() {
    let mut direct = Clearinghouse::new("direct", 0);
    let mut told = Clearinghouse::new("told", 1);
    let receiver = Inlet::new("in", 7);
    direct.add_subscription("s".to_string(), fields(&["a", "b"]), &receiver);
    let (add, _rx) = ClearinghouseCmd::subscribe("s", fields(&["a", "b"]), receiver.clone());
    send_command(&mut told, add);
    assert_eq!(direct.subscriptions, told.subscriptions);
    assert_eq!(direct.outlets.len(), told.outlets.len());
    assert_eq!(direct.outlets[0].name, "outlet_to_subscription_s");
    assert_eq!(told.outlets[0].name, "outlet_to_subscription_s");
    assert_eq!(direct.links.peer(&direct.outlets[0]), Some(7));
    assert_eq!(told.links.peer(&told.outlets[0]), Some(7));
}

#[test]
fn a_listed_port_is_the_subscriptions_own() {
    let mut clearinghouse = Clearinghouse::new("house", 0);
    clearinghouse.add_subscription("a", fields(&["a"]), &Inlet::new("a", 1));
    clearinghouse.add_subscription("b", fields(&["a"]), &Inlet::new("b", 2));
    let listed = clearinghouse.outlets()[0].clone();
    clearinghouse.links.connect(&listed, &Inlet::new("new", 3));
    let sent = feed(&mut clearinghouse, data(&[("a", "1")]));
    assert_eq!(clearinghouse.links.peer(&sent[0].outlet), Some(3));
    assert_eq!(clearinghouse.links.peer(&sent[1].outlet), Some(2));

    clearinghouse.links.close(&clearinghouse.outlets[1].clone());
    assert_eq!(peer(&clearinghouse, 0), Some(3));
    assert_eq!(peer(&clearinghouse, 1), None);
}

#[test]
fn ports_stay_connected_and_are_numbered_in_order() {
    let mut clearinghouse = Clearinghouse::new("house", 0);
    clearinghouse.add_subscription("a", fields(&["a"]), &Inlet::new("a", 7));
    let (remove, _rx) = ClearinghouseCmd::unsubscribe("a");
    send_command(&mut clearinghouse, remove);
    let (add, _rx) = ClearinghouseCmd::subscribe("a", fields(&["b"]), Inlet::new("again", 8));
    send_command(&mut clearinghouse, add);
    feed(&mut clearinghouse, data(&[("a", "1")]));

    let numbers: Vec<u64> = clearinghouse.outlets.iter().map(|o| o.port).collect();
    assert_eq!(numbers, vec![0, 1]);
    assert_eq!(clearinghouse.links.peer(&clearinghouse.outlets[0]), Some(7));
    assert_eq!(clearinghouse.links.peer(&clearinghouse.outlets[1]), Some(8));
    assert_eq!(peer(&clearinghouse, 0), Some(8));
}
