//! What holds of every clearinghouse, whatever happens to it.

use vstd::prelude::*;

use super::model::{ClearinghouseView, CommandView, DeliveryView, EventView, SubscriptionView, Text};

verus! {

/// A subscriber is sent something if and only if it asked for a field and every
/// field that it asked for has a value, and then it is sent those fields with
/// the values of the database, and no others.
pub proof fn law_served_in_full(subscription: SubscriptionView, database: Map<Text, Text>)
    ensures
        subscription.delivery(database) is Some <==> {
            &&& exists|f: Text| subscription.fields.contains(f)
            &&& forall|f: Text| #[trigger]
                subscription.fields.contains(f) ==> database.contains_key(f)
        },
        subscription.delivery(database) matches Some(d) ==> {
            &&& d.subscription == subscription.name
            &&& d.outlet == subscription.outlet
            &&& d.data.dom() == subscription.fields
            &&& forall|f: Text| #[trigger] d.data.contains_key(f) ==> d.data[f] == database[f]
        },
{
    if forall|f: Text| !subscription.fields.contains(f) {
        assert(subscription.fields =~= Set::<Text>::empty());
    }
}

/// What each subscriber is sent out of `database` when the fields `changed`
/// change: nothing, unless the change concerns it.
pub open spec fn served(changed: Set<Text>, database: Map<Text, Text>) -> spec_fn(
    SubscriptionView,
) -> Option<DeliveryView> {
    |s: SubscriptionView|
        if s.interested_in(changed) {
            s.delivery(database)
        } else {
            None
        }
}

/// Who is sent what, in which order: the subscriptions are gone through in
/// order, and each that the data concern is served out of the updated database.
pub proof fn law_published_in_order(state: ClearinghouseView, data: Map<Text, Text>)
    ensures
        state.published(data) == state.subscriptions.filter_map(
            served(data.dom(), state.after_telemetry(data).database),
        ),
{
    lemma_filter_then_serve(
        state.subscriptions,
        data.dom(),
        state.after_telemetry(data).database,
    );
}

/// Choosing the concerned ones first and serving them then is the same as doing
/// both at once.
proof fn lemma_filter_then_serve(
    subscriptions: Seq<SubscriptionView>,
    changed: Set<Text>,
    database: Map<Text, Text>,
)
    ensures
        super::model::deliveries(super::model::interested(subscriptions, changed), database)
            == subscriptions.filter_map(served(changed, database)),
    decreases subscriptions.len(),
{
    reveal(Seq::filter);
    let concerned = |s: SubscriptionView| s.interested_in(changed);
    if subscriptions.len() > 0 {
        let front = subscriptions.drop_last();
        let last = subscriptions.last();
        lemma_filter_then_serve(front, changed, database);
        if concerned(last) {
            let chosen = front.filter(concerned);
            assert(chosen.push(last).drop_last() =~= chosen);
        }
    }
}

/// Nobody is sent anything but subscribers that the data concern.
pub proof fn law_nobody_else_is_served(
    state: ClearinghouseView,
    data: Map<Text, Text>,
    delivery: DeliveryView,
)
    requires
        state.published(data).contains(delivery),
    ensures
        exists|i: int|
            {
                &&& 0 <= i < state.subscriptions.len()
                &&& (#[trigger] state.subscriptions[i]).interested_in(data.dom())
                &&& state.subscriptions[i].delivery(state.after_telemetry(data).database) == Some(
                    delivery,
                )
            },
{
    law_published_in_order(state, data);
    lemma_served_from(
        state.subscriptions,
        served(data.dom(), state.after_telemetry(data).database),
        delivery,
    );
}

/// What a list is turned into comes from one of its members.
proof fn lemma_served_from(
    list: Seq<SubscriptionView>,
    sends: spec_fn(SubscriptionView) -> Option<DeliveryView>,
    delivery: DeliveryView,
)
    ensures
        list.filter_map(sends).contains(delivery) <==> exists|i: int|
            0 <= i < list.len() && sends(#[trigger] list[i]) == Some(delivery),
    decreases list.len(),
{
    if list.len() > 0 {
        let front = list.drop_last();
        lemma_served_from(front, sends, delivery);
        let before = front.filter_map(sends);
        let after = list.filter_map(sends);
        if before.contains(delivery) {
            let k = choose|k: int| 0 <= k < before.len() && before[k] == delivery;
            assert(after[k] == delivery);
        }
        if sends(list.last()) == Some(delivery) {
            assert(after[after.len() - 1] == delivery);
        }
        if exists|i: int| 0 <= i < list.len() && sends(#[trigger] list[i]) == Some(delivery) {
            let i = choose|i: int| 0 <= i < list.len() && sends(#[trigger] list[i]) == Some(delivery);
            if i < front.len() {
                assert(front[i] == list[i]);
            }
        }
    }
}

/// Every subscriber that the data concern is sent its fields, if all of them
/// have a value by then.
pub proof fn law_everyone_concerned_is_served(
    state: ClearinghouseView,
    data: Map<Text, Text>,
    i: int,
)
    requires
        0 <= i < state.subscriptions.len(),
        state.subscriptions[i].interested_in(data.dom()),
        state.subscriptions[i].delivery(state.after_telemetry(data).database) is Some,
    ensures
        state.published(data).contains(
            state.subscriptions[i].delivery(state.after_telemetry(data).database)->Some_0,
        ),
{
    law_published_in_order(state, data);
    let database = state.after_telemetry(data).database;
    lemma_served_from(
        state.subscriptions,
        served(data.dom(), database),
        state.subscriptions[i].delivery(database)->Some_0,
    );
}

/// What is sent out is up to date: a field that the data hold is sent with the
/// value that they hold, any other with the value known before.
pub proof fn law_published_values_are_current(
    state: ClearinghouseView,
    data: Map<Text, Text>,
    delivery: DeliveryView,
    field: Text,
)
    requires
        state.published(data).contains(delivery),
        delivery.data.contains_key(field),
    ensures
        data.contains_key(field) ==> delivery.data[field] == data[field],
        !data.contains_key(field) ==> state.database.contains_key(field) && delivery.data[field]
            == state.database[field],
{
    law_nobody_else_is_served(state, data, delivery);
}

/// Data without a field are sent to nobody.
pub proof fn law_no_change_no_news(state: ClearinghouseView)
    ensures
        state.published(Map::empty()) == Seq::<DeliveryView>::empty(),
        state.after_telemetry(Map::empty()) == state,
{
    let none = Map::<Text, Text>::empty();
    if state.published(none).len() > 0 {
        let delivery = state.published(none)[0];
        law_nobody_else_is_served(state, none, delivery);
    }
    assert(state.after_telemetry(none).database =~= state.database);
}

/// Telemetry changes the database alone.
pub proof fn law_telemetry_keeps_subscriptions(state: ClearinghouseView, data: Map<Text, Text>)
    ensures
        state.after_telemetry(data).subscriptions == state.subscriptions,
        state.after_telemetry(data).outlets == state.outlets,
        state.after_telemetry(data).links == state.links,
{
}

/// Commands change subscriptions alone.
pub proof fn law_commands_keep_the_database(state: ClearinghouseView, command: CommandView)
    ensures
        state.after_command(command).database == state.database,
{
}

/// Data that come in twice in a row leave the database as the first time did.
pub proof fn law_same_data_twice(state: ClearinghouseView, data: Map<Text, Text>)
    ensures
        state.after_telemetry(data).after_telemetry(data) == state.after_telemetry(data),
{
    assert(state.after_telemetry(data).after_telemetry(data).database =~= state.after_telemetry(
        data,
    ).database);
}

/// A subscriber that could be served once can be served after any telemetry.
pub proof fn law_fulfilled_stays_fulfilled(
    subscription: SubscriptionView,
    state: ClearinghouseView,
    data: Map<Text, Text>,
)
    requires
        subscription.delivery(state.database) is Some,
    ensures
        subscription.delivery(state.after_telemetry(data).database) is Some,
{
}

/// To add a subscription to a clearinghouse directly and to send it the command
/// to subscribe have the same effect: what two clearinghouses have in common of
/// subscriptions and ports, they have in common after the one and the other, and
/// the last port is the new one, connected to the receiver.
pub proof fn law_adding_is_subscribing(
    direct: ClearinghouseView,
    commanded: ClearinghouseView,
    name: Text,
    fields: Set<Text>,
    receiver: u64,
)
    requires
        direct.subscriptions == commanded.subscriptions,
        direct.outlets == commanded.outlets,
    ensures
        ({
            let added = direct.subscribed(name, fields, receiver);
            let told = commanded.after_command(CommandView::Subscribe { name, fields, receiver });
            &&& added.subscriptions == told.subscriptions
            &&& added.outlets == told.outlets
            &&& added.outlets.last().name == super::model::outlet_name(name)
            &&& added.links.get(added.outlets.last().port) == Some(receiver)
            &&& told.links.get(told.outlets.last().port) == Some(receiver)
            &&& direct.links == commanded.links ==> added.links == told.links
            &&& added.database == direct.database
            &&& told.database == commanded.database
        }),
{
}

/// Ending a subscription that was just made, under a name that was free, leaves
/// the subscriptions and the database as they were; only the port stays listed,
/// and connected.
pub proof fn law_unsubscribe_undoes_subscribe(
    state: ClearinghouseView,
    name: Text,
    fields: Set<Text>,
    receiver: u64,
)
    requires
        forall|i: int|
            0 <= i < state.subscriptions.len() ==> (#[trigger] state.subscriptions[i]).name != name,
    ensures
        state.after_command(CommandView::Subscribe { name, fields, receiver }).after_command(
            CommandView::Unsubscribe { name },
        ) == (ClearinghouseView {
            outlets: state.outlets.push(state.newcomer(name, fields).outlet),
            links: state.links.insert(state.newcomer(name, fields).outlet.port, receiver),
            ..state
        }),
{
    let joined = state.after_command(CommandView::Subscribe { name, fields, receiver });
    let n = state.subscriptions.len() as int;
    super::model::lemma_find(joined.subscriptions, name, n);
    assert(joined.subscriptions.remove(n) =~= state.subscriptions);
}

/// Ending a subscription that does not exist changes nothing.
pub proof fn law_unsubscribe_unknown_name(state: ClearinghouseView, name: Text)
    requires
        forall|i: int|
            0 <= i < state.subscriptions.len() ==> (#[trigger] state.subscriptions[i]).name != name,
    ensures
        state.after_command(CommandView::Unsubscribe { name }) == state,
{
    super::model::lemma_find_none(state.subscriptions, name);
}

/// Ending a subscription takes out one entry, the earliest of that name, and
/// keeps the others in their order.
pub proof fn law_unsubscribe_takes_the_first(state: ClearinghouseView, name: Text, i: int)
    requires
        0 <= i < state.subscriptions.len(),
        state.subscriptions[i].name == name,
        forall|j: int| 0 <= j < i ==> (#[trigger] state.subscriptions[j]).name != name,
    ensures
        state.after_command(CommandView::Unsubscribe { name }) == (ClearinghouseView {
            subscriptions: state.subscriptions.take(i) + state.subscriptions.skip(i + 1),
            ..state
        }),
{
    super::model::lemma_find(state.subscriptions, name, i);
    assert(state.subscriptions.remove(i) =~= state.subscriptions.take(i)
        + state.subscriptions.skip(i + 1));
}

/// Asking for a snapshot changes nothing.
pub proof fn law_snapshots_only_read(state: ClearinghouseView, name: Option<Text>)
    ensures
        state.after_command(CommandView::GetSnapshot { name }) == state,
{
}

/// A snapshot that is asked for under a name that no subscription has is the
/// snapshot of all there is.
pub proof fn law_unknown_name_gets_the_whole(state: ClearinghouseView, name: Text)
    requires
        forall|i: int|
            0 <= i < state.subscriptions.len() ==> (#[trigger] state.subscriptions[i]).name != name,
    ensures
        state.snapshot(Some(name)) == state.snapshot(None),
        state.snapshot(None).database == state.database,
        state.snapshot(None).missing == Set::<Text>::empty(),
        state.snapshot(None).subscriptions == state.subscriptions,
{
    super::model::lemma_find_none(state.subscriptions, name);
}

/// A new subscription stands in the next snapshot, after those that were there;
/// where its name was free, a snapshot under that name is about it alone.
pub proof fn law_subscription_shows_in_snapshot(
    state: ClearinghouseView,
    name: Text,
    fields: Set<Text>,
    receiver: u64,
)
    ensures
        state.after_command(CommandView::Subscribe { name, fields, receiver }).snapshot(
            None,
        ).subscriptions == state.snapshot(None).subscriptions.push(
            state.newcomer(name, fields),
        ),
        (forall|i: int|
            0 <= i < state.subscriptions.len() ==> (#[trigger] state.subscriptions[i]).name != name)
            ==> state.after_command(CommandView::Subscribe { name, fields, receiver }).snapshot(
            Some(name),
        ).subscriptions == seq![state.newcomer(name, fields)],
{
    let joined = state.after_command(CommandView::Subscribe { name, fields, receiver });
    if forall|i: int|
        0 <= i < state.subscriptions.len() ==> (#[trigger] state.subscriptions[i]).name != name {
        let n = state.subscriptions.len() as int;
        super::model::lemma_find(joined.subscriptions, name, n);
    }
}

/// A snapshot under the name of a subscription shows the known values of its
/// fields; where the subscriber can be served, that is what it is sent.
pub proof fn law_snapshot_agrees_with_delivery(state: ClearinghouseView, name: Text, i: int)
    requires
        super::model::is_first(state.subscriptions, name, i),
    ensures
        state.snapshot(Some(name)).subscriptions == seq![state.subscriptions[i]],
        forall|f: Text| #[trigger]
            state.snapshot(Some(name)).database.contains_key(f) <==> state.database.contains_key(f)
                && state.subscriptions[i].fields.contains(f),
        forall|f: Text| #[trigger]
            state.snapshot(Some(name)).database.contains_key(f) ==> state.snapshot(
                Some(name),
            ).database[f] == state.database[f],
        state.snapshot(Some(name)).missing == state.snapshot(Some(name)).database.dom(),
        state.subscriptions[i].delivery(state.database) matches Some(d) ==> d.data
            == state.snapshot(Some(name)).database,
{
    super::model::lemma_find(state.subscriptions, name, i);
}

/// The list of ports only grows, at its end.
pub proof fn law_outlets_only_grow(state: ClearinghouseView, events: Seq<EventView>)
    ensures
        state.outlets.is_prefix_of(state.after_all(events).outlets),
    decreases events.len(),
{
    if events.len() > 0 {
        law_outlets_only_grow(state, events.drop_last());
    }
}

/// Whether the port of every subscription is listed.
pub open spec fn every_port_listed(state: ClearinghouseView) -> bool {
    forall|i: int|
        0 <= i < state.subscriptions.len() ==> state.outlets.contains(
            (#[trigger] state.subscriptions[i]).outlet,
        )
}

/// The port of every subscription is listed, whatever has happened since the
/// clearinghouse was empty.
pub proof fn law_every_port_is_listed(events: Seq<EventView>)
    ensures
        every_port_listed(ClearinghouseView::empty().after_all(events)),
    decreases events.len(),
{
    if events.len() > 0 {
        law_every_port_is_listed(events.drop_last());
        let before = ClearinghouseView::empty().after_all(events.drop_last());
        law_each_event_keeps_ports_listed(before, events.last());
    }
}

/// Where the port of every subscription is listed, it is so after any event.
pub proof fn law_each_event_keeps_ports_listed(state: ClearinghouseView, event: EventView)
    requires
        every_port_listed(state),
    ensures
        every_port_listed(state.after(event)),
{
    let next = state.after(event);
    assert forall|i: int| 0 <= i < next.subscriptions.len() implies next.outlets.contains(
        (#[trigger] next.subscriptions[i]).outlet,
    ) by {
        if let EventView::Command(CommandView::Subscribe { .. }) = event {
            if i < state.subscriptions.len() {
                let k = choose|k: int|
                    0 <= k < state.outlets.len() && state.outlets[k]
                        == state.subscriptions[i].outlet;
                assert(next.outlets[k] == state.outlets[k]);
            } else {
                assert(next.outlets[state.outlets.len() as int] == next.subscriptions[i].outlet);
            }
        }
    }
}

/// Whether the ports are numbered by their place in the list.
pub open spec fn numbered(state: ClearinghouseView) -> bool {
    forall|i: int| 0 <= i < state.outlets.len() ==> (#[trigger] state.outlets[i]).port == i
}

/// The ports are numbered by their place in the list, so that no two share a
/// number, whatever has happened since the clearinghouse was empty. Numbers are
/// machine integers, which bounds what can have happened.
pub proof fn law_ports_are_numbered(events: Seq<EventView>)
    requires
        events.len() <= u64::MAX,
    ensures
        numbered(ClearinghouseView::empty().after_all(events)),
        ClearinghouseView::empty().after_all(events).outlets.len() <= events.len(),
    decreases events.len(),
{
    if events.len() > 0 {
        law_ports_are_numbered(events.drop_last());
    }
}

/// Once a port is opened it stays connected to the inlet that it feeds, whatever
/// happens to the clearinghouse: other subscriptions come and go, and when its
/// own ends it still feeds that inlet.
pub proof fn law_ports_stay_connected(state: ClearinghouseView, events: Seq<EventView>, i: int)
    requires
        numbered(state),
        0 <= i < state.outlets.len(),
        state.outlets.len() + events.len() <= u64::MAX,
    ensures
        state.after_all(events).links.get(state.outlets[i].port) == state.links.get(
            state.outlets[i].port,
        ),
        state.after_all(events).outlets.len() <= state.outlets.len() + events.len(),
        state.outlets.is_prefix_of(state.after_all(events).outlets),
    decreases events.len(),
{
    if events.len() > 0 {
        law_ports_stay_connected(state, events.drop_last(), i);
    }
}

/// A subscription and the list of ports speak of the same ports: whoever connects
/// the listed port of a subscription anew thereby connects the subscription's
/// own, and no port of another number.
pub proof fn law_listed_ports_are_the_subscriptions_own(
    state: ClearinghouseView,
    i: int,
    k: int,
    receiver: u64,
)
    requires
        numbered(state),
        every_port_listed(state),
        0 <= i < state.subscriptions.len(),
        0 <= k < state.outlets.len(),
        state.outlets[k].port == state.subscriptions[i].outlet.port,
    ensures
        state.outlets[k] == state.subscriptions[i].outlet,
        state.links.insert(state.outlets[k].port, receiver).get(
            state.subscriptions[i].outlet.port,
        ) == Some(receiver),
        forall|j: int|
            0 <= j < state.outlets.len() && j != k ==> state.links.insert(
                state.outlets[k].port,
                receiver,
            ).get((#[trigger] state.outlets[j]).port) == state.links.get(state.outlets[j].port),
{
}

/// The database holds the latest value of each field: the one of the last
/// telemetry that held the field, whatever else happened.
pub proof fn law_latest_value_wins(
    state: ClearinghouseView,
    events: Seq<EventView>,
    i: int,
    data: Map<Text, Text>,
    field: Text,
)
    requires
        0 <= i < events.len(),
        events[i] == EventView::Telemetry(data),
        data.contains_key(field),
        forall|j: int|
            i < j < events.len() ==> (#[trigger] events[j] matches EventView::Telemetry(later)
                ==> !later.contains_key(field)),
    ensures
        state.after_all(events).database.contains_key(field),
        state.after_all(events).database[field] == data[field],
    decreases events.len(),
{
    let front = events.drop_last();
    if i < front.len() {
        law_latest_value_wins(state, front, i, data, field);
    }
}

/// A field that no telemetry held keeps the value that it had, or stays unknown.
pub proof fn law_untouched_fields_stay(
    state: ClearinghouseView,
    events: Seq<EventView>,
    field: Text,
)
    requires
        forall|j: int|
            0 <= j < events.len() ==> (#[trigger] events[j] matches EventView::Telemetry(data)
                ==> !data.contains_key(field)),
    ensures
        state.after_all(events).database.contains_key(field) <==> state.database.contains_key(
            field,
        ),
        state.database.contains_key(field) ==> state.after_all(events).database[field]
            == state.database[field],
    decreases events.len(),
{
    if events.len() > 0 {
        let front = events.drop_last();
        law_untouched_fields_stay(state, front, field);
    }
}

/// The fields with a value are those that had one and those that telemetry held.
pub proof fn law_known_fields(state: ClearinghouseView, events: Seq<EventView>, field: Text)
    ensures
        state.after_all(events).database.contains_key(field) <==> {
            ||| state.database.contains_key(field)
            ||| exists|i: int|
                0 <= i < events.len() && (#[trigger] events[i] matches EventView::Telemetry(data)
                    && data.contains_key(field))
        },
    decreases events.len(),
{
    if events.len() > 0 {
        let front = events.drop_last();
        law_known_fields(state, front, field);
        assert forall|i: int| 0 <= i < front.len() implies front[i] == #[trigger] events[i] by {}
    }
}

/// A subscriber waits until each of its fields came in at least once since the
/// clearinghouse was empty, in one piece of telemetry or in several.
pub proof fn law_waits_for_every_field(subscription: SubscriptionView, events: Seq<EventView>)
    ensures
        subscription.delivery(ClearinghouseView::empty().after_all(events).database) is Some <==> {
            &&& exists|f: Text| subscription.fields.contains(f)
            &&& forall|f: Text| #[trigger]
                subscription.fields.contains(f) ==> exists|i: int|
                    0 <= i < events.len() && (#[trigger] events[i] matches EventView::Telemetry(
                        data,
                    ) && data.contains_key(f))
        },
{
    let database = ClearinghouseView::empty().after_all(events).database;
    law_served_in_full(subscription, database);
    assert forall|f: Text| #[trigger] database.contains_key(f) <==> exists|i: int|
        0 <= i < events.len() && (#[trigger] events[i] matches EventView::Telemetry(data)
            && data.contains_key(f)) by {
        law_known_fields(ClearinghouseView::empty(), events, f);
    }
}

/// A change concerns a subscription if and only if one of its fields changed.
pub proof fn law_concerned_by_a_shared_field(subscription: SubscriptionView, changed: Set<Text>)
    ensures
        subscription.interested_in(changed) <==> exists|f: Text| #[trigger]
            subscription.fields.contains(f) && changed.contains(f),
{
}

/// Whoever has a field among the data, and no field without a value once the data
/// are taken over, is sent its fields, on its port, with the newest values.
pub proof fn law_a_shared_field_is_served(
    state: ClearinghouseView,
    data: Map<Text, Text>,
    i: int,
    field: Text,
)
    requires
        0 <= i < state.subscriptions.len(),
        state.subscriptions[i].fields.contains(field),
        data.contains_key(field),
        forall|f: Text| #[trigger]
            state.subscriptions[i].fields.contains(f) ==> data.contains_key(f)
                || state.database.contains_key(f),
    ensures
        exists|k: int|
            {
                &&& 0 <= k < state.published(data).len()
                &&& (#[trigger] state.published(data)[k]).subscription
                    == state.subscriptions[i].name
                &&& state.published(data)[k].outlet == state.subscriptions[i].outlet
                &&& forall|f: Text| #[trigger]
                    state.published(data)[k].data.contains_key(f)
                        <==> state.subscriptions[i].fields.contains(f)
                &&& forall|f: Text| #[trigger]
                    state.published(data)[k].data.contains_key(f) ==> state.published(
                        data,
                    )[k].data[f] == if data.contains_key(f) {
                        data[f]
                    } else {
                        state.database[f]
                    }
            },
{
    let database = state.after_telemetry(data).database;
    law_served_in_full(state.subscriptions[i], database);
    law_everyone_concerned_is_served(state, data, i);
    let delivery = state.subscriptions[i].delivery(database)->Some_0;
    let k = choose|k: int|
        0 <= k < state.published(data).len() && state.published(data)[k] == delivery;
    assert(state.published(data)[k] == delivery);
}

/// A new subscription is the last one, with the given name and exactly the given
/// fields; its port is the last one listed, bears its name, and feeds the
/// receiver; what was there before stays in its place.
pub proof fn law_new_subscription_as_given(
    state: ClearinghouseView,
    name: Text,
    fields: Set<Text>,
    receiver: u64,
)
    ensures
        ({
            let after = state.after_command(CommandView::Subscribe { name, fields, receiver });
            &&& after == state.subscribed(name, fields, receiver)
            &&& after.subscriptions.len() == state.subscriptions.len() + 1
            &&& after.subscriptions.drop_last() == state.subscriptions
            &&& after.subscriptions.last().name == name
            &&& after.subscriptions.last().fields == fields
            &&& after.subscriptions.last().outlet.name == "outlet_to_subscription_"@ + name
            &&& after.subscriptions.last().outlet == after.outlets.last()
            &&& after.outlets.drop_last() == state.outlets
            &&& after.links.get(after.outlets.last().port) == Some(receiver)
            &&& after.database == state.database
        }),
{
}

} // verus!
