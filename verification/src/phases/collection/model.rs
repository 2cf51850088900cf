//! The clearinghouse as a state machine over mathematical values.

use vstd::prelude::*;

use crate::graph::port::OutletView;

verus! {

/// A text.
pub type Text = Seq<char>;

/// A group of fields, and the port to which their values go.
pub struct SubscriptionView {
    pub name: Text,
    pub fields: Set<Text>,
    pub outlet: OutletView,
}

/// Data on their way to a subscriber.
pub struct DeliveryView {
    pub subscription: Text,
    pub outlet: OutletView,
    pub data: Map<Text, Text>,
}

/// What a request for a snapshot is answered.
pub struct SnapshotView {
    pub database: Map<Text, Text>,
    pub missing: Set<Text>,
    pub subscriptions: Seq<SubscriptionView>,
}

/// What a command asks for.
pub enum CommandView {
    Subscribe { name: Text, fields: Set<Text>, receiver: u64 },
    Unsubscribe { name: Text },
    GetSnapshot { name: Option<Text> },
}

/// What happens to a clearinghouse while it runs.
pub enum EventView {
    Telemetry(Map<Text, Text>),
    Command(CommandView),
}

/// What the clearinghouse remembers.
pub struct ClearinghouseView {
    pub subscriptions: Seq<SubscriptionView>,
    /// Every port that was ever opened for a subscription.
    pub outlets: Seq<OutletView>,
    /// Which port feeds which inlet, by their numbers.
    pub links: Map<u64, u64>,
    pub database: Map<Text, Text>,
}

/// The name of the port that serves the subscription called `name`.
pub open spec fn outlet_name(name: Text) -> Text {
    "outlet_to_subscription_"@ + name
}

/// The values of `fields` in `database`, provided that there is a field and
/// that none lacks a value.
pub open spec fn fulfillment(fields: Set<Text>, database: Map<Text, Text>) -> Option<
    Map<Text, Text>,
> {
    if fields != Set::<Text>::empty() && fields.subset_of(database.dom()) {
        Some(database.restrict(fields))
    } else {
        None
    }
}

impl SubscriptionView {
    /// The subscription called `name` for `fields`, with a port of the number
    /// `port`.
    pub open spec fn of(name: Text, fields: Set<Text>, port: u64) -> SubscriptionView {
        SubscriptionView {
            name,
            fields,
            outlet: OutletView { name: outlet_name(name), port },
        }
    }

    /// Whether one of the subscription's fields is among those that changed.
    pub open spec fn interested_in(self, changed: Set<Text>) -> bool {
        exists|f: Text| #[trigger] self.fields.contains(f) && changed.contains(f)
    }

    /// What the subscriber is sent out of `database`, if anything.
    pub open spec fn delivery(self, database: Map<Text, Text>) -> Option<DeliveryView> {
        match fulfillment(self.fields, database) {
            Some(data) => Some(
                DeliveryView { subscription: self.name, outlet: self.outlet, data },
            ),
            None => None,
        }
    }
}

/// The subscriptions that a change of the fields `changed` concerns, in order.
pub open spec fn interested(subscriptions: Seq<SubscriptionView>, changed: Set<Text>) -> Seq<
    SubscriptionView,
> {
    subscriptions.filter(|s: SubscriptionView| s.interested_in(changed))
}

/// What `subscriptions` are sent out of `database`, in order.
pub open spec fn deliveries(
    subscriptions: Seq<SubscriptionView>,
    database: Map<Text, Text>,
) -> Seq<DeliveryView> {
    subscriptions.filter_map(|s: SubscriptionView| s.delivery(database))
}

/// Whether `i` is the first place at which a subscription called `name` stands.
pub open spec fn is_first(subscriptions: Seq<SubscriptionView>, name: Text, i: int) -> bool {
    &&& 0 <= i < subscriptions.len()
    &&& subscriptions[i].name == name
    &&& forall|j: int| 0 <= j < i ==> (#[trigger] subscriptions[j]).name != name
}

/// The first place at which a subscription called `name` stands.
pub open spec fn find(subscriptions: Seq<SubscriptionView>, name: Text) -> Option<int> {
    if exists|i: int| is_first(subscriptions, name, i) {
        Some(choose|i: int| is_first(subscriptions, name, i))
    } else {
        None
    }
}

/// The snapshot of all there is.
pub open spec fn whole_snapshot(
    subscriptions: Seq<SubscriptionView>,
    database: Map<Text, Text>,
) -> SnapshotView {
    SnapshotView { database, missing: Set::empty(), subscriptions }
}

/// The snapshot of what `subscription` covers. `missing` lists the fields of
/// the part of the database that is returned.
pub open spec fn focused_snapshot(
    subscription: SubscriptionView,
    database: Map<Text, Text>,
) -> SnapshotView {
    SnapshotView {
        database: database.restrict(subscription.fields),
        missing: database.restrict(subscription.fields).dom(),
        subscriptions: seq![subscription],
    }
}

/// The snapshot for a given name: what the first subscription of that name
/// covers; without a name, or where no subscription has it, all there is.
pub open spec fn snapshot_of(
    subscriptions: Seq<SubscriptionView>,
    database: Map<Text, Text>,
    name: Option<Text>,
) -> SnapshotView {
    match name {
        Some(n) => match find(subscriptions, n) {
            Some(i) => focused_snapshot(subscriptions[i], database),
            None => whole_snapshot(subscriptions, database),
        },
        None => whole_snapshot(subscriptions, database),
    }
}

impl ClearinghouseView {
    /// The state of a clearinghouse that nothing happened to yet.
    pub open spec fn empty() -> ClearinghouseView {
        ClearinghouseView {
            subscriptions: Seq::empty(),
            outlets: Seq::empty(),
            links: Map::empty(),
            database: Map::empty(),
        }
    }

    /// The subscription that is next to be made, called `name` for `fields`: its
    /// port is numbered by its place among those that were ever opened.
    pub open spec fn newcomer(self, name: Text, fields: Set<Text>) -> SubscriptionView {
        SubscriptionView::of(name, fields, self.outlets.len() as u64)
    }

    /// The state with one more subscription, called `name` for `fields`, whose
    /// port feeds the inlet `receiver`.
    pub open spec fn subscribed(
        self,
        name: Text,
        fields: Set<Text>,
        receiver: u64,
    ) -> ClearinghouseView {
        let subscription = self.newcomer(name, fields);
        ClearinghouseView {
            subscriptions: self.subscriptions.push(subscription),
            outlets: self.outlets.push(subscription.outlet),
            links: self.links.insert(subscription.outlet.port, receiver),
            ..self
        }
    }

    /// The state without the first subscription called `name`.
    pub open spec fn unsubscribed(self, name: Text) -> ClearinghouseView {
        match find(self.subscriptions, name) {
            Some(i) => ClearinghouseView { subscriptions: self.subscriptions.remove(i), ..self },
            None => self,
        }
    }

    /// The state after `command`.
    pub open spec fn after_command(self, command: CommandView) -> ClearinghouseView {
        match command {
            CommandView::Subscribe { name, fields, receiver } => self.subscribed(
                name,
                fields,
                receiver,
            ),
            CommandView::Unsubscribe { name } => self.unsubscribed(name),
            CommandView::GetSnapshot { .. } => self,
        }
    }

    /// What a request for a snapshot is answered.
    pub open spec fn snapshot(self, name: Option<Text>) -> SnapshotView {
        snapshot_of(self.subscriptions, self.database, name)
    }

    /// The state after `data` came in.
    pub open spec fn after_telemetry(self, data: Map<Text, Text>) -> ClearinghouseView {
        ClearinghouseView { database: self.database.union_prefer_right(data), ..self }
    }

    /// What goes out when `data` comes in: the subscriptions that `data`
    /// concerns are served out of the database that `data` updated.
    pub open spec fn published(self, data: Map<Text, Text>) -> Seq<DeliveryView> {
        deliveries(
            interested(self.subscriptions, data.dom()),
            self.after_telemetry(data).database,
        )
    }
}

impl ClearinghouseView {
    /// The state after `event`.
    pub open spec fn after(self, event: EventView) -> ClearinghouseView {
        match event {
            EventView::Telemetry(data) => self.after_telemetry(data),
            EventView::Command(command) => self.after_command(command),
        }
    }

    /// The state after `events`, one after the other.
    pub open spec fn after_all(self, events: Seq<EventView>) -> ClearinghouseView
        decreases events.len(),
    {
        if events.len() == 0 {
            self
        } else {
            self.after_all(events.drop_last()).after(events.last())
        }
    }
}

/// A place that is found to be the first one is what the search finds.
pub proof fn lemma_find(subscriptions: Seq<SubscriptionView>, name: Text, i: int)
    requires
        is_first(subscriptions, name, i),
    ensures
        find(subscriptions, name) == Some(i),
{
}

/// The search fails only where no subscription has the name.
pub proof fn lemma_find_none(subscriptions: Seq<SubscriptionView>, name: Text)
    ensures
        find(subscriptions, name) is None <==> forall|i: int|
            0 <= i < subscriptions.len() ==> (#[trigger] subscriptions[i]).name != name,
    decreases subscriptions.len(),
{
    if subscriptions.len() > 0 {
        let front = subscriptions.drop_last();
        lemma_find_none(front, name);
        if find(front, name) is Some {
            let i = choose|i: int| is_first(front, name, i);
            assert forall|j: int| 0 <= j < i implies (#[trigger] subscriptions[j]).name != name by {
                assert(front[j] == subscriptions[j]);
            }
            assert(is_first(subscriptions, name, i));
        } else {
            assert forall|j: int| 0 <= j < front.len() implies (#[trigger] subscriptions[j]).name
                != name by {
                assert(front[j] == subscriptions[j]);
            }
            if subscriptions.last().name == name {
                assert(is_first(subscriptions, name, subscriptions.len() - 1));
            }
        }
    }
}

} // verus!
