//! The clearinghouse: a sink for collected telemetry and a source of groups of
//! telemetry fields for those who subscribe to them.

use tokio::sync::{mpsc, oneshot};
use vstd::prelude::*;

use super::model::{
    ClearinghouseView, CommandView, DeliveryView, SnapshotView, SubscriptionView,
};
use super::run::{RunEventView, RunView};
use crate::elements::telemetry::{FieldSet, TelemetryData};
use crate::graph::port::{Inlet, Links, Outlet, OutletView};
use crate::Ack;

verus! {

/// The handle by which commands reach a clearinghouse.
pub type ClearinghouseApi = mpsc::UnboundedSender<ClearinghouseCmd>;

/// A command to the clearinghouse, with the channel for its answer.
#[derive(Debug)]
pub enum ClearinghouseCmd {
    Subscribe { name: String, fields: FieldSet, receiver: Inlet, tx: oneshot::Sender<Ack> },
    Unsubscribe { name: String, tx: oneshot::Sender<Ack> },
    GetSnapshot { name: Option<String>, tx: oneshot::Sender<ClearinghouseResp> },
}

impl View for ClearinghouseCmd {
    type V = CommandView;

    open spec fn view(&self) -> CommandView {
        match *self {
            ClearinghouseCmd::Subscribe { name, fields, receiver, tx } => CommandView::Subscribe {
                name: name@,
                fields: fields@,
                receiver: receiver.port,
            },
            ClearinghouseCmd::Unsubscribe { name, tx } => CommandView::Unsubscribe { name: name@ },
            ClearinghouseCmd::GetSnapshot { name, tx } => CommandView::GetSnapshot {
                name: match name {
                    Some(n) => Some(n@),
                    None => None,
                },
            },
        }
    }
}

impl ClearinghouseCmd {
    /// The command that lets `receiver` have `fields` under the given name, and
    /// the channel on which it is confirmed.
    pub fn subscribe<S: Into<String>>(name: S, fields: FieldSet, receiver: Inlet) -> (r: (
        ClearinghouseCmd,
        oneshot::Receiver<Ack>,
    ))
        ensures
            r.0 matches ClearinghouseCmd::Subscribe { name: n, fields: f, receiver: i, tx } && {
                &&& crate::text::is_text_of(name, n)
                &&& f == fields
                &&& i == receiver
                &&& crate::channel::one_answer_channel(tx, r.1)
            },
    {
        let (tx, rx) = oneshot::channel();
        (ClearinghouseCmd::Subscribe { name: name.into(), fields, receiver, tx }, rx)
    }

    /// The command that ends the subscription of the given name, and the
    /// channel on which it is confirmed.
    pub fn unsubscribe<S: Into<String>>(name: S) -> (r: (ClearinghouseCmd, oneshot::Receiver<Ack>))
        ensures
            r.0 matches ClearinghouseCmd::Unsubscribe { name: n, tx } && {
                &&& crate::text::is_text_of(name, n)
                &&& crate::channel::one_answer_channel(tx, r.1)
            },
    {
        let (tx, rx) = oneshot::channel();
        (ClearinghouseCmd::Unsubscribe { name: name.into(), tx }, rx)
    }

    /// The request for a snapshot of all there is, and the channel on which it
    /// is answered.
    pub fn get_clearinghouse_snapshot() -> (r: (
        ClearinghouseCmd,
        oneshot::Receiver<ClearinghouseResp>,
    ))
        ensures
            r.0 matches ClearinghouseCmd::GetSnapshot { name: n, tx } && {
                &&& n is None
                &&& crate::channel::one_answer_channel(tx, r.1)
            },
    {
        let (tx, rx) = oneshot::channel();
        (ClearinghouseCmd::GetSnapshot { name: None, tx }, rx)
    }

    /// The request for a snapshot of what the subscription of the given name
    /// covers, and the channel on which it is answered.
    pub fn get_subscription_snapshot<S: Into<String>>(name: S) -> (r: (
        ClearinghouseCmd,
        oneshot::Receiver<ClearinghouseResp>,
    ))
        ensures
            r.0 matches ClearinghouseCmd::GetSnapshot { name: n, tx } && {
                &&& n matches Some(text) && crate::text::is_text_of(name, text)
                &&& crate::channel::one_answer_channel(tx, r.1)
            },
    {
        let (tx, rx) = oneshot::channel();
        (ClearinghouseCmd::GetSnapshot { name: Some(name.into()), tx }, rx)
    }
}

/// The answer to a request for a snapshot.
#[derive(Debug)]
pub enum ClearinghouseResp {
    Snapshot {
        database: TelemetryData,
        missing: FieldSet,
        subscriptions: Vec<TelemetrySubscription>,
    },
}

impl View for ClearinghouseResp {
    type V = SnapshotView;

    open spec fn view(&self) -> SnapshotView {
        match *self {
            ClearinghouseResp::Snapshot { database, missing, subscriptions } => SnapshotView {
                database: database@,
                missing: missing@,
                subscriptions: subscription_views(subscriptions@),
            },
        }
    }
}

/// A group of telemetry fields, and the port to which their values go.
#[derive(Debug)]
pub struct TelemetrySubscription {
    pub name: String,
    pub fields: FieldSet,
    pub outlet_to_subscription: Outlet,
}

impl View for TelemetrySubscription {
    type V = SubscriptionView;

    open spec fn view(&self) -> SubscriptionView {
        SubscriptionView {
            name: self.name@,
            fields: self.fields@,
            outlet: self.outlet_to_subscription@,
        }
    }
}

impl TelemetrySubscription {
    /// The subscription called `name` for `fields`, with a port of its own, which
    /// has the number `port`.
    pub fn new(name: String, fields: FieldSet, port: u64) -> (subscription: TelemetrySubscription)
        ensures
            subscription@ == SubscriptionView::of(name@, fields@, port),
    {
        let mut port_name = String::from("outlet_to_subscription_");
        port_name.append(name.as_str());
        TelemetrySubscription {
            name,
            fields,
            outlet_to_subscription: Outlet { name: port_name, port },
        }
    }
}

impl Clone for TelemetrySubscription {
    fn clone(&self) -> (copy: TelemetrySubscription)
        ensures
            copy@ == self@,
    {
        TelemetrySubscription {
            name: self.name.clone(),
            fields: self.fields.clone(),
            outlet_to_subscription: self.outlet_to_subscription.clone(),
        }
    }
}

impl PartialEq for TelemetrySubscription {
    fn eq(&self, other: &TelemetrySubscription) -> (same: bool) {
        self.name == other.name && self.fields == other.fields
    }
}

impl vstd::std_specs::cmp::PartialEqSpecImpl for TelemetrySubscription {
    open spec fn obeys_eq_spec() -> bool {
        true
    }

    open spec fn eq_spec(&self, other: &TelemetrySubscription) -> bool {
        self.name@ == other.name@ && self.fields@ == other.fields@
    }
}

/// What a list of subscriptions amounts to.
pub open spec fn subscription_views(list: Seq<TelemetrySubscription>) -> Seq<SubscriptionView> {
    list.map_values(|s: TelemetrySubscription| s@)
}

/// What a list of references to subscriptions amounts to.
pub open spec fn subscription_ref_views(list: Seq<&TelemetrySubscription>) -> Seq<
    SubscriptionView,
> {
    list.map_values(|s: &TelemetrySubscription| s@)
}

/// What a list of ports amounts to.
pub open spec fn outlet_views(list: Seq<Outlet>) -> Seq<OutletView> {
    list.map_values(|o: Outlet| o@)
}

/// What a clearinghouse with these parts remembers.
pub open spec fn state_view(
    subscriptions: Seq<TelemetrySubscription>,
    outlets: Seq<Outlet>,
    links: Map<u64, u64>,
    database: Map<Seq<char>, Seq<char>>,
) -> ClearinghouseView {
    ClearinghouseView {
        subscriptions: subscription_views(subscriptions),
        outlets: outlet_views(outlets),
        links,
        database,
    }
}

/// Copies a list of subscriptions.
fn clone_subscriptions(list: &Vec<TelemetrySubscription>) -> (copy: Vec<TelemetrySubscription>)
    ensures
        subscription_views(copy@) == subscription_views(list@),
{
    let mut copy: Vec<TelemetrySubscription> = Vec::new();
    let mut i: usize = 0;
    while i < list.len()
        invariant
            i <= list.len(),
            copy.len() == i,
            forall|j: int| 0 <= j < i ==> (#[trigger] copy@[j])@ == list@[j]@,
        decreases list.len() - i,
    {
        copy.push(list[i].clone());
        i += 1;
    }
    copy
}

/// Data on their way to a subscriber.
#[derive(Debug)]
pub struct Delivery {
    /// The name of the subscription that is served.
    pub subscription: String,
    /// The port to send on.
    pub outlet: Outlet,
    /// What to send.
    pub data: TelemetryData,
}

impl View for Delivery {
    type V = DeliveryView;

    open spec fn view(&self) -> DeliveryView {
        DeliveryView {
            subscription: self.subscription@,
            outlet: self.outlet@,
            data: self.data@,
        }
    }
}

/// What a list of deliveries amounts to.
pub open spec fn delivery_views(list: Seq<Delivery>) -> Seq<DeliveryView> {
    list.map_values(|d: Delivery| d@)
}

/// The answer to a command, and the channel that waits for it.
#[derive(Debug)]
pub enum ClearinghouseReply {
    Ack { tx: oneshot::Sender<Ack> },
    Snapshot { tx: oneshot::Sender<ClearinghouseResp>, resp: ClearinghouseResp },
}

impl ClearinghouseReply {
    /// Whether this is the answer that `command` is owed in `state`: for each
    /// change a confirmation, for each request a snapshot, on the channel that
    /// came with it.
    pub open spec fn answers(self, command: ClearinghouseCmd, state: ClearinghouseView) -> bool {
        match command {
            ClearinghouseCmd::Subscribe { name, fields, receiver, tx } => self
                == ClearinghouseReply::Ack { tx },
            ClearinghouseCmd::Unsubscribe { name, tx } => self == ClearinghouseReply::Ack { tx },
            ClearinghouseCmd::GetSnapshot { name, tx } => self matches
                ClearinghouseReply::Snapshot { tx: to, resp } && to == tx && resp@
                == state.snapshot(command@->GetSnapshot_name),
        }
    }

    /// Hands the answer to the channel that waits for it; says whether somebody
    /// still listened there.
    pub fn deliver(self) -> (delivered: bool)
        ensures
            match self {
                ClearinghouseReply::Ack { tx } => exists|sent: Result<(), Ack>|
                    {
                        &&& #[trigger] call_ensures(oneshot::Sender::<Ack>::send, (tx, ()), sent)
                        &&& delivered == (sent is Ok)
                    },
                ClearinghouseReply::Snapshot { tx, resp } => exists|
                    sent: Result<(), ClearinghouseResp>,
                |
                    {
                        &&& #[trigger] call_ensures(
                            oneshot::Sender::<ClearinghouseResp>::send,
                            (tx, resp),
                            sent,
                        )
                        &&& delivered == (sent is Ok)
                    },
            },
    {
        match self {
            ClearinghouseReply::Ack { tx } => {
                let sent: Result<(), Ack> = tx.send(());
                sent.is_ok()
            },
            ClearinghouseReply::Snapshot { tx, resp } => {
                let sent: Result<(), ClearinghouseResp> = tx.send(resp);
                sent.is_ok()
            },
        }
    }
}

/// What happens to a clearinghouse.
#[derive(Debug)]
pub enum ClearinghouseEvent {
    /// Telemetry came in, or, with `None`, its sources dried up.
    Telemetry(Option<TelemetryData>),
    /// A command came in.
    Command(ClearinghouseCmd),
    /// Neither telemetry nor commands can come in any more. That commands alone
    /// cannot come in is no event: telemetry is still taken in.
    Closed,
}

/// What happens in the course of a run of the clearinghouse. `E` is why
/// something could not be sent.
#[derive(Debug)]
pub enum RunEvent<E> {
    /// This happened to the clearinghouse.
    Happened(ClearinghouseEvent),
    /// What was to be sent was sent, each delivery, in order, with this outcome.
    Sent(Vec<Result<(), E>>),
}

impl<E> View for RunEvent<E> {
    type V = RunEventView<E>;

    open spec fn view(&self) -> RunEventView<E> {
        match *self {
            RunEvent::Happened(ClearinghouseEvent::Telemetry(Some(data))) =>
                RunEventView::Telemetry(data@),
            RunEvent::Happened(ClearinghouseEvent::Telemetry(None)) => RunEventView::DriedUp,
            RunEvent::Happened(ClearinghouseEvent::Command(command)) => RunEventView::Command(
                command@,
            ),
            RunEvent::Happened(ClearinghouseEvent::Closed) => RunEventView::Closed,
            RunEvent::Sent(statuses) => RunEventView::Sent(statuses@),
        }
    }
}

/// What is to be done after an event.
#[derive(Debug)]
pub enum ClearinghouseAction {
    /// Send these, and go on if all of it could be sent.
    Publish(Vec<Delivery>),
    /// Deliver this answer and go on.
    Reply(ClearinghouseReply),
    /// Stop.
    Stop,
}

impl ClearinghouseAction {
    /// Whether this is what is to be done after `event` in `state`: telemetry is
    /// published and a command is answered; where nothing more comes, that is all.
    pub open spec fn is_due(self, event: ClearinghouseEvent, state: ClearinghouseView) -> bool {
        match event {
            ClearinghouseEvent::Telemetry(Some(data)) => self matches
                ClearinghouseAction::Publish(outgoing) && delivery_views(outgoing@)
                == state.published(data@),
            ClearinghouseEvent::Telemetry(None) | ClearinghouseEvent::Closed => self is Stop,
            ClearinghouseEvent::Command(command) => self matches ClearinghouseAction::Reply(reply)
                && reply.answers(command, state),
        }
    }
}

/// Clearinghouse is a sink for collected telemetry data and a subscription-based
/// source for groups of telemetry fields.
#[derive(Debug)]
pub struct Clearinghouse {
    pub name: String,
    pub subscriptions: Vec<TelemetrySubscription>,
    /// Every port that was ever opened for a subscription.
    pub outlets: Vec<Outlet>,
    /// Which inlet each of them feeds.
    pub links: Links,
    pub database: TelemetryData,
    pub inlet: Inlet,
    pub tx_api: ClearinghouseApi,
    pub rx_api: mpsc::UnboundedReceiver<ClearinghouseCmd>,
}

impl View for Clearinghouse {
    type V = ClearinghouseView;

    open spec fn view(&self) -> ClearinghouseView {
        state_view(self.subscriptions@, self.outlets@, self.links@, self.database@)
    }
}

impl Clearinghouse {
    /// An empty clearinghouse, whose inlet bears its name and the given number.
    pub fn new<S: Into<String>>(name: S, port: u64) -> (clearinghouse: Clearinghouse)
        ensures
            crate::text::is_text_of(name, clearinghouse.name),
            clearinghouse@ == ClearinghouseView::empty(),
            clearinghouse.inlet == (Inlet { name: clearinghouse.name, port }),
            crate::channel::one_command_channel(clearinghouse.tx_api, clearinghouse.rx_api),
    {
        let (tx_api, rx_api) = mpsc::unbounded_channel();
        let name: String = name.into();
        let inlet = Inlet { name: name.clone(), port };
        let clearinghouse = Clearinghouse {
            name,
            subscriptions: Vec::new(),
            outlets: Vec::new(),
            links: Links::new(),
            database: TelemetryData::new(),
            inlet,
            tx_api,
            rx_api,
        };
        proof {
            assert(clearinghouse@.subscriptions =~= Seq::empty());
            assert(clearinghouse@.outlets =~= Seq::empty());
        }
        clearinghouse
    }

    /// Lets `receiver` have `fields` under the given name.
    pub fn add_subscription<S: Into<String>>(&mut self, name: S, fields: FieldSet, receiver: &Inlet)
        ensures
            exists|n: String|
                {
                    &&& #[trigger] crate::text::is_text_of(name, n)
                    &&& final(self)@ == old(self)@.subscribed(n@, fields@, receiver.port)
                },
            final(self).same_stage(*old(self)),
    {
        let ghost source = name;
        let name: String = name.into();
        let ghost text = name;
        Clearinghouse::enrol(
            name,
            fields,
            receiver,
            &mut self.subscriptions,
            &mut self.outlets,
            &mut self.links,
        );
        assert(crate::text::is_text_of(source, text));
    }

    /// Adds the subscription called `name` for `fields`, with a port that feeds
    /// `receiver`.
    fn enrol(
        name: String,
        fields: FieldSet,
        receiver: &Inlet,
        subscriptions: &mut Vec<TelemetrySubscription>,
        outlets: &mut Vec<Outlet>,
        links: &mut Links,
    )
        ensures
            forall|database: Map<Seq<char>, Seq<char>>| #[trigger]
                state_view(final(subscriptions)@, final(outlets)@, final(links)@, database)
                    == state_view(
                    old(subscriptions)@,
                    old(outlets)@,
                    old(links)@,
                    database,
                ).subscribed(name@, fields@, receiver.port),
    {
        let subscription = TelemetrySubscription::new(name, fields, outlets.len() as u64);
        let ghost view = subscription@;
        links.connect(&subscription.outlet_to_subscription, receiver);
        outlets.push(subscription.outlet_to_subscription.clone());
        subscriptions.push(subscription);
        proof {
            assert(subscription_views(subscriptions@) =~= subscription_views(
                old(subscriptions)@,
            ).push(view));
            assert(outlet_views(outlets@) =~= outlet_views(old(outlets)@).push(view.outlet));
        }
    }

    /// Whether only what the clearinghouse remembers may differ from `other`.
    pub open spec fn same_stage(self, other: Clearinghouse) -> bool {
        &&& self.name == other.name
        &&& self.inlet == other.inlet
        &&& self.tx_api == other.tx_api
        &&& self.rx_api == other.rx_api
    }

    /// The subscriptions that a change of the fields `changed` concerns, in order.
    pub fn find_interested_subscriptions<'a>(
        subscriptions: &'a Vec<TelemetrySubscription>,
        changed: FieldSet,
    ) -> (interested: Vec<&'a TelemetrySubscription>)
        ensures
            subscription_ref_views(interested@) == super::model::interested(
                subscription_views(subscriptions@),
                changed@,
            ),
    {
        let mut interested: Vec<&'a TelemetrySubscription> = Vec::new();
        let ghost all = subscription_views(subscriptions@);
        let ghost concerned = |s: SubscriptionView| s.interested_in(changed@);
        let mut i: usize = 0;
        proof {
            reveal(Seq::filter);
        }
        while i < subscriptions.len()
            invariant
                i <= subscriptions.len(),
                all == subscription_views(subscriptions@),
                concerned == (|s: SubscriptionView| s.interested_in(changed@)),
                subscription_ref_views(interested@) == all.take(i as int).filter(concerned),
            decreases subscriptions.len() - i,
        {
            let ghost before = interested@;
            let subscription = &subscriptions[i];
            proof {
                assert(all.take(i + 1) =~= all.take(i as int).push(subscription@));
                all.take(i as int).lemma_filter_push(subscription@, concerned);
            }
            let concerns: bool = subscription.fields.intersects(&changed);
            assert(concerns == concerned(subscription@)) by {
                assert(subscription@.fields == subscription.fields@);
            }
            if concerns {
                interested.push(subscription);
                assert(subscription_ref_views(interested@) =~= subscription_ref_views(before).push(
                    subscription@,
                ));
            }
            i += 1;
        }
        assert(all.take(i as int) =~= all);
        interested
    }

    /// The values of the fields in `pick_list`, provided that there is a field
    /// and that none lacks a value.
    pub fn fulfill_subscription(pick_list: &FieldSet, database: &TelemetryData) -> (fulfillment:
        Option<TelemetryData>)
        ensures
            match fulfillment {
                Some(data) => super::model::fulfillment(pick_list@, database@) == Some(data@),
                None => super::model::fulfillment(pick_list@, database@) is None,
            },
    {
        let keys = pick_list.names();
        let ghost wanted = crate::elements::telemetry::texts(keys@);
        let mut ready = TelemetryData::new();
        let mut i: usize = 0;
        while i < keys.len()
            invariant
                i <= keys.len(),
                wanted == crate::elements::telemetry::texts(keys@),
                wanted.to_set() == pick_list@,
                ready@ == database@.restrict(wanted.take(i as int).to_set()),
                wanted.take(i as int).to_set().subset_of(database@.dom()),
            decreases keys.len() - i,
        {
            let key = &keys[i];
            proof {
                assert(wanted.take(i + 1) =~= wanted.take(i as int).push(key@));
                crate::elements::telemetry::lemma_push_to_set(wanted.take(i as int), key@);
            }
            match database.get(key) {
                Some(value) => {
                    ready.insert(key.clone(), value.clone());
                },
                None => {
                    assert(wanted[i as int] == key@);
                    return None;
                },
            }
            i += 1;
        }
        assert(wanted.take(i as int) =~= wanted);
        if ready.is_empty() {
            proof {
                assert forall|f: Seq<char>| !pick_list@.contains(f) by {
                    assert(!ready@.contains_key(f));
                }
                assert(pick_list@ =~= Set::<Seq<char>>::empty());
            }
            None
        } else {
            proof {
                if pick_list@ == Set::<Seq<char>>::empty() {
                    assert(ready@ =~= Map::<Seq<char>, Seq<char>>::empty());
                }
            }
            Some(ready)
        }
    }

    /// What `subscribers` are to be sent out of `database`, in order; those
    /// whose fields lack a value are left out.
    pub fn push_to_subscribers(
        database: &TelemetryData,
        subscribers: Vec<&TelemetrySubscription>,
    ) -> (outgoing: Vec<Delivery>)
        ensures
            delivery_views(outgoing@) == super::model::deliveries(
                subscription_ref_views(subscribers@),
                database@,
            ),
    {
        let mut outgoing: Vec<Delivery> = Vec::new();
        let ghost all = subscription_ref_views(subscribers@);
        let ghost served = |s: SubscriptionView| s.delivery(database@);
        let mut i: usize = 0;
        while i < subscribers.len()
            invariant
                i <= subscribers.len(),
                all == subscription_ref_views(subscribers@),
                served == (|s: SubscriptionView| s.delivery(database@)),
                delivery_views(outgoing@) == all.take(i as int).filter_map(served),
            decreases subscribers.len() - i,
        {
            let ghost before = outgoing@;
            let subscription: &TelemetrySubscription = subscribers[i];
            proof {
                all.lemma_filter_map_take_succ(served, i as int);
            }
            match Clearinghouse::fulfill_subscription(&subscription.fields, database) {
                Some(data) => {
                    outgoing.push(
                        Delivery {
                            subscription: subscription.name.clone(),
                            outlet: subscription.outlet_to_subscription.clone(),
                            data,
                        },
                    );
                    assert(delivery_views(outgoing@) =~= delivery_views(before).push(
                        outgoing@.last()@,
                    ));
                },
                None => {
                    assert(all.take(i + 1).filter_map(served) =~= all.take(i as int).filter_map(
                        served,
                    ));
                },
            }
            i += 1;
        }
        assert(all.take(i as int) =~= all);
        outgoing
    }

    /// How a round of sending ended: with the first failure, in the order of
    /// the deliveries, or well.
    pub fn published<E>(statuses: Vec<Result<(), E>>) -> (outcome: Result<(), E>)
        ensures
            match outcome {
                Ok(()) => forall|i: int| 0 <= i < statuses@.len() ==> statuses@[i] is Ok,
                Err(e) => exists|i: int|
                    {
                        &&& 0 <= i < statuses@.len()
                        &&& #[trigger] statuses@[i] == Err::<(), E>(e)
                        &&& forall|j: int| 0 <= j < i ==> statuses@[j] is Ok
                    },
            },
    {
        let ghost all = statuses@;
        let mut statuses = statuses;
        let mut outcome: Result<(), E> = Ok(());
        while statuses.len() > 0
            invariant
                statuses@ == all.take(statuses@.len() as int),
                statuses@.len() <= all.len(),
                match outcome {
                    Ok(()) => forall|i: int| statuses@.len() <= i < all.len() ==> all[i] is Ok,
                    Err(e) => exists|i: int|
                        {
                            &&& statuses@.len() <= i < all.len()
                            &&& #[trigger] all[i] == Err::<(), E>(e)
                            &&& forall|j: int| statuses@.len() <= j < i ==> all[j] is Ok
                        },
                },
            decreases statuses@.len(),
        {
            if let Some(status) = statuses.pop() {
                if status.is_err() {
                    outcome = status;
                }
            }
        }
        outcome
    }

    /// Takes in telemetry and says what is to be sent on; `None` means that the
    /// sources dried up and nothing is left to do.
    pub fn handle_telemetry_data(
        data: Option<TelemetryData>,
        subscriptions: &Vec<TelemetrySubscription>,
        database: &mut TelemetryData,
    ) -> (outgoing: Option<Vec<Delivery>>)
        ensures
            match data {
                Some(d) => {
                    &&& final(database)@ == old(database)@.union_prefer_right(d@)
                    &&& outgoing matches Some(list) && delivery_views(list@)
                        == super::model::deliveries(
                        super::model::interested(subscription_views(subscriptions@), d@.dom()),
                        final(database)@,
                    )
                },
                None => outgoing is None && *final(database) == *old(database),
            },
    {
        match data {
            Some(d) => {
                let updated_fields = d.keys();
                let interested = Clearinghouse::find_interested_subscriptions(
                    subscriptions,
                    updated_fields,
                );
                database.extend(d);
                Some(Clearinghouse::push_to_subscribers(database, interested))
            },
            None => None,
        }
    }

    /// The first place at which a subscription called `name` stands.
    fn position(subscriptions: &Vec<TelemetrySubscription>, name: &String) -> (found: Option<usize>)
        ensures
            match found {
                Some(i) => i < subscriptions@.len() && super::model::find(
                    subscription_views(subscriptions@),
                    name@,
                ) == Some(i as int),
                None => super::model::find(subscription_views(subscriptions@), name@) is None,
            },
    {
        let ghost all = subscription_views(subscriptions@);
        let mut i: usize = 0;
        while i < subscriptions.len()
            invariant
                i <= subscriptions.len(),
                all == subscription_views(subscriptions@),
                forall|j: int| 0 <= j < i ==> (#[trigger] all[j]).name != name@,
            decreases subscriptions.len() - i,
        {
            if subscriptions[i].name == *name {
                proof {
                    super::model::lemma_find(all, name@, i as int);
                }
                return Some(i);
            }
            i += 1;
        }
        proof {
            super::model::lemma_find_none(all, name@);
        }
        None
    }

    /// The snapshot that is asked for with `name`.
    pub fn take_snapshot(
        name: Option<String>,
        subscriptions: &Vec<TelemetrySubscription>,
        database: &TelemetryData,
    ) -> (resp: ClearinghouseResp)
        ensures
            resp@ == super::model::snapshot_of(
                subscription_views(subscriptions@),
                database@,
                match name {
                    Some(n) => Some(n@),
                    None => None,
                },
            ),
    {
        if let Some(name) = name {
            if let Some(i) = Clearinghouse::position(subscriptions, &name) {
                let subscription = &subscriptions[i];
                let mut db = database.clone();
                db.retain(&subscription.fields);
                let missing = db.keys();
                let mut listed: Vec<TelemetrySubscription> = Vec::new();
                listed.push(subscription.clone());
                let ghost view = subscription@;
                let resp = ClearinghouseResp::Snapshot {
                    database: db,
                    missing,
                    subscriptions: listed,
                };
                assert(subscription_views(listed@) =~= seq![view]);
                return resp;
            }
        }
        ClearinghouseResp::Snapshot {
            database: database.clone(),
            missing: FieldSet::new(),
            subscriptions: clone_subscriptions(subscriptions),
        }
    }

    /// Carries out a command and gives the answer for the channel that came
    /// with it.
    pub fn handle_command(
        command: ClearinghouseCmd,
        subscriptions: &mut Vec<TelemetrySubscription>,
        database: &TelemetryData,
        outlets: &mut Vec<Outlet>,
        links: &mut Links,
    ) -> (reply: ClearinghouseReply)
        ensures
            state_view(final(subscriptions)@, final(outlets)@, final(links)@, database@)
                == state_view(
                old(subscriptions)@,
                old(outlets)@,
                old(links)@,
                database@,
            ).after_command(command@),
            reply.answers(
                command,
                state_view(old(subscriptions)@, old(outlets)@, old(links)@, database@),
            ),
    {
        match command {
            ClearinghouseCmd::GetSnapshot { name, tx } => {
                let resp = Clearinghouse::take_snapshot(name, subscriptions, database);
                ClearinghouseReply::Snapshot { tx, resp }
            },
            ClearinghouseCmd::Subscribe { name, fields, receiver, tx } => {
                Clearinghouse::enrol(name, fields, &receiver, subscriptions, outlets, links);
                ClearinghouseReply::Ack { tx }
            },
            ClearinghouseCmd::Unsubscribe { name, tx } => {
                if let Some(i) = Clearinghouse::position(subscriptions, &name) {
                    subscriptions.remove(i);
                    assert(subscription_views(subscriptions@) =~= subscription_views(
                        old(subscriptions)@,
                    ).remove(i as int));
                }
                ClearinghouseReply::Ack { tx }
            },
        }
    }

    /// Takes one event in and says what is to be done.
    pub fn step(&mut self, event: ClearinghouseEvent) -> (action: ClearinghouseAction)
        ensures
            final(self).same_stage(*old(self)),
            final(self)@ == match event {
                ClearinghouseEvent::Telemetry(Some(data)) => old(self)@.after_telemetry(data@),
                ClearinghouseEvent::Command(command) => old(self)@.after_command(command@),
                _ => old(self)@,
            },
            action.is_due(event, old(self)@),
    {
        match event {
            ClearinghouseEvent::Telemetry(data) => {
                match Clearinghouse::handle_telemetry_data(
                    data,
                    &self.subscriptions,
                    &mut self.database,
                ) {
                    Some(outgoing) => ClearinghouseAction::Publish(outgoing),
                    None => ClearinghouseAction::Stop,
                }
            },
            ClearinghouseEvent::Command(command) => {
                let reply = Clearinghouse::handle_command(
                    command,
                    &mut self.subscriptions,
                    &self.database,
                    &mut self.outlets,
                    &mut self.links,
                );
                ClearinghouseAction::Reply(reply)
            },
            ClearinghouseEvent::Closed => ClearinghouseAction::Stop,
        }
    }

    /// Goes on with a run, whose end is kept in `ended`: an event is taken in and
    /// it is said what is to be done, unless the run has ended, after which
    /// nothing is taken in. A round of sending in which something failed ends the
    /// run with the first failure.
    pub fn proceed<E>(&mut self, ended: &mut Option<Result<(), E>>, event: RunEvent<E>) -> (action:
        Option<ClearinghouseAction>)
        ensures
            final(self).same_stage(*old(self)),
            (RunView { state: final(self)@, ended: *final(ended) }) == (RunView {
                state: old(self)@,
                ended: *old(ended),
            }).after(event@),
            match event {
                RunEvent::Happened(happened) if *old(ended) is None => action matches Some(a)
                    && a.is_due(happened, old(self)@),
                _ => action is None,
            },
    {
        if ended.is_some() {
            return None;
        }
        match event {
            RunEvent::Happened(happened) => {
                let action = self.step(happened);
                if let ClearinghouseAction::Stop = action {
                    *ended = Some(Ok(()));
                }
                Some(action)
            },
            RunEvent::Sent(statuses) => {
                let ghost all = statuses@;
                match Clearinghouse::published(statuses) {
                    Ok(()) => {
                        proof {
                            if let Some(e) = super::run::first_failure(all) {
                                super::run::law_first_failure(all, e);
                            }
                        }
                    },
                    Err(e) => {
                        proof {
                            super::run::law_first_failure(all, e);
                        }
                        *ended = Some(Err(e));
                    },
                }
                None
            },
        }
    }

    /// The name of the clearinghouse.
    pub fn name(&self) -> (name: &str)
        ensures
            name@ == self.name@,
    {
        self.name.as_str()
    }

    /// The port by which telemetry comes in.
    pub fn inlet(&mut self) -> (inlet: &mut Inlet)
        ensures
            *inlet == old(self).inlet,
            *final(self) == (Clearinghouse { inlet: *final(inlet), ..*old(self) }),
    {
        &mut self.inlet
    }

    /// The ports by which subscribers are served.
    pub fn outlets(&mut self) -> (outlets: &mut [Outlet])
        ensures
            outlets@ == old(self).outlets@,
            final(self).outlets@ == final(outlets)@,
            *final(self) == (Clearinghouse { outlets: final(self).outlets, ..*old(self) }),
    {
        self.outlets.as_mut_slice()
    }

    /// A handle by which commands reach this clearinghouse.
    pub fn tx_api(&self) -> (api: ClearinghouseApi)
        ensures
            cloned(self.tx_api, api),
    {
        self.tx_api.clone()
    }
}

} // verus!
