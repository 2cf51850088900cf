//! What becomes of commands.

use tokio::sync::oneshot;
use vstd::prelude::*;

use super::super::clearinghouse::{
    Clearinghouse, ClearinghouseAction, ClearinghouseCmd, ClearinghouseEvent, ClearinghouseReply,
    ClearinghouseResp, TelemetrySubscription,
};
use super::super::model::Text;
use crate::elements::telemetry::{FieldSet, TelemetryData};
use crate::graph::port::{Inlet, Links, Outlet};

verus! {

/// A snapshot under the name of a subscription shows that subscription, the first
/// of its name, and those of its fields that have values; their names are listed
/// too. Without a name, or under one that no subscription has, it shows all
/// subscriptions and all values, and lists no name.
pub proof fn law_take_snapshot(
    name: Option<String>,
    subscriptions: &Vec<TelemetrySubscription>,
    database: &TelemetryData,
    resp: ClearinghouseResp,
)
    requires
        call_ensures(Clearinghouse::take_snapshot, (name, subscriptions, database), resp),
    ensures
        forall|i: int|
            {
                &&& name is Some
                &&& 0 <= i < subscriptions@.len()
                &&& (#[trigger] subscriptions@[i]).name@ == name->Some_0@
                &&& forall|j: int| 0 <= j < i ==> (#[trigger] subscriptions@[j]).name@ != name->Some_0@
            } ==> {
                &&& resp->Snapshot_subscriptions@.len() == 1
                &&& resp->Snapshot_subscriptions@[0].name@ == subscriptions@[i].name@
                &&& resp->Snapshot_subscriptions@[0].fields@ == subscriptions@[i].fields@
                &&& resp->Snapshot_subscriptions@[0].outlet_to_subscription.name@
                    == subscriptions@[i].outlet_to_subscription.name@
                &&& resp->Snapshot_subscriptions@[0].outlet_to_subscription.port
                    == subscriptions@[i].outlet_to_subscription.port
                &&& forall|f: Text| #[trigger]
                    resp->Snapshot_database@.contains_key(f) <==> database@.contains_key(f)
                        && subscriptions@[i].fields@.contains(f)
                &&& forall|f: Text| #[trigger] resp->Snapshot_database@.contains_key(f) ==> resp->Snapshot_database@[f] == database@[f]
                &&& forall|f: Text| #[trigger] resp->Snapshot_missing@.contains(f) <==> resp->Snapshot_database@.contains_key(f)
            },
        (name is None || forall|i: int|
            0 <= i < subscriptions@.len() ==> (#[trigger] subscriptions@[i]).name@ != name->Some_0@) ==> {
            &&& resp->Snapshot_subscriptions@.len() == subscriptions@.len()
            &&& forall|i: int|
                0 <= i < subscriptions@.len() ==> {
                    &&& (#[trigger] resp->Snapshot_subscriptions@[i]).name@ == subscriptions@[i].name@
                    &&& resp->Snapshot_subscriptions@[i].fields@ == subscriptions@[i].fields@
                    &&& resp->Snapshot_subscriptions@[i].outlet_to_subscription.name@
                        == subscriptions@[i].outlet_to_subscription.name@
                    &&& resp->Snapshot_subscriptions@[i].outlet_to_subscription.port
                        == subscriptions@[i].outlet_to_subscription.port
                }
            &&& forall|f: Text| #[trigger] resp->Snapshot_database@.contains_key(f) <==> database@.contains_key(f)
            &&& forall|f: Text| #[trigger] resp->Snapshot_database@.contains_key(f) ==> resp->Snapshot_database@[f] == database@[f]
            &&& forall|f: Text| !(#[trigger] resp->Snapshot_missing@.contains(f))
        },
{
    super::lists::lemma_snapshot(
        subscriptions@,
        database@,
        name,
        resp->Snapshot_database,
        resp->Snapshot_missing,
        resp->Snapshot_subscriptions,
    );
}

/// The command to subscribe adds one subscription at the end, with the name and
/// the fields that it holds and a port of its own that feeds the receiver, lists
/// that port at the end, changes nothing else, and is confirmed on the channel
/// that came with it.
#[verifier::spinoff_prover]
pub proof fn law_handle_subscribe(
    name: String,
    fields: FieldSet,
    receiver: Inlet,
    tx: oneshot::Sender<()>,
    subscriptions: &mut Vec<TelemetrySubscription>,
    database: &TelemetryData,
    outlets: &mut Vec<Outlet>,
    links: &mut Links,
    reply: ClearinghouseReply,
)
    requires
        call_ensures(
            Clearinghouse::handle_command,
            (
                ClearinghouseCmd::Subscribe { name, fields, receiver, tx },
                subscriptions,
                database,
                outlets,
                links,
            ),
            reply,
        ),
    ensures
        final(subscriptions)@.len() == old(subscriptions)@.len() + 1,
        forall|i: int|
            0 <= i < old(subscriptions)@.len() ==> {
                &&& (#[trigger] final(subscriptions)@[i]).name@ == old(subscriptions)@[i].name@
                &&& final(subscriptions)@[i].fields@ == old(subscriptions)@[i].fields@
                &&& final(subscriptions)@[i].outlet_to_subscription.name@
                    == old(subscriptions)@[i].outlet_to_subscription.name@
                &&& final(subscriptions)@[i].outlet_to_subscription.port
                    == old(subscriptions)@[i].outlet_to_subscription.port
            },
        final(subscriptions)@.last().name@ == name@,
        forall|f: Text| #[trigger]
            final(subscriptions)@.last().fields@.contains(f) <==> fields@.contains(f),
        final(subscriptions)@.last().outlet_to_subscription.name@ == "outlet_to_subscription_"@ + name@,
        final(subscriptions)@.last().outlet_to_subscription.port == old(outlets)@.len(),
        final(outlets)@.len() == old(outlets)@.len() + 1,
        forall|i: int|
            0 <= i < old(outlets)@.len() ==> (#[trigger] final(outlets)@[i]).name@ == old(outlets)@[i].name@
                && final(outlets)@[i].port == old(outlets)@[i].port,
        final(outlets)@.last().name@ == "outlet_to_subscription_"@ + name@,
        final(outlets)@.last().port == old(outlets)@.len(),
        final(links)@.get(old(outlets)@.len() as u64) == Some(receiver.port),
        forall|p: u64|
            p != old(outlets)@.len() ==> #[trigger] final(links)@.get(p) == old(links)@.get(p),
        reply == (ClearinghouseReply::Ack { tx }),
{
    assert(old(outlets).len() <= usize::MAX);
    super::lists::lemma_joined(
        (old(subscriptions)@, old(outlets)@, old(links)@),
        (final(subscriptions)@, final(outlets)@, final(links)@),
        database@,
        database@,
        name@,
        fields@,
        receiver.port,
    );
}

/// The command to unsubscribe takes out the first subscription of the name that
/// it holds, if there is one, keeps the others in their order, changes nothing
/// else, and is confirmed on the channel that came with it.
#[verifier::spinoff_prover]
pub proof fn law_handle_unsubscribe(
    name: String,
    tx: oneshot::Sender<()>,
    subscriptions: &mut Vec<TelemetrySubscription>,
    database: &TelemetryData,
    outlets: &mut Vec<Outlet>,
    links: &mut Links,
    reply: ClearinghouseReply,
)
    requires
        call_ensures(
            Clearinghouse::handle_command,
            (
                ClearinghouseCmd::Unsubscribe { name, tx },
                subscriptions,
                database,
                outlets,
                links,
            ),
            reply,
        ),
    ensures
        final(outlets)@.len() == old(outlets)@.len(),
        forall|i: int|
            0 <= i < old(outlets)@.len() ==> (#[trigger] final(outlets)@[i]).name@
                == old(outlets)@[i].name@ && final(outlets)@[i].port == old(outlets)@[i].port,
        final(links)@ == old(links)@,
        forall|i: int|
            {
                &&& 0 <= i < old(subscriptions)@.len()
                &&& (#[trigger] old(subscriptions)@[i]).name@ == name@
                &&& forall|j: int| 0 <= j < i ==> (#[trigger] old(subscriptions)@[j]).name@ != name@
            } ==> {
                &&& final(subscriptions)@.len() == old(subscriptions)@.len() - 1
                &&& forall|j: int|
                    0 <= j < final(subscriptions)@.len() ==> {
                        let from = if j < i {
                            j
                        } else {
                            j + 1
                        };
                        &&& (#[trigger] final(subscriptions)@[j]).name@ == old(subscriptions)@[from].name@
                        &&& final(subscriptions)@[j].fields@ == old(subscriptions)@[from].fields@
                        &&& final(subscriptions)@[j].outlet_to_subscription.name@
                            == old(subscriptions)@[from].outlet_to_subscription.name@
                        &&& final(subscriptions)@[j].outlet_to_subscription.port
                            == old(subscriptions)@[from].outlet_to_subscription.port
                    }
            },
        (forall|i: int| 0 <= i < old(subscriptions)@.len() ==> (#[trigger] old(subscriptions)@[i]).name@ != name@) ==> {
            &&& final(subscriptions)@.len() == old(subscriptions)@.len()
            &&& forall|i: int|
                0 <= i < old(subscriptions)@.len() ==> {
                    &&& (#[trigger] final(subscriptions)@[i]).name@ == old(subscriptions)@[i].name@
                    &&& final(subscriptions)@[i].fields@ == old(subscriptions)@[i].fields@
                    &&& final(subscriptions)@[i].outlet_to_subscription.name@
                        == old(subscriptions)@[i].outlet_to_subscription.name@
                    &&& final(subscriptions)@[i].outlet_to_subscription.port
                        == old(subscriptions)@[i].outlet_to_subscription.port
                }
        },
        reply == (ClearinghouseReply::Ack { tx }),
{
    super::lists::lemma_left(
        old(subscriptions)@,
        final(subscriptions)@,
        old(outlets)@,
        final(outlets)@,
        (old(links)@, final(links)@),
        (database@, database@),
        name@,
    );
}

/// A request for a snapshot changes nothing and is answered, on the channel that
/// came with it, with the snapshot that its name asks for: of the first
/// subscription of that name, or else of everything.
#[verifier::spinoff_prover]
pub proof fn law_handle_snapshot(
    name: Option<String>,
    tx: oneshot::Sender<ClearinghouseResp>,
    subscriptions: &mut Vec<TelemetrySubscription>,
    database: &TelemetryData,
    outlets: &mut Vec<Outlet>,
    links: &mut Links,
    reply: ClearinghouseReply,
)
    requires
        call_ensures(
            Clearinghouse::handle_command,
            (
                ClearinghouseCmd::GetSnapshot { name, tx },
                subscriptions,
                database,
                outlets,
                links,
            ),
            reply,
        ),
    ensures
        final(subscriptions)@.len() == old(subscriptions)@.len(),
        forall|i: int|
            0 <= i < old(subscriptions)@.len() ==> {
                &&& (#[trigger] final(subscriptions)@[i]).name@ == old(subscriptions)@[i].name@
                &&& final(subscriptions)@[i].fields@ == old(subscriptions)@[i].fields@
                &&& final(subscriptions)@[i].outlet_to_subscription.name@
                    == old(subscriptions)@[i].outlet_to_subscription.name@
                &&& final(subscriptions)@[i].outlet_to_subscription.port
                    == old(subscriptions)@[i].outlet_to_subscription.port
            },
        final(outlets)@.len() == old(outlets)@.len(),
        forall|i: int|
            0 <= i < old(outlets)@.len() ==> (#[trigger] final(outlets)@[i]).name@
                == old(outlets)@[i].name@ && final(outlets)@[i].port == old(outlets)@[i].port,
        final(links)@ == old(links)@,
        reply is Snapshot,
        reply->Snapshot_tx == tx,
        forall|i: int|
            {
                &&& name is Some
                &&& 0 <= i < old(subscriptions)@.len()
                &&& (#[trigger] old(subscriptions)@[i]).name@ == name->Some_0@
                &&& forall|j: int| 0 <= j < i ==> (#[trigger] old(subscriptions)@[j]).name@ != name->Some_0@
            } ==> {
                &&& reply->resp->Snapshot_subscriptions@.len() == 1
                &&& reply->resp->Snapshot_subscriptions@[0].name@ == old(subscriptions)@[i].name@
                &&& reply->resp->Snapshot_subscriptions@[0].fields@ == old(subscriptions)@[i].fields@
                &&& reply->resp->Snapshot_subscriptions@[0].outlet_to_subscription.name@
                    == old(subscriptions)@[i].outlet_to_subscription.name@
                &&& reply->resp->Snapshot_subscriptions@[0].outlet_to_subscription.port
                    == old(subscriptions)@[i].outlet_to_subscription.port
                &&& forall|f: Text| #[trigger]
                    reply->resp->Snapshot_database@.contains_key(f) <==> database@.contains_key(f)
                        && old(subscriptions)@[i].fields@.contains(f)
                &&& forall|f: Text| #[trigger] reply->resp->Snapshot_database@.contains_key(f) ==> reply->resp->Snapshot_database@[f] == database@[f]
                &&& forall|f: Text| #[trigger] reply->resp->Snapshot_missing@.contains(f) <==> reply->resp->Snapshot_database@.contains_key(f)
            },
        (name is None || forall|i: int|
            0 <= i < old(subscriptions)@.len() ==> (#[trigger] old(subscriptions)@[i]).name@ != name->Some_0@) ==> {
            &&& reply->resp->Snapshot_subscriptions@.len() == old(subscriptions)@.len()
            &&& forall|i: int|
                0 <= i < old(subscriptions)@.len() ==> {
                    &&& (#[trigger] reply->resp->Snapshot_subscriptions@[i]).name@ == old(subscriptions)@[i].name@
                    &&& reply->resp->Snapshot_subscriptions@[i].fields@ == old(subscriptions)@[i].fields@
                    &&& reply->resp->Snapshot_subscriptions@[i].outlet_to_subscription.name@
                        == old(subscriptions)@[i].outlet_to_subscription.name@
                    &&& reply->resp->Snapshot_subscriptions@[i].outlet_to_subscription.port
                        == old(subscriptions)@[i].outlet_to_subscription.port
                }
            &&& forall|f: Text| #[trigger] reply->resp->Snapshot_database@.contains_key(f) <==> database@.contains_key(f)
            &&& forall|f: Text| #[trigger] reply->resp->Snapshot_database@.contains_key(f) ==> reply->resp->Snapshot_database@[f] == database@[f]
            &&& forall|f: Text| !(#[trigger] reply->resp->Snapshot_missing@.contains(f))
        },
{
    super::lists::lemma_same_subscriptions(final(subscriptions)@, old(subscriptions)@);
    super::lists::lemma_same_outlets(final(outlets)@, old(outlets)@);
    super::lists::lemma_snapshot(
        old(subscriptions)@,
        database@,
        name,
        reply->resp->Snapshot_database,
        reply->resp->Snapshot_missing,
        reply->resp->Snapshot_subscriptions,
    );
}

/// The command to subscribe adds one subscription at the end, with the name and
/// the fields that it holds and a port of its own that feeds the receiver, lists
/// that port at the end, changes nothing else, and is confirmed on the channel
/// that came with it.
#[verifier::spinoff_prover]
pub proof fn law_step_subscribe(
    clearinghouse: &mut Clearinghouse,
    name: String,
    fields: FieldSet,
    receiver: Inlet,
    tx: oneshot::Sender<()>,
    action: ClearinghouseAction,
)
    requires
        call_ensures(
            Clearinghouse::step,
            (
                clearinghouse,
                ClearinghouseEvent::Command(ClearinghouseCmd::Subscribe { name, fields, receiver, tx }),
            ),
            action,
        ),
    ensures
        final(clearinghouse).subscriptions@.len() == old(clearinghouse).subscriptions@.len() + 1,
        forall|i: int|
            0 <= i < old(clearinghouse).subscriptions@.len() ==> {
                &&& (#[trigger] final(clearinghouse).subscriptions@[i]).name@ == old(clearinghouse).subscriptions@[i].name@
                &&& final(clearinghouse).subscriptions@[i].fields@ == old(clearinghouse).subscriptions@[i].fields@
                &&& final(clearinghouse).subscriptions@[i].outlet_to_subscription.name@
                    == old(clearinghouse).subscriptions@[i].outlet_to_subscription.name@
                &&& final(clearinghouse).subscriptions@[i].outlet_to_subscription.port
                    == old(clearinghouse).subscriptions@[i].outlet_to_subscription.port
            },
        final(clearinghouse).subscriptions@.last().name@ == name@,
        forall|f: Text| #[trigger]
            final(clearinghouse).subscriptions@.last().fields@.contains(f) <==> fields@.contains(f),
        final(clearinghouse).subscriptions@.last().outlet_to_subscription.name@ == "outlet_to_subscription_"@ + name@,
        final(clearinghouse).subscriptions@.last().outlet_to_subscription.port == old(clearinghouse).outlets@.len(),
        final(clearinghouse).outlets@.len() == old(clearinghouse).outlets@.len() + 1,
        forall|i: int|
            0 <= i < old(clearinghouse).outlets@.len() ==> (#[trigger] final(clearinghouse).outlets@[i]).name@ == old(clearinghouse).outlets@[i].name@
                && final(clearinghouse).outlets@[i].port == old(clearinghouse).outlets@[i].port,
        final(clearinghouse).outlets@.last().name@ == "outlet_to_subscription_"@ + name@,
        final(clearinghouse).outlets@.last().port == old(clearinghouse).outlets@.len(),
        final(clearinghouse).links@.get(old(clearinghouse).outlets@.len() as u64) == Some(receiver.port),
        forall|p: u64|
            p != old(clearinghouse).outlets@.len() ==> #[trigger] final(clearinghouse).links@.get(p) == old(clearinghouse).links@.get(p),
        final(clearinghouse).database@ == old(clearinghouse).database@,
        final(clearinghouse).name == old(clearinghouse).name,
        final(clearinghouse).inlet == old(clearinghouse).inlet,
        final(clearinghouse).tx_api == old(clearinghouse).tx_api,
        final(clearinghouse).rx_api == old(clearinghouse).rx_api,
        action is Reply,
        action->Reply_0 == (ClearinghouseReply::Ack { tx }),
{
    assert(old(clearinghouse).outlets.len() <= usize::MAX);
    super::lists::lemma_joined(
        (old(clearinghouse).subscriptions@, old(clearinghouse).outlets@, old(clearinghouse).links@),
        (
            final(clearinghouse).subscriptions@,
            final(clearinghouse).outlets@,
            final(clearinghouse).links@,
        ),
        old(clearinghouse).database@,
        final(clearinghouse).database@,
        name@,
        fields@,
        receiver.port,
    );
}

/// The command to unsubscribe takes out the first subscription of the name that
/// it holds, if there is one, keeps the others in their order, changes nothing
/// else, and is confirmed on the channel that came with it.
#[verifier::spinoff_prover]
pub proof fn law_step_unsubscribe(
    clearinghouse: &mut Clearinghouse,
    name: String,
    tx: oneshot::Sender<()>,
    action: ClearinghouseAction,
)
    requires
        call_ensures(
            Clearinghouse::step,
            (
                clearinghouse,
                ClearinghouseEvent::Command(ClearinghouseCmd::Unsubscribe { name, tx }),
            ),
            action,
        ),
    ensures
        final(clearinghouse).outlets@.len() == old(clearinghouse).outlets@.len(),
        forall|i: int|
            0 <= i < old(clearinghouse).outlets@.len() ==> (#[trigger] final(clearinghouse).outlets@[i]).name@
                == old(clearinghouse).outlets@[i].name@ && final(clearinghouse).outlets@[i].port == old(clearinghouse).outlets@[i].port,
        final(clearinghouse).links@ == old(clearinghouse).links@,
        forall|i: int|
            {
                &&& 0 <= i < old(clearinghouse).subscriptions@.len()
                &&& (#[trigger] old(clearinghouse).subscriptions@[i]).name@ == name@
                &&& forall|j: int| 0 <= j < i ==> (#[trigger] old(clearinghouse).subscriptions@[j]).name@ != name@
            } ==> {
                &&& final(clearinghouse).subscriptions@.len() == old(clearinghouse).subscriptions@.len() - 1
                &&& forall|j: int|
                    0 <= j < final(clearinghouse).subscriptions@.len() ==> {
                        let from = if j < i {
                            j
                        } else {
                            j + 1
                        };
                        &&& (#[trigger] final(clearinghouse).subscriptions@[j]).name@ == old(clearinghouse).subscriptions@[from].name@
                        &&& final(clearinghouse).subscriptions@[j].fields@ == old(clearinghouse).subscriptions@[from].fields@
                        &&& final(clearinghouse).subscriptions@[j].outlet_to_subscription.name@
                            == old(clearinghouse).subscriptions@[from].outlet_to_subscription.name@
                        &&& final(clearinghouse).subscriptions@[j].outlet_to_subscription.port
                            == old(clearinghouse).subscriptions@[from].outlet_to_subscription.port
                    }
            },
        (forall|i: int| 0 <= i < old(clearinghouse).subscriptions@.len() ==> (#[trigger] old(clearinghouse).subscriptions@[i]).name@ != name@) ==> {
            &&& final(clearinghouse).subscriptions@.len() == old(clearinghouse).subscriptions@.len()
            &&& forall|i: int|
                0 <= i < old(clearinghouse).subscriptions@.len() ==> {
                    &&& (#[trigger] final(clearinghouse).subscriptions@[i]).name@ == old(clearinghouse).subscriptions@[i].name@
                    &&& final(clearinghouse).subscriptions@[i].fields@ == old(clearinghouse).subscriptions@[i].fields@
                    &&& final(clearinghouse).subscriptions@[i].outlet_to_subscription.name@
                        == old(clearinghouse).subscriptions@[i].outlet_to_subscription.name@
                    &&& final(clearinghouse).subscriptions@[i].outlet_to_subscription.port
                        == old(clearinghouse).subscriptions@[i].outlet_to_subscription.port
                }
        },
        final(clearinghouse).database@ == old(clearinghouse).database@,
        final(clearinghouse).name == old(clearinghouse).name,
        final(clearinghouse).inlet == old(clearinghouse).inlet,
        final(clearinghouse).tx_api == old(clearinghouse).tx_api,
        final(clearinghouse).rx_api == old(clearinghouse).rx_api,
        action is Reply,
        action->Reply_0 == (ClearinghouseReply::Ack { tx }),
{
    super::lists::lemma_left(
        old(clearinghouse).subscriptions@,
        final(clearinghouse).subscriptions@,
        old(clearinghouse).outlets@,
        final(clearinghouse).outlets@,
        (old(clearinghouse).links@, final(clearinghouse).links@),
        (old(clearinghouse).database@, final(clearinghouse).database@),
        name@,
    );
}

/// A request for a snapshot changes nothing and is answered, on the channel that
/// came with it, with the snapshot that its name asks for: of the first
/// subscription of that name, or else of everything.
#[verifier::spinoff_prover]
pub proof fn law_step_snapshot(
    clearinghouse: &mut Clearinghouse,
    name: Option<String>,
    tx: oneshot::Sender<ClearinghouseResp>,
    action: ClearinghouseAction,
)
    requires
        call_ensures(
            Clearinghouse::step,
            (
                clearinghouse,
                ClearinghouseEvent::Command(ClearinghouseCmd::GetSnapshot { name, tx }),
            ),
            action,
        ),
    ensures
        final(clearinghouse).subscriptions@.len() == old(clearinghouse).subscriptions@.len(),
        forall|i: int|
            0 <= i < old(clearinghouse).subscriptions@.len() ==> {
                &&& (#[trigger] final(clearinghouse).subscriptions@[i]).name@ == old(clearinghouse).subscriptions@[i].name@
                &&& final(clearinghouse).subscriptions@[i].fields@ == old(clearinghouse).subscriptions@[i].fields@
                &&& final(clearinghouse).subscriptions@[i].outlet_to_subscription.name@
                    == old(clearinghouse).subscriptions@[i].outlet_to_subscription.name@
                &&& final(clearinghouse).subscriptions@[i].outlet_to_subscription.port
                    == old(clearinghouse).subscriptions@[i].outlet_to_subscription.port
            },
        final(clearinghouse).outlets@.len() == old(clearinghouse).outlets@.len(),
        forall|i: int|
            0 <= i < old(clearinghouse).outlets@.len() ==> (#[trigger] final(clearinghouse).outlets@[i]).name@
                == old(clearinghouse).outlets@[i].name@ && final(clearinghouse).outlets@[i].port == old(clearinghouse).outlets@[i].port,
        final(clearinghouse).links@ == old(clearinghouse).links@,
        final(clearinghouse).database@ == old(clearinghouse).database@,
        final(clearinghouse).name == old(clearinghouse).name,
        final(clearinghouse).inlet == old(clearinghouse).inlet,
        final(clearinghouse).tx_api == old(clearinghouse).tx_api,
        final(clearinghouse).rx_api == old(clearinghouse).rx_api,
        action is Reply,
        action->Reply_0 is Snapshot,
        action->Reply_0->Snapshot_tx == tx,
        forall|i: int|
            {
                &&& name is Some
                &&& 0 <= i < old(clearinghouse).subscriptions@.len()
                &&& (#[trigger] old(clearinghouse).subscriptions@[i]).name@ == name->Some_0@
                &&& forall|j: int| 0 <= j < i ==> (#[trigger] old(clearinghouse).subscriptions@[j]).name@ != name->Some_0@
            } ==> {
                &&& action->Reply_0->resp->Snapshot_subscriptions@.len() == 1
                &&& action->Reply_0->resp->Snapshot_subscriptions@[0].name@ == old(clearinghouse).subscriptions@[i].name@
                &&& action->Reply_0->resp->Snapshot_subscriptions@[0].fields@ == old(clearinghouse).subscriptions@[i].fields@
                &&& action->Reply_0->resp->Snapshot_subscriptions@[0].outlet_to_subscription.name@
                    == old(clearinghouse).subscriptions@[i].outlet_to_subscription.name@
                &&& action->Reply_0->resp->Snapshot_subscriptions@[0].outlet_to_subscription.port
                    == old(clearinghouse).subscriptions@[i].outlet_to_subscription.port
                &&& forall|f: Text| #[trigger]
                    action->Reply_0->resp->Snapshot_database@.contains_key(f) <==> old(clearinghouse).database@.contains_key(f)
                        && old(clearinghouse).subscriptions@[i].fields@.contains(f)
                &&& forall|f: Text| #[trigger] action->Reply_0->resp->Snapshot_database@.contains_key(f) ==> action->Reply_0->resp->Snapshot_database@[f] == old(clearinghouse).database@[f]
                &&& forall|f: Text| #[trigger] action->Reply_0->resp->Snapshot_missing@.contains(f) <==> action->Reply_0->resp->Snapshot_database@.contains_key(f)
            },
        (name is None || forall|i: int|
            0 <= i < old(clearinghouse).subscriptions@.len() ==> (#[trigger] old(clearinghouse).subscriptions@[i]).name@ != name->Some_0@) ==> {
            &&& action->Reply_0->resp->Snapshot_subscriptions@.len() == old(clearinghouse).subscriptions@.len()
            &&& forall|i: int|
                0 <= i < old(clearinghouse).subscriptions@.len() ==> {
                    &&& (#[trigger] action->Reply_0->resp->Snapshot_subscriptions@[i]).name@ == old(clearinghouse).subscriptions@[i].name@
                    &&& action->Reply_0->resp->Snapshot_subscriptions@[i].fields@ == old(clearinghouse).subscriptions@[i].fields@
                    &&& action->Reply_0->resp->Snapshot_subscriptions@[i].outlet_to_subscription.name@
                        == old(clearinghouse).subscriptions@[i].outlet_to_subscription.name@
                    &&& action->Reply_0->resp->Snapshot_subscriptions@[i].outlet_to_subscription.port
                        == old(clearinghouse).subscriptions@[i].outlet_to_subscription.port
                }
            &&& forall|f: Text| #[trigger] action->Reply_0->resp->Snapshot_database@.contains_key(f) <==> old(clearinghouse).database@.contains_key(f)
            &&& forall|f: Text| #[trigger] action->Reply_0->resp->Snapshot_database@.contains_key(f) ==> action->Reply_0->resp->Snapshot_database@[f] == old(clearinghouse).database@[f]
            &&& forall|f: Text| !(#[trigger] action->Reply_0->resp->Snapshot_missing@.contains(f))
        },
{
    super::lists::lemma_same_subscriptions(final(clearinghouse).subscriptions@, old(clearinghouse).subscriptions@);
    super::lists::lemma_same_outlets(final(clearinghouse).outlets@, old(clearinghouse).outlets@);
    super::lists::lemma_snapshot(
        old(clearinghouse).subscriptions@,
        old(clearinghouse).database@,
        name,
        action->Reply_0->resp->Snapshot_database,
        action->Reply_0->resp->Snapshot_missing,
        action->Reply_0->resp->Snapshot_subscriptions,
    );
}

/// Adding a subscription directly, under a name that is a slice, adds it at the
/// end with that name, the given fields and a port of its own that feeds the
/// receiver, lists that port at the end, and changes nothing else.
pub proof fn law_add_subscription_slice(
    clearinghouse: &mut Clearinghouse,
    name: &str,
    fields: FieldSet,
    receiver: &Inlet,
)
    requires
        call_ensures(
            Clearinghouse::add_subscription::<&str>,
            (clearinghouse, name, fields, receiver),
            (),
        ),
    ensures
        final(clearinghouse).subscriptions@.len() == old(clearinghouse).subscriptions@.len() + 1,
        forall|i: int|
            0 <= i < old(clearinghouse).subscriptions@.len() ==> {
                &&& (#[trigger] final(clearinghouse).subscriptions@[i]).name@ == old(clearinghouse).subscriptions@[i].name@
                &&& final(clearinghouse).subscriptions@[i].fields@ == old(clearinghouse).subscriptions@[i].fields@
                &&& final(clearinghouse).subscriptions@[i].outlet_to_subscription.name@
                    == old(clearinghouse).subscriptions@[i].outlet_to_subscription.name@
                &&& final(clearinghouse).subscriptions@[i].outlet_to_subscription.port
                    == old(clearinghouse).subscriptions@[i].outlet_to_subscription.port
            },
        final(clearinghouse).subscriptions@.last().name@ == name@,
        forall|f: Text| #[trigger]
            final(clearinghouse).subscriptions@.last().fields@.contains(f) <==> fields@.contains(f),
        final(clearinghouse).subscriptions@.last().outlet_to_subscription.name@ == "outlet_to_subscription_"@ + name@,
        final(clearinghouse).subscriptions@.last().outlet_to_subscription.port == old(clearinghouse).outlets@.len(),
        final(clearinghouse).outlets@.len() == old(clearinghouse).outlets@.len() + 1,
        forall|i: int|
            0 <= i < old(clearinghouse).outlets@.len() ==> (#[trigger] final(clearinghouse).outlets@[i]).name@ == old(clearinghouse).outlets@[i].name@
                && final(clearinghouse).outlets@[i].port == old(clearinghouse).outlets@[i].port,
        final(clearinghouse).outlets@.last().name@ == "outlet_to_subscription_"@ + name@,
        final(clearinghouse).outlets@.last().port == old(clearinghouse).outlets@.len(),
        final(clearinghouse).links@.get(old(clearinghouse).outlets@.len() as u64) == Some(receiver.port),
        forall|p: u64|
            p != old(clearinghouse).outlets@.len() ==> #[trigger] final(clearinghouse).links@.get(p) == old(clearinghouse).links@.get(p),
        final(clearinghouse).database@ == old(clearinghouse).database@,
        final(clearinghouse).name == old(clearinghouse).name,
        final(clearinghouse).inlet == old(clearinghouse).inlet,
        final(clearinghouse).tx_api == old(clearinghouse).tx_api,
        final(clearinghouse).rx_api == old(clearinghouse).rx_api,
{
    let n = choose|n: String|
        {
            &&& #[trigger] crate::text::is_text_of(name, n)
            &&& final(clearinghouse)@ == old(clearinghouse)@.subscribed(n@, fields@, receiver.port)
        };
    assert(n@ == name@);
    assert(old(clearinghouse).outlets.len() <= usize::MAX);
    super::lists::lemma_joined(
        (old(clearinghouse).subscriptions@, old(clearinghouse).outlets@, old(clearinghouse).links@),
        (final(clearinghouse).subscriptions@, final(clearinghouse).outlets@, final(clearinghouse).links@),
        old(clearinghouse).database@,
        final(clearinghouse).database@,
        name@,
        fields@,
        receiver.port,
    );
}

/// Adding a subscription directly, under a name that is an owned string, adds it at the
/// end with that name, the given fields and a port of its own that feeds the
/// receiver, lists that port at the end, and changes nothing else.
pub proof fn law_add_subscription_owned(
    clearinghouse: &mut Clearinghouse,
    name: String,
    fields: FieldSet,
    receiver: &Inlet,
)
    requires
        call_ensures(
            Clearinghouse::add_subscription::<String>,
            (clearinghouse, name, fields, receiver),
            (),
        ),
    ensures
        final(clearinghouse).subscriptions@.len() == old(clearinghouse).subscriptions@.len() + 1,
        forall|i: int|
            0 <= i < old(clearinghouse).subscriptions@.len() ==> {
                &&& (#[trigger] final(clearinghouse).subscriptions@[i]).name@ == old(clearinghouse).subscriptions@[i].name@
                &&& final(clearinghouse).subscriptions@[i].fields@ == old(clearinghouse).subscriptions@[i].fields@
                &&& final(clearinghouse).subscriptions@[i].outlet_to_subscription.name@
                    == old(clearinghouse).subscriptions@[i].outlet_to_subscription.name@
                &&& final(clearinghouse).subscriptions@[i].outlet_to_subscription.port
                    == old(clearinghouse).subscriptions@[i].outlet_to_subscription.port
            },
        final(clearinghouse).subscriptions@.last().name@ == name@,
        forall|f: Text| #[trigger]
            final(clearinghouse).subscriptions@.last().fields@.contains(f) <==> fields@.contains(f),
        final(clearinghouse).subscriptions@.last().outlet_to_subscription.name@ == "outlet_to_subscription_"@ + name@,
        final(clearinghouse).subscriptions@.last().outlet_to_subscription.port == old(clearinghouse).outlets@.len(),
        final(clearinghouse).outlets@.len() == old(clearinghouse).outlets@.len() + 1,
        forall|i: int|
            0 <= i < old(clearinghouse).outlets@.len() ==> (#[trigger] final(clearinghouse).outlets@[i]).name@ == old(clearinghouse).outlets@[i].name@
                && final(clearinghouse).outlets@[i].port == old(clearinghouse).outlets@[i].port,
        final(clearinghouse).outlets@.last().name@ == "outlet_to_subscription_"@ + name@,
        final(clearinghouse).outlets@.last().port == old(clearinghouse).outlets@.len(),
        final(clearinghouse).links@.get(old(clearinghouse).outlets@.len() as u64) == Some(receiver.port),
        forall|p: u64|
            p != old(clearinghouse).outlets@.len() ==> #[trigger] final(clearinghouse).links@.get(p) == old(clearinghouse).links@.get(p),
        final(clearinghouse).database@ == old(clearinghouse).database@,
        final(clearinghouse).name == old(clearinghouse).name,
        final(clearinghouse).inlet == old(clearinghouse).inlet,
        final(clearinghouse).tx_api == old(clearinghouse).tx_api,
        final(clearinghouse).rx_api == old(clearinghouse).rx_api,
{
    let n = choose|n: String|
        {
            &&& #[trigger] crate::text::is_text_of(name, n)
            &&& final(clearinghouse)@ == old(clearinghouse)@.subscribed(n@, fields@, receiver.port)
        };
    assert(n@ == name@);
    assert(old(clearinghouse).outlets.len() <= usize::MAX);
    super::lists::lemma_joined(
        (old(clearinghouse).subscriptions@, old(clearinghouse).outlets@, old(clearinghouse).links@),
        (final(clearinghouse).subscriptions@, final(clearinghouse).outlets@, final(clearinghouse).links@),
        old(clearinghouse).database@,
        final(clearinghouse).database@,
        name@,
        fields@,
        receiver.port,
    );
}

} // verus!
