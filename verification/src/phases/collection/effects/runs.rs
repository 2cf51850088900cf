//! How a run goes on and ends.

use tokio::sync::oneshot;
use vstd::prelude::*;

use super::super::clearinghouse::{
    Clearinghouse, ClearinghouseAction, ClearinghouseCmd, ClearinghouseEvent, ClearinghouseReply,
    ClearinghouseResp, RunEvent,
};
use super::super::model::Text;
use crate::elements::telemetry::{FieldSet, TelemetryData};
use crate::graph::port::Inlet;

verus! {

/// While a run goes on, telemetry is taken in as a step takes it in, and the run
/// goes on.
#[verifier::spinoff_prover]
pub proof fn law_proceed_takes_telemetry<E>(
    clearinghouse: &mut Clearinghouse,
    ended: &mut Option<Result<(), E>>,
    data: TelemetryData,
    action: Option<ClearinghouseAction>,
)
    requires
        call_ensures(
            Clearinghouse::proceed::<E>,
            (
                clearinghouse,
                ended,
                RunEvent::Happened(ClearinghouseEvent::Telemetry(Some(data))),
            ),
            action,
        ),
        *old(ended) is None,
    ensures
        forall|f: Text| #[trigger]
            final(clearinghouse).database@.contains_key(f) <==> data@.contains_key(f) || old(clearinghouse).database@.contains_key(f),
        forall|f: Text| #[trigger]
            final(clearinghouse).database@.contains_key(f) ==> final(clearinghouse).database@[f] == if data@.contains_key(f) {
                data@[f]
            } else {
                old(clearinghouse).database@[f]
            },
        final(clearinghouse).subscriptions@.len() == old(clearinghouse).subscriptions@.len(),
        forall|i: int|
            0 <= i < old(clearinghouse).subscriptions@.len() ==> {
                &&& (#[trigger] final(clearinghouse).subscriptions@[i]).name@ == old(clearinghouse).subscriptions@[i].name@
                &&& final(clearinghouse).subscriptions@[i].fields@ == old(clearinghouse).subscriptions@[i].fields@
                &&& final(clearinghouse).subscriptions@[i].outlet_to_subscription.name@
                    == old(clearinghouse).subscriptions@[i].outlet_to_subscription.name@
                &&& final(clearinghouse).subscriptions@[i].outlet_to_subscription.port
                    == old(clearinghouse).subscriptions@[i].outlet_to_subscription.port
            },
        final(clearinghouse).outlets@.len() == old(clearinghouse).outlets@.len(),
        forall|i: int|
            0 <= i < old(clearinghouse).outlets@.len() ==> (#[trigger] final(clearinghouse).outlets@[i]).name@
                == old(clearinghouse).outlets@[i].name@ && final(clearinghouse).outlets@[i].port == old(clearinghouse).outlets@[i].port,
        final(clearinghouse).links@ == old(clearinghouse).links@,
        final(clearinghouse).name == old(clearinghouse).name,
        final(clearinghouse).inlet == old(clearinghouse).inlet,
        final(clearinghouse).tx_api == old(clearinghouse).tx_api,
        final(clearinghouse).rx_api == old(clearinghouse).rx_api,
        *final(ended) is None,
        action matches Some(ClearinghouseAction::Publish(outgoing)) && exists|at: Seq<int>|
            #![trigger at.len()]
            {
                &&& at.len() == outgoing@.len()
                &&& forall|a: int, b: int| 0 <= a < b < at.len() ==> at[a] < at[b]
                &&& forall|i: int|
                    0 <= i < old(clearinghouse).subscriptions@.len() ==> (#[trigger] at.contains(i) <==> {
                        &&& exists|f: Text| #[trigger]
                            old(clearinghouse).subscriptions@[i].fields@.contains(f) && data@.contains_key(f)
                        &&& forall|f: Text| #[trigger]
                            old(clearinghouse).subscriptions@[i].fields@.contains(f) ==> data@.contains_key(f)
                                || old(clearinghouse).database@.contains_key(f)
                    })
                &&& forall|k: int|
                    0 <= k < at.len() ==> {
                        &&& 0 <= #[trigger] at[k] < old(clearinghouse).subscriptions@.len()
                        &&& outgoing@[k].subscription@ == old(clearinghouse).subscriptions@[at[k]].name@
                        &&& outgoing@[k].outlet.name@
                            == old(clearinghouse).subscriptions@[at[k]].outlet_to_subscription.name@
                        &&& outgoing@[k].outlet.port
                            == old(clearinghouse).subscriptions@[at[k]].outlet_to_subscription.port
                        &&& forall|f: Text| #[trigger]
                            outgoing@[k].data@.contains_key(f)
                                <==> old(clearinghouse).subscriptions@[at[k]].fields@.contains(f)
                        &&& forall|f: Text| #[trigger]
                            outgoing@[k].data@.contains_key(f) ==> outgoing@[k].data@[f]
                                == if data@.contains_key(f) {
                                data@[f]
                            } else {
                                old(clearinghouse).database@[f]
                            }
                    }
            },
{
    super::lists::lemma_same_subscriptions(final(clearinghouse).subscriptions@, old(clearinghouse).subscriptions@);
    super::lists::lemma_same_outlets(final(clearinghouse).outlets@, old(clearinghouse).outlets@);
    super::lists::lemma_published(
        old(clearinghouse).subscriptions@,
        old(clearinghouse).outlets@,
        old(clearinghouse).links@,
        old(clearinghouse).database@,
        data@,
        action->Some_0->Publish_0@,
    );
}

/// Where the sources of telemetry dry up nothing changes, and it is time to stop.
#[verifier::spinoff_prover]
pub proof fn law_step_stops_when_dry(clearinghouse: &mut Clearinghouse, action: ClearinghouseAction)
    requires
        call_ensures(Clearinghouse::step, (clearinghouse, ClearinghouseEvent::Telemetry(None)), action),
    ensures
        action is Stop,
        final(clearinghouse).subscriptions@.len() == old(clearinghouse).subscriptions@.len(),
        forall|i: int|
            0 <= i < old(clearinghouse).subscriptions@.len() ==> {
                &&& (#[trigger] final(clearinghouse).subscriptions@[i]).name@ == old(clearinghouse).subscriptions@[i].name@
                &&& final(clearinghouse).subscriptions@[i].fields@ == old(clearinghouse).subscriptions@[i].fields@
                &&& final(clearinghouse).subscriptions@[i].outlet_to_subscription.name@
                    == old(clearinghouse).subscriptions@[i].outlet_to_subscription.name@
                &&& final(clearinghouse).subscriptions@[i].outlet_to_subscription.port
                    == old(clearinghouse).subscriptions@[i].outlet_to_subscription.port
            },
        final(clearinghouse).outlets@.len() == old(clearinghouse).outlets@.len(),
        forall|i: int|
            0 <= i < old(clearinghouse).outlets@.len() ==> (#[trigger] final(clearinghouse).outlets@[i]).name@
                == old(clearinghouse).outlets@[i].name@ && final(clearinghouse).outlets@[i].port == old(clearinghouse).outlets@[i].port,
        final(clearinghouse).links@ == old(clearinghouse).links@,
        final(clearinghouse).database@ == old(clearinghouse).database@,
        final(clearinghouse).name == old(clearinghouse).name,
        final(clearinghouse).inlet == old(clearinghouse).inlet,
        final(clearinghouse).tx_api == old(clearinghouse).tx_api,
        final(clearinghouse).rx_api == old(clearinghouse).rx_api,
{
    super::lists::lemma_same_subscriptions(final(clearinghouse).subscriptions@, old(clearinghouse).subscriptions@);
    super::lists::lemma_same_outlets(final(clearinghouse).outlets@, old(clearinghouse).outlets@);
}

/// Where nothing more can come in nothing changes, and it is time to stop.
#[verifier::spinoff_prover]
pub proof fn law_step_stops_when_closed(clearinghouse: &mut Clearinghouse, action: ClearinghouseAction)
    requires
        call_ensures(Clearinghouse::step, (clearinghouse, ClearinghouseEvent::Closed), action),
    ensures
        action is Stop,
        final(clearinghouse).subscriptions@.len() == old(clearinghouse).subscriptions@.len(),
        forall|i: int|
            0 <= i < old(clearinghouse).subscriptions@.len() ==> {
                &&& (#[trigger] final(clearinghouse).subscriptions@[i]).name@ == old(clearinghouse).subscriptions@[i].name@
                &&& final(clearinghouse).subscriptions@[i].fields@ == old(clearinghouse).subscriptions@[i].fields@
                &&& final(clearinghouse).subscriptions@[i].outlet_to_subscription.name@
                    == old(clearinghouse).subscriptions@[i].outlet_to_subscription.name@
                &&& final(clearinghouse).subscriptions@[i].outlet_to_subscription.port
                    == old(clearinghouse).subscriptions@[i].outlet_to_subscription.port
            },
        final(clearinghouse).outlets@.len() == old(clearinghouse).outlets@.len(),
        forall|i: int|
            0 <= i < old(clearinghouse).outlets@.len() ==> (#[trigger] final(clearinghouse).outlets@[i]).name@
                == old(clearinghouse).outlets@[i].name@ && final(clearinghouse).outlets@[i].port == old(clearinghouse).outlets@[i].port,
        final(clearinghouse).links@ == old(clearinghouse).links@,
        final(clearinghouse).database@ == old(clearinghouse).database@,
        final(clearinghouse).name == old(clearinghouse).name,
        final(clearinghouse).inlet == old(clearinghouse).inlet,
        final(clearinghouse).tx_api == old(clearinghouse).tx_api,
        final(clearinghouse).rx_api == old(clearinghouse).rx_api,
{
    super::lists::lemma_same_subscriptions(final(clearinghouse).subscriptions@, old(clearinghouse).subscriptions@);
    super::lists::lemma_same_outlets(final(clearinghouse).outlets@, old(clearinghouse).outlets@);
}

/// While a run goes on, the command to subscribe is carried out as a step
/// carries it out, and the run goes on.
#[verifier::spinoff_prover]
pub proof fn law_proceed_subscribe<E>(
    clearinghouse: &mut Clearinghouse,
    ended: &mut Option<Result<(), E>>,
    name: String,
    fields: FieldSet,
    receiver: Inlet,
    tx: oneshot::Sender<()>,
    action: Option<ClearinghouseAction>,
)
    requires
        call_ensures(
            Clearinghouse::proceed::<E>,
            (
                clearinghouse,
                ended,
                RunEvent::Happened(
                    ClearinghouseEvent::Command(ClearinghouseCmd::Subscribe { name, fields, receiver, tx }),
                ),
            ),
            action,
        ),
        *old(ended) is None,
    ensures
        final(clearinghouse).subscriptions@.len() == old(clearinghouse).subscriptions@.len() + 1,
        forall|i: int|
            0 <= i < old(clearinghouse).subscriptions@.len() ==> {
                &&& (#[trigger] final(clearinghouse).subscriptions@[i]).name@ == old(clearinghouse).subscriptions@[i].name@
                &&& final(clearinghouse).subscriptions@[i].fields@ == old(clearinghouse).subscriptions@[i].fields@
                &&& final(clearinghouse).subscriptions@[i].outlet_to_subscription.name@
                    == old(clearinghouse).subscriptions@[i].outlet_to_subscription.name@
                &&& final(clearinghouse).subscriptions@[i].outlet_to_subscription.port
                    == old(clearinghouse).subscriptions@[i].outlet_to_subscription.port
            },
        final(clearinghouse).subscriptions@.last().name@ == name@,
        forall|f: Text| #[trigger]
            final(clearinghouse).subscriptions@.last().fields@.contains(f) <==> fields@.contains(f),
        final(clearinghouse).subscriptions@.last().outlet_to_subscription.name@ == "outlet_to_subscription_"@ + name@,
        final(clearinghouse).subscriptions@.last().outlet_to_subscription.port == old(clearinghouse).outlets@.len(),
        final(clearinghouse).outlets@.len() == old(clearinghouse).outlets@.len() + 1,
        forall|i: int|
            0 <= i < old(clearinghouse).outlets@.len() ==> (#[trigger] final(clearinghouse).outlets@[i]).name@ == old(clearinghouse).outlets@[i].name@
                && final(clearinghouse).outlets@[i].port == old(clearinghouse).outlets@[i].port,
        final(clearinghouse).outlets@.last().name@ == "outlet_to_subscription_"@ + name@,
        final(clearinghouse).outlets@.last().port == old(clearinghouse).outlets@.len(),
        final(clearinghouse).links@.get(old(clearinghouse).outlets@.len() as u64) == Some(receiver.port),
        forall|p: u64|
            p != old(clearinghouse).outlets@.len() ==> #[trigger] final(clearinghouse).links@.get(p) == old(clearinghouse).links@.get(p),
        final(clearinghouse).database@ == old(clearinghouse).database@,
        final(clearinghouse).name == old(clearinghouse).name,
        final(clearinghouse).inlet == old(clearinghouse).inlet,
        final(clearinghouse).tx_api == old(clearinghouse).tx_api,
        final(clearinghouse).rx_api == old(clearinghouse).rx_api,
        action is Some,
        action->Some_0 is Reply,
        *final(ended) is None,
        action->Some_0->Reply_0 == (ClearinghouseReply::Ack { tx }),
{
    assert(old(clearinghouse).outlets.len() <= usize::MAX);
    super::lists::lemma_joined(
        (old(clearinghouse).subscriptions@, old(clearinghouse).outlets@, old(clearinghouse).links@),
        (
            final(clearinghouse).subscriptions@,
            final(clearinghouse).outlets@,
            final(clearinghouse).links@,
        ),
        old(clearinghouse).database@,
        final(clearinghouse).database@,
        name@,
        fields@,
        receiver.port,
    );
}

/// While a run goes on, the command to unsubscribe is carried out as a step
/// carries it out, and the run goes on.
#[verifier::spinoff_prover]
pub proof fn law_proceed_unsubscribe<E>(
    clearinghouse: &mut Clearinghouse,
    ended: &mut Option<Result<(), E>>,
    name: String,
    tx: oneshot::Sender<()>,
    action: Option<ClearinghouseAction>,
)
    requires
        call_ensures(
            Clearinghouse::proceed::<E>,
            (
                clearinghouse,
                ended,
                RunEvent::Happened(
                    ClearinghouseEvent::Command(ClearinghouseCmd::Unsubscribe { name, tx }),
                ),
            ),
            action,
        ),
        *old(ended) is None,
    ensures
        final(clearinghouse).outlets@.len() == old(clearinghouse).outlets@.len(),
        forall|i: int|
            0 <= i < old(clearinghouse).outlets@.len() ==> (#[trigger] final(clearinghouse).outlets@[i]).name@
                == old(clearinghouse).outlets@[i].name@ && final(clearinghouse).outlets@[i].port == old(clearinghouse).outlets@[i].port,
        final(clearinghouse).links@ == old(clearinghouse).links@,
        forall|i: int|
            {
                &&& 0 <= i < old(clearinghouse).subscriptions@.len()
                &&& (#[trigger] old(clearinghouse).subscriptions@[i]).name@ == name@
                &&& forall|j: int| 0 <= j < i ==> (#[trigger] old(clearinghouse).subscriptions@[j]).name@ != name@
            } ==> {
                &&& final(clearinghouse).subscriptions@.len() == old(clearinghouse).subscriptions@.len() - 1
                &&& forall|j: int|
                    0 <= j < final(clearinghouse).subscriptions@.len() ==> {
                        let from = if j < i {
                            j
                        } else {
                            j + 1
                        };
                        &&& (#[trigger] final(clearinghouse).subscriptions@[j]).name@ == old(clearinghouse).subscriptions@[from].name@
                        &&& final(clearinghouse).subscriptions@[j].fields@ == old(clearinghouse).subscriptions@[from].fields@
                        &&& final(clearinghouse).subscriptions@[j].outlet_to_subscription.name@
                            == old(clearinghouse).subscriptions@[from].outlet_to_subscription.name@
                        &&& final(clearinghouse).subscriptions@[j].outlet_to_subscription.port
                            == old(clearinghouse).subscriptions@[from].outlet_to_subscription.port
                    }
            },
        (forall|i: int| 0 <= i < old(clearinghouse).subscriptions@.len() ==> (#[trigger] old(clearinghouse).subscriptions@[i]).name@ != name@) ==> {
            &&& final(clearinghouse).subscriptions@.len() == old(clearinghouse).subscriptions@.len()
            &&& forall|i: int|
                0 <= i < old(clearinghouse).subscriptions@.len() ==> {
                    &&& (#[trigger] final(clearinghouse).subscriptions@[i]).name@ == old(clearinghouse).subscriptions@[i].name@
                    &&& final(clearinghouse).subscriptions@[i].fields@ == old(clearinghouse).subscriptions@[i].fields@
                    &&& final(clearinghouse).subscriptions@[i].outlet_to_subscription.name@
                        == old(clearinghouse).subscriptions@[i].outlet_to_subscription.name@
                    &&& final(clearinghouse).subscriptions@[i].outlet_to_subscription.port
                        == old(clearinghouse).subscriptions@[i].outlet_to_subscription.port
                }
        },
        final(clearinghouse).database@ == old(clearinghouse).database@,
        final(clearinghouse).name == old(clearinghouse).name,
        final(clearinghouse).inlet == old(clearinghouse).inlet,
        final(clearinghouse).tx_api == old(clearinghouse).tx_api,
        final(clearinghouse).rx_api == old(clearinghouse).rx_api,
        action is Some,
        action->Some_0 is Reply,
        *final(ended) is None,
        action->Some_0->Reply_0 == (ClearinghouseReply::Ack { tx }),
{
    assert(final(clearinghouse)@ == old(clearinghouse)@.unsubscribed(name@));
    super::lists::lemma_left(
        old(clearinghouse).subscriptions@,
        final(clearinghouse).subscriptions@,
        old(clearinghouse).outlets@,
        final(clearinghouse).outlets@,
        (old(clearinghouse).links@, final(clearinghouse).links@),
        (old(clearinghouse).database@, final(clearinghouse).database@),
        name@,
    );
}

/// While a run goes on, a request for a snapshot is carried out as a step
/// carries it out, and the run goes on.
#[verifier::spinoff_prover]
pub proof fn law_proceed_snapshot<E>(
    clearinghouse: &mut Clearinghouse,
    ended: &mut Option<Result<(), E>>,
    name: Option<String>,
    tx: oneshot::Sender<ClearinghouseResp>,
    action: Option<ClearinghouseAction>,
)
    requires
        call_ensures(
            Clearinghouse::proceed::<E>,
            (
                clearinghouse,
                ended,
                RunEvent::Happened(
                    ClearinghouseEvent::Command(ClearinghouseCmd::GetSnapshot { name, tx }),
                ),
            ),
            action,
        ),
        *old(ended) is None,
    ensures
        final(clearinghouse).subscriptions@.len() == old(clearinghouse).subscriptions@.len(),
        forall|i: int|
            0 <= i < old(clearinghouse).subscriptions@.len() ==> {
                &&& (#[trigger] final(clearinghouse).subscriptions@[i]).name@ == old(clearinghouse).subscriptions@[i].name@
                &&& final(clearinghouse).subscriptions@[i].fields@ == old(clearinghouse).subscriptions@[i].fields@
                &&& final(clearinghouse).subscriptions@[i].outlet_to_subscription.name@
                    == old(clearinghouse).subscriptions@[i].outlet_to_subscription.name@
                &&& final(clearinghouse).subscriptions@[i].outlet_to_subscription.port
                    == old(clearinghouse).subscriptions@[i].outlet_to_subscription.port
            },
        final(clearinghouse).outlets@.len() == old(clearinghouse).outlets@.len(),
        forall|i: int|
            0 <= i < old(clearinghouse).outlets@.len() ==> (#[trigger] final(clearinghouse).outlets@[i]).name@
                == old(clearinghouse).outlets@[i].name@ && final(clearinghouse).outlets@[i].port == old(clearinghouse).outlets@[i].port,
        final(clearinghouse).links@ == old(clearinghouse).links@,
        final(clearinghouse).database@ == old(clearinghouse).database@,
        final(clearinghouse).name == old(clearinghouse).name,
        final(clearinghouse).inlet == old(clearinghouse).inlet,
        final(clearinghouse).tx_api == old(clearinghouse).tx_api,
        final(clearinghouse).rx_api == old(clearinghouse).rx_api,
        action is Some,
        action->Some_0 is Reply,
        *final(ended) is None,
        action->Some_0->Reply_0 is Snapshot,
        action->Some_0->Reply_0->Snapshot_tx == tx,
        forall|i: int|
            {
                &&& name is Some
                &&& 0 <= i < old(clearinghouse).subscriptions@.len()
                &&& (#[trigger] old(clearinghouse).subscriptions@[i]).name@ == name->Some_0@
                &&& forall|j: int| 0 <= j < i ==> (#[trigger] old(clearinghouse).subscriptions@[j]).name@ != name->Some_0@
            } ==> {
                &&& action->Some_0->Reply_0->resp->Snapshot_subscriptions@.len() == 1
                &&& action->Some_0->Reply_0->resp->Snapshot_subscriptions@[0].name@ == old(clearinghouse).subscriptions@[i].name@
                &&& action->Some_0->Reply_0->resp->Snapshot_subscriptions@[0].fields@ == old(clearinghouse).subscriptions@[i].fields@
                &&& action->Some_0->Reply_0->resp->Snapshot_subscriptions@[0].outlet_to_subscription.name@
                    == old(clearinghouse).subscriptions@[i].outlet_to_subscription.name@
                &&& action->Some_0->Reply_0->resp->Snapshot_subscriptions@[0].outlet_to_subscription.port
                    == old(clearinghouse).subscriptions@[i].outlet_to_subscription.port
                &&& forall|f: Text| #[trigger]
                    action->Some_0->Reply_0->resp->Snapshot_database@.contains_key(f) <==> old(clearinghouse).database@.contains_key(f)
                        && old(clearinghouse).subscriptions@[i].fields@.contains(f)
                &&& forall|f: Text| #[trigger] action->Some_0->Reply_0->resp->Snapshot_database@.contains_key(f) ==> action->Some_0->Reply_0->resp->Snapshot_database@[f] == old(clearinghouse).database@[f]
                &&& forall|f: Text| #[trigger] action->Some_0->Reply_0->resp->Snapshot_missing@.contains(f) <==> action->Some_0->Reply_0->resp->Snapshot_database@.contains_key(f)
            },
        (name is None || forall|i: int|
            0 <= i < old(clearinghouse).subscriptions@.len() ==> (#[trigger] old(clearinghouse).subscriptions@[i]).name@ != name->Some_0@) ==> {
            &&& action->Some_0->Reply_0->resp->Snapshot_subscriptions@.len() == old(clearinghouse).subscriptions@.len()
            &&& forall|i: int|
                0 <= i < old(clearinghouse).subscriptions@.len() ==> {
                    &&& (#[trigger] action->Some_0->Reply_0->resp->Snapshot_subscriptions@[i]).name@ == old(clearinghouse).subscriptions@[i].name@
                    &&& action->Some_0->Reply_0->resp->Snapshot_subscriptions@[i].fields@ == old(clearinghouse).subscriptions@[i].fields@
                    &&& action->Some_0->Reply_0->resp->Snapshot_subscriptions@[i].outlet_to_subscription.name@
                        == old(clearinghouse).subscriptions@[i].outlet_to_subscription.name@
                    &&& action->Some_0->Reply_0->resp->Snapshot_subscriptions@[i].outlet_to_subscription.port
                        == old(clearinghouse).subscriptions@[i].outlet_to_subscription.port
                }
            &&& forall|f: Text| #[trigger] action->Some_0->Reply_0->resp->Snapshot_database@.contains_key(f) <==> old(clearinghouse).database@.contains_key(f)
            &&& forall|f: Text| #[trigger] action->Some_0->Reply_0->resp->Snapshot_database@.contains_key(f) ==> action->Some_0->Reply_0->resp->Snapshot_database@[f] == old(clearinghouse).database@[f]
            &&& forall|f: Text| !(#[trigger] action->Some_0->Reply_0->resp->Snapshot_missing@.contains(f))
        },
{
    super::lists::lemma_same_subscriptions(final(clearinghouse).subscriptions@, old(clearinghouse).subscriptions@);
    super::lists::lemma_same_outlets(final(clearinghouse).outlets@, old(clearinghouse).outlets@);
    super::lists::lemma_snapshot(
        old(clearinghouse).subscriptions@,
        old(clearinghouse).database@,
        name,
        action->Some_0->Reply_0->resp->Snapshot_database,
        action->Some_0->Reply_0->resp->Snapshot_missing,
        action->Some_0->Reply_0->resp->Snapshot_subscriptions,
    );
}

/// A run that goes on ends well when the sources of telemetry dry up.
#[verifier::spinoff_prover]
pub proof fn law_proceed_ends_when_dry<E>(
    clearinghouse: &mut Clearinghouse,
    ended: &mut Option<Result<(), E>>,
    action: Option<ClearinghouseAction>,
)
    requires
        call_ensures(
            Clearinghouse::proceed::<E>,
            (clearinghouse, ended, RunEvent::Happened(ClearinghouseEvent::Telemetry(None))),
            action,
        ),
        *old(ended) is None,
    ensures
        *final(ended) == Some(Ok::<(), E>(())),
        action is Some,
        action->Some_0 is Stop,
        final(clearinghouse).subscriptions@.len() == old(clearinghouse).subscriptions@.len(),
        forall|i: int|
            0 <= i < old(clearinghouse).subscriptions@.len() ==> {
                &&& (#[trigger] final(clearinghouse).subscriptions@[i]).name@ == old(clearinghouse).subscriptions@[i].name@
                &&& final(clearinghouse).subscriptions@[i].fields@ == old(clearinghouse).subscriptions@[i].fields@
                &&& final(clearinghouse).subscriptions@[i].outlet_to_subscription.name@
                    == old(clearinghouse).subscriptions@[i].outlet_to_subscription.name@
                &&& final(clearinghouse).subscriptions@[i].outlet_to_subscription.port
                    == old(clearinghouse).subscriptions@[i].outlet_to_subscription.port
            },
        final(clearinghouse).outlets@.len() == old(clearinghouse).outlets@.len(),
        forall|i: int|
            0 <= i < old(clearinghouse).outlets@.len() ==> (#[trigger] final(clearinghouse).outlets@[i]).name@
                == old(clearinghouse).outlets@[i].name@ && final(clearinghouse).outlets@[i].port == old(clearinghouse).outlets@[i].port,
        final(clearinghouse).links@ == old(clearinghouse).links@,
        final(clearinghouse).database@ == old(clearinghouse).database@,
        final(clearinghouse).name == old(clearinghouse).name,
        final(clearinghouse).inlet == old(clearinghouse).inlet,
        final(clearinghouse).tx_api == old(clearinghouse).tx_api,
        final(clearinghouse).rx_api == old(clearinghouse).rx_api,
{
    super::lists::lemma_same_subscriptions(final(clearinghouse).subscriptions@, old(clearinghouse).subscriptions@);
    super::lists::lemma_same_outlets(final(clearinghouse).outlets@, old(clearinghouse).outlets@);
}

/// A run that goes on ends well when nothing more can come in.
#[verifier::spinoff_prover]
pub proof fn law_proceed_ends_when_closed<E>(
    clearinghouse: &mut Clearinghouse,
    ended: &mut Option<Result<(), E>>,
    action: Option<ClearinghouseAction>,
)
    requires
        call_ensures(
            Clearinghouse::proceed::<E>,
            (clearinghouse, ended, RunEvent::Happened(ClearinghouseEvent::Closed)),
            action,
        ),
        *old(ended) is None,
    ensures
        *final(ended) == Some(Ok::<(), E>(())),
        action is Some,
        action->Some_0 is Stop,
        final(clearinghouse).subscriptions@.len() == old(clearinghouse).subscriptions@.len(),
        forall|i: int|
            0 <= i < old(clearinghouse).subscriptions@.len() ==> {
                &&& (#[trigger] final(clearinghouse).subscriptions@[i]).name@ == old(clearinghouse).subscriptions@[i].name@
                &&& final(clearinghouse).subscriptions@[i].fields@ == old(clearinghouse).subscriptions@[i].fields@
                &&& final(clearinghouse).subscriptions@[i].outlet_to_subscription.name@
                    == old(clearinghouse).subscriptions@[i].outlet_to_subscription.name@
                &&& final(clearinghouse).subscriptions@[i].outlet_to_subscription.port
                    == old(clearinghouse).subscriptions@[i].outlet_to_subscription.port
            },
        final(clearinghouse).outlets@.len() == old(clearinghouse).outlets@.len(),
        forall|i: int|
            0 <= i < old(clearinghouse).outlets@.len() ==> (#[trigger] final(clearinghouse).outlets@[i]).name@
                == old(clearinghouse).outlets@[i].name@ && final(clearinghouse).outlets@[i].port == old(clearinghouse).outlets@[i].port,
        final(clearinghouse).links@ == old(clearinghouse).links@,
        final(clearinghouse).database@ == old(clearinghouse).database@,
        final(clearinghouse).name == old(clearinghouse).name,
        final(clearinghouse).inlet == old(clearinghouse).inlet,
        final(clearinghouse).tx_api == old(clearinghouse).tx_api,
        final(clearinghouse).rx_api == old(clearinghouse).rx_api,
{
    super::lists::lemma_same_subscriptions(final(clearinghouse).subscriptions@, old(clearinghouse).subscriptions@);
    super::lists::lemma_same_outlets(final(clearinghouse).outlets@, old(clearinghouse).outlets@);
}

/// A round of sending changes nothing of the clearinghouse and calls for nothing.
/// A run that goes on ends with the error of the first delivery that failed, and
/// goes on if none did.
#[verifier::spinoff_prover]
pub proof fn law_proceed_after_sending<E>(
    clearinghouse: &mut Clearinghouse,
    ended: &mut Option<Result<(), E>>,
    statuses: Vec<Result<(), E>>,
    action: Option<ClearinghouseAction>,
)
    requires
        call_ensures(
            Clearinghouse::proceed::<E>,
            (clearinghouse, ended, RunEvent::Sent(statuses)),
            action,
        ),
        *old(ended) is None,
    ensures
        action is None,
        forall|i: int|
            {
                &&& 0 <= i < statuses@.len()
                &&& (#[trigger] statuses@[i]) is Err
                &&& forall|j: int| 0 <= j < i ==> (#[trigger] statuses@[j]) is Ok
            } ==> *final(ended) == Some(Err::<(), E>(statuses@[i]->Err_0)),
        (forall|i: int| 0 <= i < statuses@.len() ==> (#[trigger] statuses@[i]) is Ok)
            ==> *final(ended) is None,
        final(clearinghouse).subscriptions@.len() == old(clearinghouse).subscriptions@.len(),
        forall|i: int|
            0 <= i < old(clearinghouse).subscriptions@.len() ==> {
                &&& (#[trigger] final(clearinghouse).subscriptions@[i]).name@ == old(clearinghouse).subscriptions@[i].name@
                &&& final(clearinghouse).subscriptions@[i].fields@ == old(clearinghouse).subscriptions@[i].fields@
                &&& final(clearinghouse).subscriptions@[i].outlet_to_subscription.name@
                    == old(clearinghouse).subscriptions@[i].outlet_to_subscription.name@
                &&& final(clearinghouse).subscriptions@[i].outlet_to_subscription.port
                    == old(clearinghouse).subscriptions@[i].outlet_to_subscription.port
            },
        final(clearinghouse).outlets@.len() == old(clearinghouse).outlets@.len(),
        forall|i: int|
            0 <= i < old(clearinghouse).outlets@.len() ==> (#[trigger] final(clearinghouse).outlets@[i]).name@
                == old(clearinghouse).outlets@[i].name@ && final(clearinghouse).outlets@[i].port == old(clearinghouse).outlets@[i].port,
        final(clearinghouse).links@ == old(clearinghouse).links@,
        final(clearinghouse).database@ == old(clearinghouse).database@,
        final(clearinghouse).name == old(clearinghouse).name,
        final(clearinghouse).inlet == old(clearinghouse).inlet,
        final(clearinghouse).tx_api == old(clearinghouse).tx_api,
        final(clearinghouse).rx_api == old(clearinghouse).rx_api,
{
    super::lists::lemma_same_subscriptions(final(clearinghouse).subscriptions@, old(clearinghouse).subscriptions@);
    super::lists::lemma_same_outlets(final(clearinghouse).outlets@, old(clearinghouse).outlets@);
    assert forall|i: int|
        {
            &&& 0 <= i < statuses@.len()
            &&& (#[trigger] statuses@[i]) is Err
            &&& forall|j: int| 0 <= j < i ==> (#[trigger] statuses@[j]) is Ok
        } implies *final(ended) == Some(Err::<(), E>(statuses@[i]->Err_0)) by {
        super::super::run::law_first_failure(statuses@, statuses@[i]->Err_0);
        assert(statuses@[i] == Err::<(), E>(statuses@[i]->Err_0));
    }
    if forall|i: int| 0 <= i < statuses@.len() ==> (#[trigger] statuses@[i]) is Ok {
        if let Some(e) = super::super::run::first_failure(statuses@) {
            super::super::run::law_first_failure(statuses@, e);
        }
    }
}

/// Once a run has ended, nothing that happens and no round of sending changes the
/// clearinghouse or how the run ended, and nothing is to be done.
#[verifier::spinoff_prover]
pub proof fn law_proceed_after_the_end<E>(
    clearinghouse: &mut Clearinghouse,
    ended: &mut Option<Result<(), E>>,
    event: RunEvent<E>,
    action: Option<ClearinghouseAction>,
)
    requires
        call_ensures(Clearinghouse::proceed::<E>, (clearinghouse, ended, event), action),
        *old(ended) is Some,
    ensures
        *final(ended) == *old(ended),
        action is None,
        final(clearinghouse).subscriptions@.len() == old(clearinghouse).subscriptions@.len(),
        forall|i: int|
            0 <= i < old(clearinghouse).subscriptions@.len() ==> {
                &&& (#[trigger] final(clearinghouse).subscriptions@[i]).name@ == old(clearinghouse).subscriptions@[i].name@
                &&& final(clearinghouse).subscriptions@[i].fields@ == old(clearinghouse).subscriptions@[i].fields@
                &&& final(clearinghouse).subscriptions@[i].outlet_to_subscription.name@
                    == old(clearinghouse).subscriptions@[i].outlet_to_subscription.name@
                &&& final(clearinghouse).subscriptions@[i].outlet_to_subscription.port
                    == old(clearinghouse).subscriptions@[i].outlet_to_subscription.port
            },
        final(clearinghouse).outlets@.len() == old(clearinghouse).outlets@.len(),
        forall|i: int|
            0 <= i < old(clearinghouse).outlets@.len() ==> (#[trigger] final(clearinghouse).outlets@[i]).name@
                == old(clearinghouse).outlets@[i].name@ && final(clearinghouse).outlets@[i].port == old(clearinghouse).outlets@[i].port,
        final(clearinghouse).links@ == old(clearinghouse).links@,
        final(clearinghouse).database@ == old(clearinghouse).database@,
        final(clearinghouse).name == old(clearinghouse).name,
        final(clearinghouse).inlet == old(clearinghouse).inlet,
        final(clearinghouse).tx_api == old(clearinghouse).tx_api,
        final(clearinghouse).rx_api == old(clearinghouse).rx_api,
{
    super::lists::lemma_same_subscriptions(final(clearinghouse).subscriptions@, old(clearinghouse).subscriptions@);
    super::lists::lemma_same_outlets(final(clearinghouse).outlets@, old(clearinghouse).outlets@);
}

/// A round of sending ends with the error of the first delivery that failed, or
/// well if none did.
pub proof fn law_published<E>(statuses: Vec<Result<(), E>>, outcome: Result<(), E>)
    requires
        call_ensures(Clearinghouse::published::<E>, (statuses,), outcome),
    ensures
        forall|i: int|
            {
                &&& 0 <= i < statuses@.len()
                &&& (#[trigger] statuses@[i]) is Err
                &&& forall|j: int| 0 <= j < i ==> (#[trigger] statuses@[j]) is Ok
            } ==> outcome == statuses@[i],
        (forall|i: int| 0 <= i < statuses@.len() ==> (#[trigger] statuses@[i]) is Ok) ==> outcome
            is Ok,
{
    if outcome is Err {
        let k = choose|k: int|
            {
                &&& 0 <= k < statuses@.len()
                &&& #[trigger] statuses@[k] == Err::<(), E>(outcome->Err_0)
                &&& forall|j: int| 0 <= j < k ==> statuses@[j] is Ok
            };
        assert forall|i: int|
            {
                &&& 0 <= i < statuses@.len()
                &&& (#[trigger] statuses@[i]) is Err
                &&& forall|j: int| 0 <= j < i ==> (#[trigger] statuses@[j]) is Ok
            } implies outcome == statuses@[i] by {
            assert(statuses@[k] is Err);
            assert(i == k);
        }
    }
}

/// An answer is delivered to the channel that it holds, as it is; whether that
/// went well is what the channel says.
pub proof fn law_deliver(reply: ClearinghouseReply, delivered: bool)
    requires
        call_ensures(ClearinghouseReply::deliver, (reply,), delivered),
    ensures
        reply matches ClearinghouseReply::Ack { tx } ==> exists|sent: Result<(), ()>|
            #[trigger] call_ensures(oneshot::Sender::<()>::send, (tx, ()), sent) && delivered
                == (sent is Ok),
        reply matches ClearinghouseReply::Snapshot { tx, resp } ==> exists|
            sent: Result<(), ClearinghouseResp>,
        | #[trigger]
            call_ensures(oneshot::Sender::<ClearinghouseResp>::send, (tx, resp), sent) && delivered
                == (sent is Ok),
{
}

} // verus!
