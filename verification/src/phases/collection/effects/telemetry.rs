//! What becomes of telemetry that comes in.

use vstd::prelude::*;

use super::super::clearinghouse::{
    Clearinghouse, ClearinghouseAction, ClearinghouseEvent, Delivery, TelemetrySubscription,
};
use super::super::model::{SubscriptionView, Text};
use crate::elements::telemetry::{FieldSet, TelemetryData};

verus! {

/// The subscriptions that a change concerns are those that have a field among the
/// changed ones, each once and in their order.
pub proof fn law_find_interested_subscriptions(
    subscriptions: &Vec<TelemetrySubscription>,
    changed: FieldSet,
    interested: Vec<&TelemetrySubscription>,
)
    requires
        call_ensures(
            Clearinghouse::find_interested_subscriptions,
            (subscriptions, changed),
            interested,
        ),
    ensures
        exists|at: Seq<int>|
            #![trigger at.len()]
            {
                &&& at.len() == interested@.len()
                &&& forall|a: int, b: int| 0 <= a < b < at.len() ==> at[a] < at[b]
                &&& forall|i: int|
                    0 <= i < subscriptions@.len() ==> (#[trigger] at.contains(i) <==> exists|f: Text|
                        #[trigger] subscriptions@[i].fields@.contains(f) && changed@.contains(f))
                &&& forall|k: int|
                    0 <= k < at.len() ==> {
                        &&& 0 <= #[trigger] at[k] < subscriptions@.len()
                        &&& interested@[k].name@ == subscriptions@[at[k]].name@
                        &&& interested@[k].fields@ == subscriptions@[at[k]].fields@
                        &&& interested@[k].outlet_to_subscription.name@
                            == subscriptions@[at[k]].outlet_to_subscription.name@
                        &&& interested@[k].outlet_to_subscription.port
                            == subscriptions@[at[k]].outlet_to_subscription.port
                    }
            },
{
    let list = super::super::clearinghouse::subscription_views(subscriptions@);
    let found = super::super::clearinghouse::subscription_ref_views(interested@);
    let at = super::lists::lemma_filter_at(list, |s: SubscriptionView| s.interested_in(changed@));
    assert(found.len() == at.len());
    assert forall|i: int| 0 <= i < subscriptions@.len() implies (#[trigger] at.contains(i)
        <==> exists|f: Text| #[trigger]
        subscriptions@[i].fields@.contains(f) && changed@.contains(f)) by {
        assert(list[i] == subscriptions@[i]@);
        assert(list[i].fields == subscriptions@[i].fields@);
    }
    assert forall|k: int| 0 <= k < at.len() implies {
        &&& 0 <= #[trigger] at[k] < subscriptions@.len()
        &&& interested@[k].name@ == subscriptions@[at[k]].name@
        &&& interested@[k].fields@ == subscriptions@[at[k]].fields@
        &&& interested@[k].outlet_to_subscription.name@
            == subscriptions@[at[k]].outlet_to_subscription.name@
        &&& interested@[k].outlet_to_subscription.port
            == subscriptions@[at[k]].outlet_to_subscription.port
    } by {
        assert(found[k] == interested@[k]@);
        assert(list[at[k]] == subscriptions@[at[k]]@);
    }
}

/// A list of fields is fulfilled if and only if it has a field and every one has
/// a value, and then with those fields, each with its value, and no others.
pub proof fn law_fulfill_subscription(
    pick_list: &FieldSet,
    database: &TelemetryData,
    fulfillment: Option<TelemetryData>,
)
    requires
        call_ensures(Clearinghouse::fulfill_subscription, (pick_list, database), fulfillment),
    ensures
        fulfillment is Some <==> {
            &&& exists|f: Text| pick_list@.contains(f)
            &&& forall|f: Text| #[trigger]
                pick_list@.contains(f) ==> database@.contains_key(f)
        },
        fulfillment matches Some(data) ==> {
            &&& forall|f: Text| #[trigger]
                data@.contains_key(f) <==> pick_list@.contains(f)
            &&& forall|f: Text| #[trigger] data@.contains_key(f) ==> data@[f] == database@[f]
        },
{
    if forall|f: Text| !pick_list@.contains(f) {
        assert(pick_list@ =~= Set::<Text>::empty());
    }
}

/// Each of the subscribers that has a field, and whose fields all have values, is
/// sent those values on its port, in the order of the subscribers; the others are
/// sent nothing.
pub proof fn law_push_to_subscribers(
    database: &TelemetryData,
    subscribers: Vec<&TelemetrySubscription>,
    outgoing: Vec<Delivery>,
)
    requires
        call_ensures(Clearinghouse::push_to_subscribers, (database, subscribers), outgoing),
    ensures
        exists|at: Seq<int>|
            #![trigger at.len()]
            {
                &&& at.len() == outgoing@.len()
                &&& forall|a: int, b: int| 0 <= a < b < at.len() ==> at[a] < at[b]
                &&& forall|i: int|
                    0 <= i < subscribers@.len() ==> (#[trigger] at.contains(i) <==> {
                        &&& exists|f: Text| subscribers@[i].fields@.contains(f)
                        &&& forall|f: Text| #[trigger]
                            subscribers@[i].fields@.contains(f) ==> database@.contains_key(f)
                    })
                &&& forall|k: int|
                    0 <= k < at.len() ==> {
                        &&& 0 <= #[trigger] at[k] < subscribers@.len()
                        &&& outgoing@[k].subscription@ == subscribers@[at[k]].name@
                        &&& outgoing@[k].outlet.name@
                            == subscribers@[at[k]].outlet_to_subscription.name@
                        &&& outgoing@[k].outlet.port
                            == subscribers@[at[k]].outlet_to_subscription.port
                        &&& forall|f: Text| #[trigger]
                            outgoing@[k].data@.contains_key(f)
                                <==> subscribers@[at[k]].fields@.contains(f)
                        &&& forall|f: Text| #[trigger]
                            outgoing@[k].data@.contains_key(f) ==> outgoing@[k].data@[f]
                                == database@[f]
                    }
            },
{
    let list = super::super::clearinghouse::subscription_ref_views(subscribers@);
    let sent = super::super::clearinghouse::delivery_views(outgoing@);
    let at = super::lists::lemma_filter_map_at(list, |s: SubscriptionView| s.delivery(database@));
    assert(sent.len() == at.len());
    assert forall|i: int| 0 <= i < subscribers@.len() implies (#[trigger] at.contains(i) <==> {
        &&& exists|f: Text| subscribers@[i].fields@.contains(f)
        &&& forall|f: Text| #[trigger]
            subscribers@[i].fields@.contains(f) ==> database@.contains_key(f)
    }) by {
        assert(list[i] == subscribers@[i]@);
        super::super::laws::law_served_in_full(list[i], database@);
    }
    assert forall|k: int| 0 <= k < at.len() implies {
        &&& 0 <= #[trigger] at[k] < subscribers@.len()
        &&& outgoing@[k].subscription@ == subscribers@[at[k]].name@
        &&& outgoing@[k].outlet.name@ == subscribers@[at[k]].outlet_to_subscription.name@
        &&& outgoing@[k].outlet.port == subscribers@[at[k]].outlet_to_subscription.port
        &&& forall|f: Text| #[trigger]
            outgoing@[k].data@.contains_key(f) <==> subscribers@[at[k]].fields@.contains(f)
        &&& forall|f: Text| #[trigger]
            outgoing@[k].data@.contains_key(f) ==> outgoing@[k].data@[f] == database@[f]
    } by {
        assert(sent[k] == outgoing@[k]@);
        assert(list[at[k]] == subscribers@[at[k]]@);
        super::super::laws::law_served_in_full(list[at[k]], database@);
    }
}

/// Telemetry that comes in is taken over into the database, where its values
/// replace older ones. Each subscription that has a field among those that came
/// in, and whose fields then all have values, is sent those values on its port,
/// in the order of the subscriptions; the others are sent nothing.
#[verifier::spinoff_prover]
pub proof fn law_handle_telemetry_data(
    data: TelemetryData,
    subscriptions: &Vec<TelemetrySubscription>,
    database: &mut TelemetryData,
    outgoing: Option<Vec<Delivery>>,
)
    requires
        call_ensures(
            Clearinghouse::handle_telemetry_data,
            (Some(data), subscriptions, database),
            outgoing,
        ),
    ensures
        forall|f: Text| #[trigger]
            final(database)@.contains_key(f) <==> data@.contains_key(f) || old(database)@.contains_key(f),
        forall|f: Text| #[trigger]
            final(database)@.contains_key(f) ==> final(database)@[f] == if data@.contains_key(f) {
                data@[f]
            } else {
                old(database)@[f]
            },
        outgoing is Some,
        exists|at: Seq<int>|
            #![trigger at.len()]
            {
                &&& at.len() == outgoing->Some_0@.len()
                &&& forall|a: int, b: int| 0 <= a < b < at.len() ==> at[a] < at[b]
                &&& forall|i: int|
                    0 <= i < subscriptions@.len() ==> (#[trigger] at.contains(i) <==> {
                        &&& exists|f: Text| #[trigger]
                            subscriptions@[i].fields@.contains(f) && data@.contains_key(f)
                        &&& forall|f: Text| #[trigger]
                            subscriptions@[i].fields@.contains(f) ==> data@.contains_key(f)
                                || old(database)@.contains_key(f)
                    })
                &&& forall|k: int|
                    0 <= k < at.len() ==> {
                        &&& 0 <= #[trigger] at[k] < subscriptions@.len()
                        &&& outgoing->Some_0@[k].subscription@ == subscriptions@[at[k]].name@
                        &&& outgoing->Some_0@[k].outlet.name@
                            == subscriptions@[at[k]].outlet_to_subscription.name@
                        &&& outgoing->Some_0@[k].outlet.port
                            == subscriptions@[at[k]].outlet_to_subscription.port
                        &&& forall|f: Text| #[trigger]
                            outgoing->Some_0@[k].data@.contains_key(f)
                                <==> subscriptions@[at[k]].fields@.contains(f)
                        &&& forall|f: Text| #[trigger]
                            outgoing->Some_0@[k].data@.contains_key(f) ==> outgoing->Some_0@[k].data@[f]
                                == if data@.contains_key(f) {
                                data@[f]
                            } else {
                                old(database)@[f]
                            }
                    }
            },
{
    super::lists::lemma_published(
        subscriptions@,
        Seq::empty(),
        Map::empty(),
        old(database)@,
        data@,
        outgoing->Some_0@,
    );
}

/// Where the sources dry up the database stays as it is and nothing is sent.
#[verifier::spinoff_prover]
pub proof fn law_handle_no_telemetry(
    subscriptions: &Vec<TelemetrySubscription>,
    database: &mut TelemetryData,
    outgoing: Option<Vec<Delivery>>,
)
    requires
        call_ensures(
            Clearinghouse::handle_telemetry_data,
            (None, subscriptions, database),
            outgoing,
        ),
    ensures
        outgoing is None,
        final(database)@ == old(database)@,
{
}

/// Telemetry that comes in changes the database alone, and what is to be done is
/// to send: to each subscription that has a field among those that came in, and
/// whose fields then all have values, those values on its port, in the order of
/// the subscriptions, and nothing to the others.
#[verifier::spinoff_prover]
pub proof fn law_step_takes_telemetry(
    clearinghouse: &mut Clearinghouse,
    data: TelemetryData,
    action: ClearinghouseAction,
)
    requires
        call_ensures(
            Clearinghouse::step,
            (clearinghouse, ClearinghouseEvent::Telemetry(Some(data))),
            action,
        ),
    ensures
        forall|f: Text| #[trigger]
            final(clearinghouse).database@.contains_key(f) <==> data@.contains_key(f) || old(clearinghouse).database@.contains_key(f),
        forall|f: Text| #[trigger]
            final(clearinghouse).database@.contains_key(f) ==> final(clearinghouse).database@[f] == if data@.contains_key(f) {
                data@[f]
            } else {
                old(clearinghouse).database@[f]
            },
        final(clearinghouse).subscriptions@.len() == old(clearinghouse).subscriptions@.len(),
        forall|i: int|
            0 <= i < old(clearinghouse).subscriptions@.len() ==> {
                &&& (#[trigger] final(clearinghouse).subscriptions@[i]).name@ == old(clearinghouse).subscriptions@[i].name@
                &&& final(clearinghouse).subscriptions@[i].fields@ == old(clearinghouse).subscriptions@[i].fields@
                &&& final(clearinghouse).subscriptions@[i].outlet_to_subscription.name@
                    == old(clearinghouse).subscriptions@[i].outlet_to_subscription.name@
                &&& final(clearinghouse).subscriptions@[i].outlet_to_subscription.port
                    == old(clearinghouse).subscriptions@[i].outlet_to_subscription.port
            },
        final(clearinghouse).outlets@.len() == old(clearinghouse).outlets@.len(),
        forall|i: int|
            0 <= i < old(clearinghouse).outlets@.len() ==> (#[trigger] final(clearinghouse).outlets@[i]).name@
                == old(clearinghouse).outlets@[i].name@ && final(clearinghouse).outlets@[i].port == old(clearinghouse).outlets@[i].port,
        final(clearinghouse).links@ == old(clearinghouse).links@,
        final(clearinghouse).name == old(clearinghouse).name,
        final(clearinghouse).inlet == old(clearinghouse).inlet,
        final(clearinghouse).tx_api == old(clearinghouse).tx_api,
        final(clearinghouse).rx_api == old(clearinghouse).rx_api,
        action matches ClearinghouseAction::Publish(outgoing) && exists|at: Seq<int>|
            #![trigger at.len()]
            {
                &&& at.len() == outgoing@.len()
                &&& forall|a: int, b: int| 0 <= a < b < at.len() ==> at[a] < at[b]
                &&& forall|i: int|
                    0 <= i < old(clearinghouse).subscriptions@.len() ==> (#[trigger] at.contains(i) <==> {
                        &&& exists|f: Text| #[trigger]
                            old(clearinghouse).subscriptions@[i].fields@.contains(f) && data@.contains_key(f)
                        &&& forall|f: Text| #[trigger]
                            old(clearinghouse).subscriptions@[i].fields@.contains(f) ==> data@.contains_key(f)
                                || old(clearinghouse).database@.contains_key(f)
                    })
                &&& forall|k: int|
                    0 <= k < at.len() ==> {
                        &&& 0 <= #[trigger] at[k] < old(clearinghouse).subscriptions@.len()
                        &&& outgoing@[k].subscription@ == old(clearinghouse).subscriptions@[at[k]].name@
                        &&& outgoing@[k].outlet.name@
                            == old(clearinghouse).subscriptions@[at[k]].outlet_to_subscription.name@
                        &&& outgoing@[k].outlet.port
                            == old(clearinghouse).subscriptions@[at[k]].outlet_to_subscription.port
                        &&& forall|f: Text| #[trigger]
                            outgoing@[k].data@.contains_key(f)
                                <==> old(clearinghouse).subscriptions@[at[k]].fields@.contains(f)
                        &&& forall|f: Text| #[trigger]
                            outgoing@[k].data@.contains_key(f) ==> outgoing@[k].data@[f]
                                == if data@.contains_key(f) {
                                data@[f]
                            } else {
                                old(clearinghouse).database@[f]
                            }
                    }
            },
{
    super::lists::lemma_same_subscriptions(final(clearinghouse).subscriptions@, old(clearinghouse).subscriptions@);
    super::lists::lemma_same_outlets(final(clearinghouse).outlets@, old(clearinghouse).outlets@);
    super::lists::lemma_published(
        old(clearinghouse).subscriptions@,
        old(clearinghouse).outlets@,
        old(clearinghouse).links@,
        old(clearinghouse).database@,
        data@,
        action->Publish_0@,
    );
}

} // verus!
