//! How a clearinghouse, its subscriptions and its commands are made, compared and
//! taken apart.

use tokio::sync::oneshot;
use vstd::prelude::*;

use super::super::clearinghouse::{
    Clearinghouse, ClearinghouseCmd, ClearinghouseResp, TelemetrySubscription,
};
use super::super::model::Text;
use crate::elements::telemetry::FieldSet;
use crate::graph::port::{Inlet, Outlet};

verus! {

/// A new clearinghouse has the given name, an inlet of that name and the given
/// number, one channel for its commands, and nothing else.
pub proof fn law_new_clearinghouse_slice(name: &str, port: u64, clearinghouse: Clearinghouse)
    requires
        call_ensures(Clearinghouse::new::<&str>, (name, port), clearinghouse),
    ensures
        clearinghouse.name@ == name@,
        clearinghouse.inlet.name@ == name@,
        clearinghouse.inlet.port == port,
        clearinghouse.subscriptions@.len() == 0,
        clearinghouse.outlets@.len() == 0,
        forall|p: u64| !(#[trigger] clearinghouse.links@.contains_key(p)),
        forall|f: Text| !(#[trigger] clearinghouse.database@.contains_key(f)),
        call_ensures(
            tokio::sync::mpsc::unbounded_channel::<ClearinghouseCmd>,
            (),
            (clearinghouse.tx_api, clearinghouse.rx_api),
        ),
{
    assert(clearinghouse@.subscriptions.len() == clearinghouse.subscriptions@.len());
    assert(clearinghouse@.outlets.len() == clearinghouse.outlets@.len());
}

/// The command to subscribe holds the given name, fields and receiver, and one
/// half of a channel of which the caller has the other.
pub proof fn law_subscribe_command_slice(
    name: &str,
    fields: FieldSet,
    receiver: Inlet,
    made: (ClearinghouseCmd, oneshot::Receiver<()>),
)
    requires
        call_ensures(ClearinghouseCmd::subscribe::<&str>, (name, fields, receiver), made),
    ensures
        made.0 matches ClearinghouseCmd::Subscribe { name: n, fields: f, receiver: r, tx } && {
            &&& n@ == name@
            &&& f == fields
            &&& r == receiver
            &&& call_ensures(oneshot::channel::<()>, (), (tx, made.1))
        },
{
}

/// The command to unsubscribe holds the given name and one half of a channel of
/// which the caller has the other.
pub proof fn law_unsubscribe_command_slice(
    name: &str,
    made: (ClearinghouseCmd, oneshot::Receiver<()>),
)
    requires
        call_ensures(ClearinghouseCmd::unsubscribe::<&str>, (name,), made),
    ensures
        made.0 matches ClearinghouseCmd::Unsubscribe { name: n, tx } && {
            &&& n@ == name@
            &&& call_ensures(oneshot::channel::<()>, (), (tx, made.1))
        },
{
}

/// The request for the snapshot of a subscription holds the given name and one
/// half of a channel of which the caller has the other.
pub proof fn law_subscription_snapshot_command_slice(
    name: &str,
    made: (ClearinghouseCmd, oneshot::Receiver<ClearinghouseResp>),
)
    requires
        call_ensures(ClearinghouseCmd::get_subscription_snapshot::<&str>, (name,), made),
    ensures
        made.0 matches ClearinghouseCmd::GetSnapshot { name: n, tx } && {
            &&& n matches Some(text) && text@ == name@
            &&& call_ensures(oneshot::channel::<ClearinghouseResp>, (), (tx, made.1))
        },
{
}

/// A new clearinghouse has the given name, an inlet of that name and the given
/// number, one channel for its commands, and nothing else.
pub proof fn law_new_clearinghouse_owned(name: String, port: u64, clearinghouse: Clearinghouse)
    requires
        call_ensures(Clearinghouse::new::<String>, (name, port), clearinghouse),
    ensures
        clearinghouse.name@ == name@,
        clearinghouse.inlet.name@ == name@,
        clearinghouse.inlet.port == port,
        clearinghouse.subscriptions@.len() == 0,
        clearinghouse.outlets@.len() == 0,
        forall|p: u64| !(#[trigger] clearinghouse.links@.contains_key(p)),
        forall|f: Text| !(#[trigger] clearinghouse.database@.contains_key(f)),
        call_ensures(
            tokio::sync::mpsc::unbounded_channel::<ClearinghouseCmd>,
            (),
            (clearinghouse.tx_api, clearinghouse.rx_api),
        ),
{
    assert(clearinghouse@.subscriptions.len() == clearinghouse.subscriptions@.len());
    assert(clearinghouse@.outlets.len() == clearinghouse.outlets@.len());
}

/// The command to subscribe holds the given name, fields and receiver, and one
/// half of a channel of which the caller has the other.
pub proof fn law_subscribe_command_owned(
    name: String,
    fields: FieldSet,
    receiver: Inlet,
    made: (ClearinghouseCmd, oneshot::Receiver<()>),
)
    requires
        call_ensures(ClearinghouseCmd::subscribe::<String>, (name, fields, receiver), made),
    ensures
        made.0 matches ClearinghouseCmd::Subscribe { name: n, fields: f, receiver: r, tx } && {
            &&& n@ == name@
            &&& f == fields
            &&& r == receiver
            &&& call_ensures(oneshot::channel::<()>, (), (tx, made.1))
        },
{
}

/// The command to unsubscribe holds the given name and one half of a channel of
/// which the caller has the other.
pub proof fn law_unsubscribe_command_owned(
    name: String,
    made: (ClearinghouseCmd, oneshot::Receiver<()>),
)
    requires
        call_ensures(ClearinghouseCmd::unsubscribe::<String>, (name,), made),
    ensures
        made.0 matches ClearinghouseCmd::Unsubscribe { name: n, tx } && {
            &&& n@ == name@
            &&& call_ensures(oneshot::channel::<()>, (), (tx, made.1))
        },
{
}

/// The request for the snapshot of a subscription holds the given name and one
/// half of a channel of which the caller has the other.
pub proof fn law_subscription_snapshot_command_owned(
    name: String,
    made: (ClearinghouseCmd, oneshot::Receiver<ClearinghouseResp>),
)
    requires
        call_ensures(ClearinghouseCmd::get_subscription_snapshot::<String>, (name,), made),
    ensures
        made.0 matches ClearinghouseCmd::GetSnapshot { name: n, tx } && {
            &&& n matches Some(text) && text@ == name@
            &&& call_ensures(oneshot::channel::<ClearinghouseResp>, (), (tx, made.1))
        },
{
}

/// The request for the snapshot of everything holds no name, and one half of a
/// channel of which the caller has the other.
pub proof fn law_clearinghouse_snapshot_command(
    made: (ClearinghouseCmd, oneshot::Receiver<ClearinghouseResp>),
)
    requires
        call_ensures(ClearinghouseCmd::get_clearinghouse_snapshot, (), made),
    ensures
        made.0 matches ClearinghouseCmd::GetSnapshot { name: n, tx } && {
            &&& n is None
            &&& call_ensures(oneshot::channel::<ClearinghouseResp>, (), (tx, made.1))
        },
{
}

/// A subscription is made with the given name, fields and number of its port,
/// whatever they are; the name of its port tells the subscription's.
pub proof fn law_new_subscription(
    name: String,
    fields: FieldSet,
    port: u64,
    subscription: TelemetrySubscription,
)
    requires
        call_ensures(TelemetrySubscription::new, (name, fields, port), subscription),
    ensures
        subscription.name@ == name@,
        forall|f: Text| #[trigger] subscription.fields@.contains(f) <==> fields@.contains(f),
        subscription.outlet_to_subscription.name@ == "outlet_to_subscription_"@ + name@,
        subscription.outlet_to_subscription.port == port,
{
    assert(subscription@.fields == subscription.fields@);
}

/// A copy of a subscription has its name, its fields and its port.
pub proof fn law_copied_subscription(
    subscription: &TelemetrySubscription,
    copy: TelemetrySubscription,
)
    requires
        call_ensures(<TelemetrySubscription as Clone>::clone, (subscription,), copy),
    ensures
        copy.name@ == subscription.name@,
        copy.fields@ == subscription.fields@,
        copy.outlet_to_subscription.name@ == subscription.outlet_to_subscription.name@,
        copy.outlet_to_subscription.port == subscription.outlet_to_subscription.port,
{
    assert(copy@.fields == copy.fields@ && subscription@.fields == subscription.fields@);
}

/// Two subscriptions are equal if and only if they have the same name and the
/// same fields.
pub proof fn law_equal_subscriptions(
    one: &TelemetrySubscription,
    other: &TelemetrySubscription,
    same: bool,
)
    requires
        call_ensures(<TelemetrySubscription as PartialEq>::eq, (one, other), same),
    ensures
        same <==> {
            &&& one.name@ == other.name@
            &&& forall|f: Text| #[trigger] one.fields@.contains(f) <==> other.fields@.contains(f)
        },
{
    if forall|f: Text| #[trigger] one.fields@.contains(f) <==> other.fields@.contains(f) {
        assert(one.fields@ =~= other.fields@);
    }
}

/// The clearinghouse tells its name and hands out its ports and a handle for its
/// commands as they are.
pub proof fn law_clearinghouse_parts(
    clearinghouse: &Clearinghouse,
    name: &str,
    api: super::super::clearinghouse::ClearinghouseApi,
)
    requires
        call_ensures(Clearinghouse::name, (clearinghouse,), name),
        call_ensures(Clearinghouse::tx_api, (clearinghouse,), api),
    ensures
        name@ == clearinghouse.name@,
        cloned(clearinghouse.tx_api, api),
{
}

/// The port by which telemetry comes in is handed out to be changed, and nothing
/// else is changed by that.
pub proof fn law_inlet(clearinghouse: &mut Clearinghouse, inlet: &mut Inlet)
    requires
        call_ensures(Clearinghouse::inlet, (clearinghouse,), inlet),
    ensures
        *old(inlet) == old(clearinghouse).inlet,
        final(clearinghouse).inlet == *final(inlet),
        final(clearinghouse).name == old(clearinghouse).name,
        final(clearinghouse).subscriptions == old(clearinghouse).subscriptions,
        final(clearinghouse).outlets == old(clearinghouse).outlets,
        final(clearinghouse).links == old(clearinghouse).links,
        final(clearinghouse).database == old(clearinghouse).database,
        final(clearinghouse).tx_api == old(clearinghouse).tx_api,
        final(clearinghouse).rx_api == old(clearinghouse).rx_api,
{
}

/// The listed ports are handed out to be changed, and nothing else is changed by
/// that.
pub proof fn law_outlets(clearinghouse: &mut Clearinghouse, outlets: &mut [Outlet])
    requires
        call_ensures(Clearinghouse::outlets, (clearinghouse,), outlets),
    ensures
        old(outlets)@ == old(clearinghouse).outlets@,
        final(clearinghouse).outlets@ == final(outlets)@,
        final(clearinghouse).name == old(clearinghouse).name,
        final(clearinghouse).inlet == old(clearinghouse).inlet,
        final(clearinghouse).subscriptions == old(clearinghouse).subscriptions,
        final(clearinghouse).links == old(clearinghouse).links,
        final(clearinghouse).database == old(clearinghouse).database,
        final(clearinghouse).tx_api == old(clearinghouse).tx_api,
        final(clearinghouse).rx_api == old(clearinghouse).rx_api,
{
}

} // verus!
