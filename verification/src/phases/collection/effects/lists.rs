//! What lists of subscriptions, ports and deliveries have in common when they
//! amount to the same.

use vstd::prelude::*;

use super::super::clearinghouse::{ClearinghouseResp, Delivery, TelemetrySubscription};
use super::super::model::Text;
use crate::elements::telemetry::{FieldSet, TelemetryData};
use crate::graph::port::Outlet;

verus! {

/// Where in `list` the members stand that `chosen` picks.
pub proof fn lemma_filter_at<A>(list: Seq<A>, chosen: spec_fn(A) -> bool) -> (at: Seq<int>)
    ensures
        at.len() == list.filter(chosen).len(),
        forall|a: int, b: int| 0 <= a < b < at.len() ==> at[a] < at[b],
        forall|k: int|
            0 <= k < at.len() ==> 0 <= #[trigger] at[k] < list.len() && list.filter(chosen)[k]
                == list[at[k]],
        forall|i: int|
            0 <= i < list.len() ==> (#[trigger] at.contains(i) <==> chosen(list[i])),
    decreases list.len(),
{
    reveal(Seq::filter);
    if list.len() == 0 {
        Seq::empty()
    } else {
        let front = list.drop_last();
        let last = list.len() - 1;
        let before = lemma_filter_at(front, chosen);
        let at = if chosen(list.last()) {
            before.push(last)
        } else {
            before
        };
        assert forall|i: int| 0 <= i < list.len() implies (#[trigger] at.contains(i) <==> chosen(
            list[i],
        )) by {
            if i < last {
                assert(before.contains(i) <==> chosen(front[i]));
                if before.contains(i) {
                    let k = choose|k: int| 0 <= k < before.len() && before[k] == i;
                    assert(at[k] == i);
                }
                if at.contains(i) {
                    let k = choose|k: int| 0 <= k < at.len() && at[k] == i;
                    assert(before[k] == i);
                }
            } else {
                if chosen(list.last()) {
                    assert(at[before.len() as int] == last);
                } else if at.contains(i) {
                    let k = choose|k: int| 0 <= k < at.len() && at[k] == i;
                    assert(before[k] < front.len());
                }
            }
        }
        at
    }
}

/// Where in `list` the members stand that `made` turns into something.
pub proof fn lemma_filter_map_at<A, B>(list: Seq<A>, made: spec_fn(A) -> Option<B>) -> (at: Seq<int>)
    ensures
        at.len() == list.filter_map(made).len(),
        forall|a: int, b: int| 0 <= a < b < at.len() ==> at[a] < at[b],
        forall|k: int|
            0 <= k < at.len() ==> 0 <= #[trigger] at[k] < list.len() && made(list[at[k]]) == Some(
                list.filter_map(made)[k],
            ),
        forall|i: int|
            0 <= i < list.len() ==> (#[trigger] at.contains(i) <==> made(list[i]) is Some),
    decreases list.len(),
{
    if list.len() == 0 {
        Seq::empty()
    } else {
        let front = list.drop_last();
        let last = list.len() - 1;
        let before = lemma_filter_map_at(front, made);
        let at = if made(list.last()) is Some {
            before.push(last)
        } else {
            before
        };
        assert forall|i: int| 0 <= i < list.len() implies (#[trigger] at.contains(i) <==> made(
            list[i],
        ) is Some) by {
            if i < last {
                assert(before.contains(i) <==> made(front[i]) is Some);
                if before.contains(i) {
                    let k = choose|k: int| 0 <= k < before.len() && before[k] == i;
                    assert(at[k] == i);
                }
                if at.contains(i) {
                    let k = choose|k: int| 0 <= k < at.len() && at[k] == i;
                    assert(before[k] == i);
                }
            } else {
                if made(list.last()) is Some {
                    assert(at[before.len() as int] == last);
                } else if at.contains(i) {
                    let k = choose|k: int| 0 <= k < at.len() && at[k] == i;
                    assert(before[k] < front.len());
                }
            }
        }
        at
    }
}

/// Which subscriptions are served when `data` come in, and with what: what the
/// list `sent` of deliveries has to do with the list of subscriptions.
pub proof fn lemma_published(
    subscriptions: Seq<TelemetrySubscription>,
    outlets: Seq<Outlet>,
    links: Map<u64, u64>,
    database: Map<Text, Text>,
    data: Map<Text, Text>,
    sent: Seq<Delivery>,
)
    requires
        super::super::clearinghouse::delivery_views(sent) == super::super::clearinghouse::state_view(
            subscriptions,
            outlets,
            links,
            database,
        ).published(data),
    ensures
        exists|at: Seq<int>|
            #![trigger at.len()]
            {
                &&& at.len() == sent.len()
                &&& forall|a: int, b: int| 0 <= a < b < at.len() ==> at[a] < at[b]
                &&& forall|i: int|
                    0 <= i < subscriptions.len() ==> (#[trigger] at.contains(i) <==> {
                        &&& exists|f: Text| #[trigger]
                            subscriptions[i].fields@.contains(f) && data.contains_key(f)
                        &&& forall|f: Text| #[trigger]
                            subscriptions[i].fields@.contains(f) ==> data.contains_key(f)
                                || database.contains_key(f)
                    })
                &&& forall|k: int|
                    0 <= k < at.len() ==> {
                        &&& 0 <= #[trigger] at[k] < subscriptions.len()
                        &&& sent[k].subscription@ == subscriptions[at[k]].name@
                        &&& sent[k].outlet.name@
                            == subscriptions[at[k]].outlet_to_subscription.name@
                        &&& sent[k].outlet.port
                            == subscriptions[at[k]].outlet_to_subscription.port
                        &&& forall|f: Text| #[trigger]
                            sent[k].data@.contains_key(f)
                                <==> subscriptions[at[k]].fields@.contains(f)
                        &&& forall|f: Text| #[trigger]
                            sent[k].data@.contains_key(f) ==> sent[k].data@[f]
                                == if data.contains_key(f) {
                                data[f]
                            } else {
                                database[f]
                            }
                    }
            },
{
    let state = super::super::clearinghouse::state_view(subscriptions, outlets, links, database);
    let list = state.subscriptions;
    let after = state.after_telemetry(data).database;
    let sends = super::super::laws::served(data.dom(), after);
    let views = super::super::clearinghouse::delivery_views(sent);
    super::super::laws::law_published_in_order(state, data);
    let at = lemma_filter_map_at(list, sends);
    assert(views.len() == at.len());
    assert forall|i: int| 0 <= i < subscriptions.len() implies (#[trigger] at.contains(i) <==> {
        &&& exists|f: Text| #[trigger]
            subscriptions[i].fields@.contains(f) && data.contains_key(f)
        &&& forall|f: Text| #[trigger]
            subscriptions[i].fields@.contains(f) ==> data.contains_key(f)
                || database.contains_key(f)
    }) by {
        assert(list[i] == subscriptions[i]@);
        assert(list[i].fields == subscriptions[i].fields@);
        super::super::laws::law_served_in_full(list[i], after);
    }
    assert forall|k: int| 0 <= k < at.len() implies {
        &&& 0 <= #[trigger] at[k] < subscriptions.len()
        &&& sent[k].subscription@ == subscriptions[at[k]].name@
        &&& sent[k].outlet.name@ == subscriptions[at[k]].outlet_to_subscription.name@
        &&& sent[k].outlet.port == subscriptions[at[k]].outlet_to_subscription.port
        &&& forall|f: Text| #[trigger]
            sent[k].data@.contains_key(f) <==> subscriptions[at[k]].fields@.contains(f)
        &&& forall|f: Text| #[trigger]
            sent[k].data@.contains_key(f) ==> sent[k].data@[f] == if data.contains_key(f) {
                data[f]
            } else {
                database[f]
            }
    } by {
        assert(views[k] == sent[k]@);
        assert(list[at[k]] == subscriptions[at[k]]@);
        super::super::laws::law_served_in_full(list[at[k]], after);
    }
}

/// A list of subscriptions that amounts to the same as another lists the same
/// names, fields and ports.
pub proof fn lemma_same_subscriptions(a: Seq<TelemetrySubscription>, b: Seq<TelemetrySubscription>)
    requires
        super::super::clearinghouse::subscription_views(a) == super::super::clearinghouse::subscription_views(b),
    ensures
        a.len() == b.len(),
        forall|i: int|
            0 <= i < b.len() ==> {
                &&& (#[trigger] a[i]).name@ == b[i].name@
                &&& a[i].fields@ == b[i].fields@
                &&& a[i].outlet_to_subscription.name@ == b[i].outlet_to_subscription.name@
                &&& a[i].outlet_to_subscription.port == b[i].outlet_to_subscription.port
            },
{
    let (x, y) = (
        super::super::clearinghouse::subscription_views(a),
        super::super::clearinghouse::subscription_views(b),
    );
    assert(x.len() == a.len() && y.len() == b.len());
    assert forall|i: int| 0 <= i < b.len() implies {
        &&& (#[trigger] a[i]).name@ == b[i].name@
        &&& a[i].fields@ == b[i].fields@
        &&& a[i].outlet_to_subscription.name@ == b[i].outlet_to_subscription.name@
        &&& a[i].outlet_to_subscription.port == b[i].outlet_to_subscription.port
    } by {
        assert(x[i] == a[i]@ && y[i] == b[i]@);
    }
}

/// A list of ports that amounts to the same as another lists the same ports.
pub proof fn lemma_same_outlets(a: Seq<Outlet>, b: Seq<Outlet>)
    requires
        super::super::clearinghouse::outlet_views(a) == super::super::clearinghouse::outlet_views(b),
    ensures
        a.len() == b.len(),
        forall|i: int|
            0 <= i < b.len() ==> (#[trigger] a[i]).name@ == b[i].name@ && a[i].port == b[i].port,
{
    let (x, y) = (super::super::clearinghouse::outlet_views(a), super::super::clearinghouse::outlet_views(b));
    assert(x.len() == a.len() && y.len() == b.len());
    assert forall|i: int| 0 <= i < b.len() implies (#[trigger] a[i]).name@ == b[i].name@
        && a[i].port == b[i].port by {
        assert(x[i] == a[i]@ && y[i] == b[i]@);
    }
}

/// What the answer to a request for a snapshot under `name` shows.
pub proof fn lemma_snapshot(
    subscriptions: Seq<TelemetrySubscription>,
    database: Map<Text, Text>,
    name: Option<String>,
    db: TelemetryData,
    missing: FieldSet,
    listed: Vec<TelemetrySubscription>,
)
    requires
        (ClearinghouseResp::Snapshot { database: db, missing, subscriptions: listed })@
            == super::super::model::snapshot_of(
            super::super::clearinghouse::subscription_views(subscriptions),
            database,
            match name {
                Some(n) => Some(n@),
                None => None,
            },
        ),
    ensures
        forall|i: int|
            {
                &&& name is Some
                &&& 0 <= i < subscriptions.len()
                &&& (#[trigger] subscriptions[i]).name@ == name->Some_0@
                &&& forall|j: int| 0 <= j < i ==> (#[trigger] subscriptions[j]).name@ != name->Some_0@
            } ==> {
                &&& listed@.len() == 1
                &&& listed@[0].name@ == subscriptions[i].name@
                &&& listed@[0].fields@ == subscriptions[i].fields@
                &&& listed@[0].outlet_to_subscription.name@
                    == subscriptions[i].outlet_to_subscription.name@
                &&& listed@[0].outlet_to_subscription.port
                    == subscriptions[i].outlet_to_subscription.port
                &&& forall|f: Text| #[trigger]
                    db@.contains_key(f) <==> database.contains_key(f)
                        && subscriptions[i].fields@.contains(f)
                &&& forall|f: Text| #[trigger] db@.contains_key(f) ==> db@[f] == database[f]
                &&& forall|f: Text| #[trigger] missing@.contains(f) <==> db@.contains_key(f)
            },
        (name is None || forall|i: int|
            0 <= i < subscriptions.len() ==> (#[trigger] subscriptions[i]).name@ != name->Some_0@) ==> {
            &&& listed@.len() == subscriptions.len()
            &&& forall|i: int|
                0 <= i < subscriptions.len() ==> {
                    &&& (#[trigger] listed@[i]).name@ == subscriptions[i].name@
                    &&& listed@[i].fields@ == subscriptions[i].fields@
                    &&& listed@[i].outlet_to_subscription.name@
                        == subscriptions[i].outlet_to_subscription.name@
                    &&& listed@[i].outlet_to_subscription.port
                        == subscriptions[i].outlet_to_subscription.port
                }
            &&& forall|f: Text| #[trigger] db@.contains_key(f) <==> database.contains_key(f)
            &&& forall|f: Text| #[trigger] db@.contains_key(f) ==> db@[f] == database[f]
            &&& forall|f: Text| !(#[trigger] missing@.contains(f))
        },
{
    let views = super::super::clearinghouse::subscription_views(subscriptions);
    let shown = super::super::clearinghouse::subscription_views(listed@);
    assert forall|i: int| 0 <= i < subscriptions.len() implies #[trigger] views[i]
        == subscriptions[i]@ by {}
    assert forall|i: int| 0 <= i < listed@.len() implies #[trigger] shown[i] == listed@[i]@ by {}
    if name is Some {
        let n = name->Some_0@;
        super::super::model::lemma_find_none(views, n);
        assert forall|i: int|
            {
                &&& 0 <= i < subscriptions.len()
                &&& (#[trigger] subscriptions[i]).name@ == n
                &&& forall|j: int| 0 <= j < i ==> (#[trigger] subscriptions[j]).name@ != n
            } implies super::super::model::find(views, n) == Some(i) by {
            assert(views[i].name == n);
            assert forall|j: int| 0 <= j < i implies (#[trigger] views[j]).name != n by {
                assert(subscriptions[j].name@ != n);
            }
            super::super::model::lemma_find(views, n, i);
        }
        if forall|i: int|
            0 <= i < subscriptions.len() ==> (#[trigger] subscriptions[i]).name@ != n {
            assert forall|i: int| 0 <= i < views.len() implies (#[trigger] views[i]).name != n by {
                assert(subscriptions[i].name@ != n);
            }
        }
    }
    if name is None || super::super::model::find(views, name->Some_0@) is None {
        lemma_same_subscriptions(listed@, subscriptions);
    } else {
        assert(shown.len() == 1);
        assert(shown[0] == listed@[0]@);
    }
}

/// What a list of subscriptions, a list of ports and their links become with one
/// subscription more.
pub proof fn lemma_joined(
    before: (Seq<TelemetrySubscription>, Seq<Outlet>, Map<u64, u64>),
    after: (Seq<TelemetrySubscription>, Seq<Outlet>, Map<u64, u64>),
    database: Map<Text, Text>,
    other: Map<Text, Text>,
    name: Text,
    fields: Set<Text>,
    receiver: u64,
)
    requires
        before.1.len() <= usize::MAX,
        super::super::clearinghouse::state_view(after.0, after.1, after.2, other)
            == super::super::clearinghouse::state_view(before.0, before.1, before.2, database).subscribed(
            name,
            fields,
            receiver,
        ),
    ensures
        other == database,
        after.0.len() == before.0.len() + 1,
        forall|i: int|
            0 <= i < before.0.len() ==> {
                &&& (#[trigger] after.0[i]).name@ == before.0[i].name@
                &&& after.0[i].fields@ == before.0[i].fields@
                &&& after.0[i].outlet_to_subscription.name@
                    == before.0[i].outlet_to_subscription.name@
                &&& after.0[i].outlet_to_subscription.port
                    == before.0[i].outlet_to_subscription.port
            },
        after.0.last().name@ == name,
        forall|f: Text| #[trigger]
            after.0.last().fields@.contains(f) <==> fields.contains(f),
        after.0.last().outlet_to_subscription.name@ == "outlet_to_subscription_"@ + name,
        after.0.last().outlet_to_subscription.port == before.1.len(),
        after.1.len() == before.1.len() + 1,
        forall|i: int|
            0 <= i < before.1.len() ==> (#[trigger] after.1[i]).name@ == before.1[i].name@
                && after.1[i].port == before.1[i].port,
        after.1.last().name@ == "outlet_to_subscription_"@ + name,
        after.1.last().port == before.1.len(),
        after.2.get(before.1.len() as u64) == Some(receiver),
        forall|p: u64|
            p != before.1.len() ==> #[trigger] after.2.get(p) == before.2.get(p),
{
    let a = super::super::clearinghouse::subscription_views(after.0);
    let b = super::super::clearinghouse::subscription_views(before.0);
    let x = super::super::clearinghouse::outlet_views(after.1);
    let y = super::super::clearinghouse::outlet_views(before.1);
    assert(a.len() == after.0.len() && b.len() == before.0.len());
    assert(x.len() == after.1.len() && y.len() == before.1.len());
    assert(a.last() == after.0.last()@);
    assert(x.last() == after.1.last()@);
    assert forall|i: int| 0 <= i < before.0.len() implies {
        &&& (#[trigger] after.0[i]).name@ == before.0[i].name@
        &&& after.0[i].fields@ == before.0[i].fields@
        &&& after.0[i].outlet_to_subscription.name@ == before.0[i].outlet_to_subscription.name@
        &&& after.0[i].outlet_to_subscription.port == before.0[i].outlet_to_subscription.port
    } by {
        assert(a[i] == after.0[i]@ && b[i] == before.0[i]@);
    }
    assert forall|i: int| 0 <= i < before.1.len() implies (#[trigger] after.1[i]).name@
        == before.1[i].name@ && after.1[i].port == before.1[i].port by {
        assert(x[i] == after.1[i]@ && y[i] == before.1[i]@);
    }
}

/// What a list of subscriptions becomes without the first one of a name.
pub proof fn lemma_left(
    before: Seq<TelemetrySubscription>,
    after: Seq<TelemetrySubscription>,
    outlets: Seq<Outlet>,
    outlets_after: Seq<Outlet>,
    links: (Map<u64, u64>, Map<u64, u64>),
    database: (Map<Text, Text>, Map<Text, Text>),
    name: Text,
)
    requires
        super::super::clearinghouse::state_view(after, outlets_after, links.1, database.1)
            == super::super::clearinghouse::state_view(
            before,
            outlets,
            links.0,
            database.0,
        ).unsubscribed(name),
    ensures
        outlets_after.len() == outlets.len(),
        forall|i: int|
            0 <= i < outlets.len() ==> (#[trigger] outlets_after[i]).name@ == outlets[i].name@
                && outlets_after[i].port == outlets[i].port,
        links.1 == links.0,
        database.1 == database.0,
        forall|i: int|
            {
                &&& 0 <= i < before.len()
                &&& (#[trigger] before[i]).name@ == name
                &&& forall|j: int| 0 <= j < i ==> (#[trigger] before[j]).name@ != name
            } ==> {
                &&& after.len() == before.len() - 1
                &&& forall|j: int|
                    0 <= j < after.len() ==> {
                        let from = if j < i {
                            j
                        } else {
                            j + 1
                        };
                        &&& (#[trigger] after[j]).name@ == before[from].name@
                        &&& after[j].fields@ == before[from].fields@
                        &&& after[j].outlet_to_subscription.name@
                            == before[from].outlet_to_subscription.name@
                        &&& after[j].outlet_to_subscription.port
                            == before[from].outlet_to_subscription.port
                    }
            },
        (forall|i: int| 0 <= i < before.len() ==> (#[trigger] before[i]).name@ != name) ==> {
            &&& after.len() == before.len()
            &&& forall|i: int|
                0 <= i < before.len() ==> {
                    &&& (#[trigger] after[i]).name@ == before[i].name@
                    &&& after[i].fields@ == before[i].fields@
                    &&& after[i].outlet_to_subscription.name@
                        == before[i].outlet_to_subscription.name@
                    &&& after[i].outlet_to_subscription.port
                        == before[i].outlet_to_subscription.port
                }
        },
{
    let a = super::super::clearinghouse::subscription_views(after);
    let b = super::super::clearinghouse::subscription_views(before);
    lemma_same_outlets(outlets_after, outlets);
    super::super::model::lemma_find_none(b, name);
    assert forall|i: int| 0 <= i < before.len() implies #[trigger] b[i] == before[i]@ by {}
    assert forall|i: int| 0 <= i < after.len() implies #[trigger] a[i] == after[i]@ by {}
    assert forall|i: int|
        {
            &&& 0 <= i < before.len()
            &&& (#[trigger] before[i]).name@ == name
            &&& forall|j: int| 0 <= j < i ==> (#[trigger] before[j]).name@ != name
        } implies {
        &&& after.len() == before.len() - 1
        &&& forall|j: int|
            0 <= j < after.len() ==> {
                let from = if j < i {
                    j
                } else {
                    j + 1
                };
                &&& (#[trigger] after[j]).name@ == before[from].name@
                &&& after[j].fields@ == before[from].fields@
                &&& after[j].outlet_to_subscription.name@
                    == before[from].outlet_to_subscription.name@
                &&& after[j].outlet_to_subscription.port
                    == before[from].outlet_to_subscription.port
            }
    } by {
        assert(b[i].name == name);
        assert forall|j: int| 0 <= j < i implies (#[trigger] b[j]).name != name by {
            assert(before[j].name@ != name);
        }
        super::super::model::lemma_find(b, name, i);
        assert(a == b.remove(i));
        assert(a.len() == after.len() && b.len() == before.len());
        assert forall|j: int| 0 <= j < after.len() implies {
            let from = if j < i {
                j
            } else {
                j + 1
            };
            &&& (#[trigger] after[j]).name@ == before[from].name@
            &&& after[j].fields@ == before[from].fields@
            &&& after[j].outlet_to_subscription.name@ == before[from].outlet_to_subscription.name@
            &&& after[j].outlet_to_subscription.port == before[from].outlet_to_subscription.port
        } by {
            let from = if j < i {
                j
            } else {
                j + 1
            };
            assert(a[j] == b[from]);
            assert(a[j] == after[j]@ && b[from] == before[from]@);
        }
    }
    if forall|i: int| 0 <= i < before.len() ==> (#[trigger] before[i]).name@ != name {
        assert forall|i: int| 0 <= i < b.len() implies (#[trigger] b[i]).name != name by {
            assert(before[i].name@ != name);
        }
        lemma_same_subscriptions(after, before);
    }
}

} // verus!
