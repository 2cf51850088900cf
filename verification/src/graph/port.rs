//! Ports: the named ends of the links between stages.
//!
//! A port is known by its name and by a number. Copies of a port are the same
//! port: which outlet feeds which inlet is kept apart from them, in `Links`. The
//! values travel outside of this library.

use vstd::prelude::*;

verus! {

/// The receiving end of a link.
#[derive(Debug)]
pub struct Inlet {
    /// The name of the port.
    pub name: String,
    /// The number that tells this port from others, of whatever name.
    pub port: u64,
}

impl Inlet {
    /// A port called `name` that is told from others by `port`.
    pub fn new<S: Into<String>>(name: S, port: u64) -> (inlet: Inlet)
        ensures
            crate::text::is_text_of(name, inlet.name),
            inlet.port == port,
    {
        Inlet { name: name.into(), port }
    }
}

impl Clone for Inlet {
    fn clone(&self) -> (copy: Inlet)
        ensures
            copy == *self,
    {
        Inlet { name: self.name.clone(), port: self.port }
    }
}

/// What a sending end amounts to.
pub struct OutletView {
    pub name: Seq<char>,
    pub port: u64,
}

/// The sending end of a link.
#[derive(Debug)]
pub struct Outlet {
    /// The name of the port.
    pub name: String,
    /// The number that tells this port from the other outlets of its stage.
    pub port: u64,
}

impl View for Outlet {
    type V = OutletView;

    open spec fn view(&self) -> OutletView {
        OutletView { name: self.name@, port: self.port }
    }
}

impl Outlet {
    /// A port called `name` that is told from the others of its stage by `port`.
    pub fn new<S: Into<String>>(name: S, port: u64) -> (outlet: Outlet)
        ensures
            crate::text::is_text_of(name, outlet.name),
            outlet.port == port,
    {
        Outlet { name: name.into(), port }
    }
}

impl Clone for Outlet {
    /// The same port once more.
    fn clone(&self) -> (copy: Outlet)
        ensures
            copy == *self,
    {
        Outlet { name: self.name.clone(), port: self.port }
    }
}

/// Which inlet each outlet of a stage feeds. An outlet feeds one inlet at most;
/// what is asked or done of an outlet is asked or done of all its copies.
#[derive(Debug)]
pub struct Links {
    entries: Vec<(u64, u64)>,
}

impl View for Links {
    type V = Map<u64, u64>;

    closed spec fn view(&self) -> Map<u64, u64> {
        crate::pairs::collected(self.entries@)
    }
}

impl Links {
    /// No outlet is listed twice.
    #[verifier::type_invariant]
    spec fn listed_once(self) -> bool {
        crate::pairs::keys_of(self.entries@).no_duplicates()
    }

    /// No outlet feeds anything.
    pub fn new() -> (links: Links)
        ensures
            links@ == Map::<u64, u64>::empty(),
    {
        Links { entries: Vec::new() }
    }

    /// The place at which the outlet of the number `port` is listed.
    fn position(entries: &Vec<(u64, u64)>, port: u64) -> (found: Option<usize>)
        ensures
            match found {
                Some(i) => i < entries@.len() && entries@[i as int].0 == port,
                None => !crate::pairs::keys_of(entries@).contains(port),
            },
    {
        let mut i: usize = 0;
        while i < entries.len()
            invariant
                i <= entries.len(),
                forall|j: int| 0 <= j < i ==> (#[trigger] entries@[j]).0 != port,
            decreases entries.len() - i,
        {
            if entries[i].0 == port {
                return Some(i);
            }
            i += 1;
        }
        None
    }

    /// The number of the inlet that `outlet` feeds, if it feeds one.
    pub fn peer(&self, outlet: &Outlet) -> (peer: Option<u64>)
        ensures
            peer == self@.get(outlet.port),
    {
        proof {
            use_type_invariant(self);
            crate::pairs::lemma_collected(self.entries@);
        }
        match Links::position(&self.entries, outlet.port) {
            Some(i) => Some(self.entries[i].1),
            None => None,
        }
    }

    /// Whether some outlet feeds `inlet`.
    pub fn is_attached(&self, inlet: &Inlet) -> (attached: bool)
        ensures
            attached == self@.contains_value(inlet.port),
    {
        let mut i: usize = 0;
        while i < self.entries.len()
            invariant
                i <= self.entries.len(),
                forall|j: int| 0 <= j < i ==> (#[trigger] self.entries@[j]).1 != inlet.port,
            decreases self.entries.len() - i,
        {
            if self.entries[i].1 == inlet.port {
                proof {
                    use_type_invariant(self);
                    crate::pairs::lemma_collected(self.entries@);
                }
                return true;
            }
            i += 1;
        }
        proof {
            use_type_invariant(self);
            crate::pairs::lemma_collected(self.entries@);
        }
        false
    }

    /// Lets `outlet` feed `receiver`, in place of any inlet that it fed before.
    pub fn connect(&mut self, outlet: &Outlet, receiver: &Inlet)
        ensures
            final(self)@ == old(self)@.insert(outlet.port, receiver.port),
    {
        proof {
            use_type_invariant(&*self);
        }
        let mut entries: Vec<(u64, u64)> = Vec::new();
        std::mem::swap(&mut entries, &mut self.entries);
        let ghost before = entries@;
        match Links::position(&entries, outlet.port) {
            Some(i) => {
                entries.set(i, (outlet.port, receiver.port));
                proof {
                    crate::pairs::lemma_set_value(before, i as int, receiver.port);
                }
            },
            None => {
                entries.push((outlet.port, receiver.port));
                proof {
                    crate::pairs::lemma_push_pair(before, outlet.port, receiver.port);
                }
            },
        }
        self.entries = entries;
    }

    /// Lets `outlet` feed nothing.
    pub fn close(&mut self, outlet: &Outlet)
        ensures
            final(self)@ == old(self)@.remove(outlet.port),
    {
        proof {
            use_type_invariant(&*self);
            crate::pairs::lemma_collected(self.entries@);
        }
        let mut entries: Vec<(u64, u64)> = Vec::new();
        std::mem::swap(&mut entries, &mut self.entries);
        let ghost before = entries@;
        match Links::position(&entries, outlet.port) {
            Some(i) => {
                entries.remove(i);
                proof {
                    crate::pairs::lemma_remove_pair(before, i as int);
                }
            },
            None => {
                assert(crate::pairs::collected(before).remove(outlet.port)
                    =~= crate::pairs::collected(before));
            },
        }
        self.entries = entries;
    }
}

/// Copies of an outlet share their link: what one of them is connected to, all
/// feed, and once one of them is closed none feeds anything. The other outlets
/// feed what they fed.
pub proof fn law_copies_share_their_link(
    links: Map<u64, u64>,
    outlet: Outlet,
    copy: Outlet,
    other: Outlet,
    receiver: Inlet,
)
    requires
        copy == outlet,
        other.port != outlet.port,
    ensures
        links.insert(outlet.port, receiver.port).get(copy.port) == Some(receiver.port),
        links.remove(outlet.port).get(copy.port) is None,
        links.insert(outlet.port, receiver.port).get(other.port) == links.get(other.port),
        links.remove(outlet.port).get(other.port) == links.get(other.port),
{
}

/// A port has the given name and number, and so has every copy of it.
pub proof fn law_new_inlet(name: &str, port: u64, inlet: Inlet, copy: Inlet)
    requires
        call_ensures(Inlet::new::<&str>, (name, port), inlet),
        call_ensures(<Inlet as Clone>::clone, (&inlet,), copy),
    ensures
        inlet.name@ == name@,
        inlet.port == port,
        copy.name@ == name@,
        copy.port == port,
{
}

/// A port has the given name and number, and so has every copy of it.
pub proof fn law_new_outlet(name: &str, port: u64, outlet: Outlet, copy: Outlet)
    requires
        call_ensures(Outlet::new::<&str>, (name, port), outlet),
        call_ensures(<Outlet as Clone>::clone, (&outlet,), copy),
    ensures
        outlet.name@ == name@,
        outlet.port == port,
        copy.name@ == name@,
        copy.port == port,
{
}

/// At first no outlet feeds anything, and nothing is fed.
pub proof fn law_new_links(
    links: Links,
    outlet: &Outlet,
    peer: Option<u64>,
    inlet: &Inlet,
    attached: bool,
)
    requires
        call_ensures(Links::new, (), links),
        call_ensures(Links::peer, (&links, outlet), peer),
        call_ensures(Links::is_attached, (&links, inlet), attached),
    ensures
        peer is None,
        !attached,
{
}

/// After an outlet was connected, it and every outlet of its number feed the
/// receiver, and any other outlet feeds what it fed before.
pub proof fn law_connect(
    links: &mut Links,
    outlet: &Outlet,
    receiver: &Inlet,
    asked: &Outlet,
    before: Option<u64>,
    after: Option<u64>,
)
    requires
        call_ensures(Links::connect, (links, outlet, receiver), ()),
        call_ensures(Links::peer, (&*old(links), asked), before),
        call_ensures(Links::peer, (&*final(links), asked), after),
    ensures
        asked.port == outlet.port ==> after == Some(receiver.port),
        asked.port != outlet.port ==> after == before,
{
}

/// After an outlet was closed, it and every outlet of its number feed nothing,
/// and any other outlet feeds what it fed before.
pub proof fn law_close(
    links: &mut Links,
    outlet: &Outlet,
    asked: &Outlet,
    before: Option<u64>,
    after: Option<u64>,
)
    requires
        call_ensures(Links::close, (links, outlet), ()),
        call_ensures(Links::peer, (&*old(links), asked), before),
        call_ensures(Links::peer, (&*final(links), asked), after),
    ensures
        asked.port == outlet.port ==> after is None,
        asked.port != outlet.port ==> after == before,
{
}

/// An inlet is attached if and only if some outlet feeds it.
pub proof fn law_is_attached(links: &Links, inlet: &Inlet, attached: bool)
    requires
        call_ensures(Links::is_attached, (links, inlet), attached),
    ensures
        attached <==> exists|port: u64|
            links@.contains_key(port) && #[trigger] links@[port] == inlet.port,
{
    if links@.contains_value(inlet.port) {
        let k = choose|k: u64| #[trigger] links@.dom().contains(k) && links@[k] == inlet.port;
        assert(links@.contains_key(k));
    }
    if exists|port: u64| links@.contains_key(port) && #[trigger] links@[port] == inlet.port {
        let k = choose|port: u64|
            links@.contains_key(port) && #[trigger] links@[port] == inlet.port;
        assert(links@.dom().contains(k));
    }
}

} // verus!
