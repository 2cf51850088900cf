//! Telemetry records and sets of telemetry fields.

use vstd::prelude::*;

verus! {

/// The names held by a list of strings.
pub open spec fn texts(list: Seq<String>) -> Seq<Seq<char>> {
    list.map_values(|s: String| s@)
}

/// A set of telemetry field names.
#[derive(Debug)]
pub struct FieldSet {
    names: Vec<String>,
}

impl View for FieldSet {
    type V = Set<Seq<char>>;

    closed spec fn view(&self) -> Set<Seq<char>> {
        texts(self.names@).to_set()
    }
}

impl FieldSet {
    /// No name is listed twice.
    #[verifier::type_invariant]
    spec fn listed_once(self) -> bool {
        texts(self.names@).no_duplicates()
    }

    /// The empty set.
    pub fn new() -> (set: FieldSet)
        ensures
            set@ == Set::<Seq<char>>::empty(),
    {
        FieldSet { names: Vec::new() }
    }

    /// The set of the names in a list, which may repeat.
    pub fn from_names(list: Vec<String>) -> (set: FieldSet)
        ensures
            set@ == texts(list@).to_set(),
    {
        let mut set = FieldSet::new();
        let mut i: usize = 0;
        while i < list.len()
            invariant
                i <= list.len(),
                set@ == texts(list@).take(i as int).to_set(),
            decreases list.len() - i,
        {
            set.insert(list[i].clone());
            proof {
                assert(texts(list@).take(i + 1) =~= texts(list@).take(i as int).push(list@[i as int]@));
                lemma_push_to_set(texts(list@).take(i as int), list@[i as int]@);
            }
            i += 1;
        }
        assert(texts(list@).take(i as int) =~= texts(list@));
        set
    }

    /// Whether `name` belongs to the set.
    pub fn contains(&self, name: &String) -> (found: bool)
        ensures
            found == self@.contains(name@),
    {
        let mut i: usize = 0;
        while i < self.names.len()
            invariant
                i <= self.names.len(),
                forall|j: int| 0 <= j < i ==> (#[trigger] self.names@[j])@ != name@,
            decreases self.names.len() - i,
        {
            if self.names[i] == *name {
                assert(texts(self.names@)[i as int] == name@);
                return true;
            }
            i += 1;
        }
        false
    }

    /// Adds `name`; says whether it was new.
    pub fn insert(&mut self, name: String) -> (added: bool)
        ensures
            final(self)@ == old(self)@.insert(name@),
            added == !old(self)@.contains(name@),
    {
        if self.contains(&name) {
            return false;
        }
        proof {
            use_type_invariant(&*self);
        }
        let mut names: Vec<String> = Vec::new();
        std::mem::swap(&mut names, &mut self.names);
        let ghost before = texts(names@);
        let ghost key = name@;
        names.push(name);
        proof {
            assert(texts(names@) =~= before.push(key));
            lemma_push_to_set(before, key);
        }
        self.names = names;
        true
    }

    /// Whether the set has no name.
    pub fn is_empty(&self) -> (empty: bool)
        ensures
            empty == (self@ == Set::<Seq<char>>::empty()),
    {
        proof {
            if self.names@.len() > 0 {
                assert(texts(self.names@)[0] == self.names@[0]@);
                assert(self@.contains(self.names@[0]@));
            } else {
                assert(self@ =~= Set::<Seq<char>>::empty());
            }
        }
        self.names.len() == 0
    }

    /// The number of names.
    pub fn len(&self) -> (count: usize)
        ensures
            count == self@.len(),
    {
        proof {
            use_type_invariant(self);
            texts(self.names@).unique_seq_to_set();
        }
        self.names.len()
    }

    /// The names, each listed once.
    pub fn names(&self) -> (list: &Vec<String>)
        ensures
            texts(list@).to_set() == self@,
            texts(list@).no_duplicates(),
    {
        proof {
            use_type_invariant(self);
        }
        &self.names
    }

    /// Whether the two sets share a name.
    pub fn intersects(&self, other: &FieldSet) -> (shared: bool)
        ensures
            shared == (exists|f: Seq<char>| #[trigger] self@.contains(f) && other@.contains(f)),
    {
        let mut i: usize = 0;
        while i < self.names.len()
            invariant
                i <= self.names.len(),
                forall|j: int| 0 <= j < i ==> !other@.contains((#[trigger] self.names@[j])@),
            decreases self.names.len() - i,
        {
            if other.contains(&self.names[i]) {
                assert(texts(self.names@)[i as int] == self.names@[i as int]@);
                assert(self@.contains(self.names@[i as int]@));
                return true;
            }
            i += 1;
        }
        false
    }

    /// Whether every name of this set belongs to `other`.
    pub fn is_subset(&self, other: &FieldSet) -> (subset: bool)
        ensures
            subset == self@.subset_of(other@),
    {
        let mut i: usize = 0;
        while i < self.names.len()
            invariant
                i <= self.names.len(),
                forall|j: int| 0 <= j < i ==> other@.contains((#[trigger] self.names@[j])@),
            decreases self.names.len() - i,
        {
            if !other.contains(&self.names[i]) {
                assert(texts(self.names@)[i as int] == self.names@[i as int]@);
                return false;
            }
            i += 1;
        }
        true
    }
}

impl Default for FieldSet {
    fn default() -> (set: FieldSet)
        ensures
            set@ == Set::<Seq<char>>::empty(),
    {
        FieldSet::new()
    }
}

impl Clone for FieldSet {
    fn clone(&self) -> (copy: FieldSet)
        ensures
            copy@ == self@,
    {
        proof {
            use_type_invariant(self);
        }
        let mut names: Vec<String> = Vec::new();
        let mut i: usize = 0;
        while i < self.names.len()
            invariant
                i <= self.names.len(),
                names@ == self.names@.take(i as int),
            decreases self.names.len() - i,
        {
            names.push(self.names[i].clone());
            i += 1;
        }
        assert(names@ =~= self.names@);
        FieldSet { names }
    }
}

impl PartialEq for FieldSet {
    fn eq(&self, other: &FieldSet) -> (same: bool) {
        let same = self.is_subset(other) && other.is_subset(self);
        proof {
            if same {
                assert(self@ =~= other@);
            }
        }
        same
    }
}

impl vstd::std_specs::cmp::PartialEqSpecImpl for FieldSet {
    open spec fn obeys_eq_spec() -> bool {
        true
    }

    open spec fn eq_spec(&self, other: &FieldSet) -> bool {
        self@ == other@
    }
}

/// The keys and values held by a list of pairs of strings.
pub open spec fn pair_texts(list: Seq<(String, String)>) -> Seq<(Seq<char>, Seq<char>)> {
    list.map_values(|p: (String, String)| (p.0@, p.1@))
}

/// A record of telemetry: the latest known value of each field.
#[derive(Debug)]
pub struct TelemetryData {
    entries: Vec<(String, String)>,
}

impl View for TelemetryData {
    type V = Map<Seq<char>, Seq<char>>;

    closed spec fn view(&self) -> Map<Seq<char>, Seq<char>> {
        crate::pairs::collected(pair_texts(self.entries@))
    }
}

impl TelemetryData {
    /// No field is listed twice.
    #[verifier::type_invariant]
    spec fn listed_once(self) -> bool {
        crate::pairs::keys_of(pair_texts(self.entries@)).no_duplicates()
    }

    /// The empty record.
    pub fn new() -> (data: TelemetryData)
        ensures
            data@ == Map::<Seq<char>, Seq<char>>::empty(),
    {
        TelemetryData { entries: Vec::new() }
    }

    /// The position of `key` among the entries.
    fn position(entries: &Vec<(String, String)>, key: &String) -> (found: Option<usize>)
        ensures
            match found {
                Some(i) => i < entries@.len() && entries@[i as int].0@ == key@,
                None => !crate::pairs::keys_of(pair_texts(entries@)).contains(key@),
            },
    {
        let mut i: usize = 0;
        while i < entries.len()
            invariant
                i <= entries.len(),
                forall|j: int| 0 <= j < i ==> (#[trigger] entries@[j]).0@ != key@,
            decreases entries.len() - i,
        {
            if entries[i].0 == *key {
                return Some(i);
            }
            i += 1;
        }
        None
    }

    /// The value of `key`, where the record has one.
    pub fn get(&self, key: &String) -> (value: Option<&String>)
        ensures
            match value {
                Some(v) => self@.contains_key(key@) && v@ == self@[key@],
                None => !self@.contains_key(key@),
            },
    {
        proof {
            use_type_invariant(self);
            crate::pairs::lemma_collected(pair_texts(self.entries@));
        }
        match TelemetryData::position(&self.entries, key) {
            Some(i) => {
                assert(pair_texts(self.entries@)[i as int] == (
                    self.entries@[i as int].0@,
                    self.entries@[i as int].1@,
                ));
                Some(&self.entries[i].1)
            },
            None => None,
        }
    }

    /// Sets `key` to `value`.
    pub fn insert(&mut self, key: String, value: String)
        ensures
            final(self)@ == old(self)@.insert(key@, value@),
    {
        proof {
            use_type_invariant(&*self);
        }
        let mut entries: Vec<(String, String)> = Vec::new();
        std::mem::swap(&mut entries, &mut self.entries);
        let ghost before = pair_texts(entries@);
        let ghost (k, v) = (key@, value@);
        match TelemetryData::position(&entries, &key) {
            Some(i) => {
                entries.set(i, (key, value));
                proof {
                    assert(pair_texts(entries@) =~= before.update(i as int, (k, v)));
                    crate::pairs::lemma_set_value(before, i as int, v);
                }
            },
            None => {
                entries.push((key, value));
                proof {
                    assert(pair_texts(entries@) =~= before.push((k, v)));
                    crate::pairs::lemma_push_pair(before, k, v);
                }
            },
        }
        self.entries = entries;
    }

    /// The record that a list of entries builds up, where a later value
    /// replaces an earlier one of the same field.
    pub fn from_data(list: Vec<(String, String)>) -> (data: TelemetryData)
        ensures
            data@ == crate::pairs::collected(pair_texts(list@)),
    {
        let mut data = TelemetryData::new();
        let mut i: usize = 0;
        while i < list.len()
            invariant
                i <= list.len(),
                data@ == crate::pairs::collected(pair_texts(list@).take(i as int)),
            decreases list.len() - i,
        {
            data.insert(list[i].0.clone(), list[i].1.clone());
            proof {
                let done = pair_texts(list@).take(i + 1);
                assert(done.drop_last() =~= pair_texts(list@).take(i as int));
            }
            i += 1;
        }
        assert(pair_texts(list@).take(i as int) =~= pair_texts(list@));
        data
    }

    /// Whether the record has no field.
    pub fn is_empty(&self) -> (empty: bool)
        ensures
            empty == (self@ == Map::<Seq<char>, Seq<char>>::empty()),
    {
        proof {
            if self.entries@.len() > 0 {
                let last = pair_texts(self.entries@).last();
                assert(self@.contains_key(last.0));
            }
        }
        self.entries.len() == 0
    }

    /// The fields of the record.
    pub fn keys(&self) -> (fields: FieldSet)
        ensures
            fields@ == self@.dom(),
    {
        let mut fields = FieldSet::new();
        let mut i: usize = 0;
        while i < self.entries.len()
            invariant
                i <= self.entries.len(),
                fields@ == crate::pairs::collected(pair_texts(self.entries@).take(i as int)).dom(),
            decreases self.entries.len() - i,
        {
            fields.insert(self.entries[i].0.clone());
            proof {
                let done = pair_texts(self.entries@).take(i + 1);
                assert(done.drop_last() =~= pair_texts(self.entries@).take(i as int));
            }
            i += 1;
        }
        assert(pair_texts(self.entries@).take(i as int) =~= pair_texts(self.entries@));
        fields
    }

    /// Takes over every entry of `other`, whose values replace those of fields
    /// that both records have.
    pub fn extend(&mut self, other: TelemetryData)
        ensures
            final(self)@ == old(self)@.union_prefer_right(other@),
    {
        let ghost before = self@;
        let mut i: usize = 0;
        while i < other.entries.len()
            invariant
                i <= other.entries.len(),
                self@ == before.union_prefer_right(
                    crate::pairs::collected(pair_texts(other.entries@).take(i as int)),
                ),
            decreases other.entries.len() - i,
        {
            self.insert(other.entries[i].0.clone(), other.entries[i].1.clone());
            proof {
                let done = pair_texts(other.entries@).take(i + 1);
                assert(done.drop_last() =~= pair_texts(other.entries@).take(i as int));
                assert(done.last() == (
                    other.entries@[i as int].0@,
                    other.entries@[i as int].1@,
                ));
            }
            i += 1;
        }
        assert(pair_texts(other.entries@).take(i as int) =~= pair_texts(other.entries@));
    }

    /// Keeps the entries of the fields in `fields` and drops the others.
    pub fn retain(&mut self, fields: &FieldSet)
        ensures
            final(self)@ == old(self)@.restrict(fields@),
    {
        let mut kept = TelemetryData::new();
        let mut i: usize = 0;
        while i < self.entries.len()
            invariant
                i <= self.entries.len(),
                self.entries@ == old(self).entries@,
                kept@ == crate::pairs::collected(pair_texts(self.entries@).take(i as int)).restrict(fields@),
            decreases self.entries.len() - i,
        {
            let ghost done = pair_texts(self.entries@).take(i + 1);
            assert(done.drop_last() =~= pair_texts(self.entries@).take(i as int));
            if fields.contains(&self.entries[i].0) {
                kept.insert(self.entries[i].0.clone(), self.entries[i].1.clone());
            }
            i += 1;
        }
        assert(pair_texts(self.entries@).take(i as int) =~= pair_texts(self.entries@));
        *self = kept;
    }

    /// Whether every entry of this record stands in `other`.
    fn within(&self, other: &TelemetryData) -> (inside: bool)
        ensures
            inside == self@.submap_of(other@),
    {
        proof {
            use_type_invariant(self);
            crate::pairs::lemma_collected(pair_texts(self.entries@));
        }
        let ghost pairs = pair_texts(self.entries@);
        let mut i: usize = 0;
        while i < self.entries.len()
            invariant
                i <= self.entries.len(),
                pairs == pair_texts(self.entries@),
                forall|j: int|
                    0 <= j < pairs.len() ==> self@.contains_key((#[trigger] pairs[j]).0)
                        && self@[pairs[j].0] == pairs[j].1,
                forall|j: int|
                    0 <= j < i ==> other@.contains_key((#[trigger] pairs[j]).0)
                        && other@[pairs[j].0] == pairs[j].1,
            decreases self.entries.len() - i,
        {
            assert(pairs[i as int] == (self.entries@[i as int].0@, self.entries@[i as int].1@));
            match other.get(&self.entries[i].0) {
                Some(value) => {
                    if *value != self.entries[i].1 {
                        return false;
                    }
                },
                None => {
                    return false;
                },
            }
            i += 1;
        }
        true
    }
}

impl Default for TelemetryData {
    fn default() -> (data: TelemetryData)
        ensures
            data@ == Map::<Seq<char>, Seq<char>>::empty(),
    {
        TelemetryData::new()
    }
}

impl Clone for TelemetryData {
    fn clone(&self) -> (copy: TelemetryData)
        ensures
            copy@ == self@,
    {
        proof {
            use_type_invariant(self);
        }
        let mut entries: Vec<(String, String)> = Vec::new();
        let mut i: usize = 0;
        while i < self.entries.len()
            invariant
                i <= self.entries.len(),
                entries@ == self.entries@.take(i as int),
            decreases self.entries.len() - i,
        {
            entries.push((self.entries[i].0.clone(), self.entries[i].1.clone()));
            i += 1;
        }
        assert(entries@ =~= self.entries@);
        TelemetryData { entries }
    }
}

impl PartialEq for TelemetryData {
    fn eq(&self, other: &TelemetryData) -> (same: bool) {
        let same = self.within(other) && other.within(self);
        proof {
            if same {
                assert(self@.dom() =~= other@.dom());
                assert(self@ =~= other@);
            }
        }
        same
    }
}

impl vstd::std_specs::cmp::PartialEqSpecImpl for TelemetryData {
    open spec fn obeys_eq_spec() -> bool {
        true
    }

    open spec fn eq_spec(&self, other: &TelemetryData) -> bool {
        self@ == other@
    }
}

/// Appending a value to a list adds it to the list's set.
pub proof fn lemma_push_to_set<A>(s: Seq<A>, a: A)
    ensures
        s.push(a).to_set() == s.to_set().insert(a),
{
    assert forall|x: A| s.push(a).to_set().contains(x) == s.to_set().insert(a).contains(x) by {
        if s.contains(x) {
            let j = choose|j: int| 0 <= j < s.len() && s[j] == x;
            assert(s.push(a)[j] == x);
        }
        assert(s.push(a)[s.len() as int] == a);
    }
}

/// A set that is made of a list has a name if and only if the list has it.
pub proof fn law_set_of_names(list: Vec<String>, set: FieldSet, name: &String, found: bool)
    requires
        call_ensures(FieldSet::from_names, (list,), set),
        call_ensures(FieldSet::contains, (&set, name), found),
    ensures
        found <==> exists|i: int| 0 <= i < list@.len() && (#[trigger] list@[i])@ == name@,
{
    let all = texts(list@);
    if found {
        let i = choose|i: int| 0 <= i < all.len() && all[i] == name@;
        assert(list@[i]@ == name@);
    }
    if exists|i: int| 0 <= i < list@.len() && (#[trigger] list@[i])@ == name@ {
        let i = choose|i: int| 0 <= i < list@.len() && (#[trigger] list@[i])@ == name@;
        assert(all[i] == name@);
    }
}

/// An empty set has no name.
pub proof fn law_empty_set(made: FieldSet, default: FieldSet, name: &String, a: bool, b: bool)
    requires
        call_ensures(FieldSet::new, (), made),
        call_ensures(<FieldSet as Default>::default, (), default),
        call_ensures(FieldSet::contains, (&made, name), a),
        call_ensures(FieldSet::contains, (&default, name), b),
    ensures
        !a,
        !b,
{
}

/// After a name was added, the set has it and whatever it had before; the name was
/// new if the set did not have it.
pub proof fn law_insert_name(
    set: &mut FieldSet,
    name: String,
    added: bool,
    asked: &String,
    before: bool,
    after: bool,
)
    requires
        call_ensures(FieldSet::insert, (set, name), added),
        call_ensures(FieldSet::contains, (&*old(set), asked), before),
        call_ensures(FieldSet::contains, (&*final(set), asked), after),
    ensures
        after <==> before || asked@ == name@,
        asked@ == name@ ==> added == !before,
{
}

/// The names of a set are listed each once, all of them and no others; their
/// number is that of the set, and there is none if and only if the set is empty.
pub proof fn law_listed_names(set: &FieldSet, list: &Vec<String>, count: usize, empty: bool)
    requires
        call_ensures(FieldSet::names, (set,), list),
        call_ensures(FieldSet::len, (set,), count),
        call_ensures(FieldSet::is_empty, (set,), empty),
    ensures
        forall|i: int, j: int|
            0 <= i < j < list@.len() ==> (#[trigger] list@[i])@ != (#[trigger] list@[j])@,
        forall|name: Seq<char>| #[trigger]
            set@.contains(name) <==> exists|i: int|
                0 <= i < list@.len() && (#[trigger] list@[i])@ == name,
        count == list@.len(),
        empty <==> list@.len() == 0,
{
    let all = texts(list@);
    all.unique_seq_to_set();
    if list@.len() > 0 {
        assert(all.contains(all[0]));
        assert(set@.contains(all[0]));
    } else {
        assert(set@ =~= Set::<Seq<char>>::empty());
    }
    assert forall|i: int, j: int| 0 <= i < j < list@.len() implies (#[trigger] list@[i])@ != (
    #[trigger] list@[j])@ by {
        assert(all[i] == list@[i]@ && all[j] == list@[j]@);
    }
    assert forall|name: Seq<char>| #[trigger] set@.contains(name) <==> exists|i: int|
        0 <= i < list@.len() && (#[trigger] list@[i])@ == name by {
        if set@.contains(name) {
            let i = choose|i: int| 0 <= i < all.len() && all[i] == name;
            assert(list@[i]@ == name);
        }
        if exists|i: int| 0 <= i < list@.len() && (#[trigger] list@[i])@ == name {
            let i = choose|i: int| 0 <= i < list@.len() && (#[trigger] list@[i])@ == name;
            assert(all[i] == name);
        }
    }
}

/// Two sets intersect if and only if they share a name; one is a subset of the
/// other if and only if the other has all its names; they are equal if and only
/// if they have the same names; and a copy has the same names.
pub proof fn law_compared_sets(
    one: &FieldSet,
    other: &FieldSet,
    shared: bool,
    subset: bool,
    same: bool,
    copy: FieldSet,
)
    requires
        call_ensures(FieldSet::intersects, (one, other), shared),
        call_ensures(FieldSet::is_subset, (one, other), subset),
        call_ensures(<FieldSet as PartialEq>::eq, (one, other), same),
        call_ensures(<FieldSet as Clone>::clone, (one,), copy),
    ensures
        shared <==> exists|f: Seq<char>| #[trigger] one@.contains(f) && other@.contains(f),
        subset <==> forall|f: Seq<char>| #[trigger] one@.contains(f) ==> other@.contains(f),
        same <==> forall|f: Seq<char>| #[trigger] one@.contains(f) <==> other@.contains(f),
        forall|f: Seq<char>| #[trigger] copy@.contains(f) <==> one@.contains(f),
{
    if forall|f: Seq<char>| #[trigger] one@.contains(f) <==> other@.contains(f) {
        assert(one@ =~= other@);
    }
}

/// A record that is made of a list of entries has a field if and only if an entry
/// of the list has it, and then with the value of the last such entry.
pub proof fn law_record_of_entries(
    list: Vec<(String, String)>,
    data: TelemetryData,
    key: &String,
    value: Option<&String>,
)
    requires
        call_ensures(TelemetryData::from_data, (list,), data),
        call_ensures(TelemetryData::get, (&data, key), value),
    ensures
        (forall|i: int| 0 <= i < list@.len() ==> (#[trigger] list@[i]).0@ != key@) ==> value
            is None,
        forall|i: int|
            {
                &&& 0 <= i < list@.len()
                &&& (#[trigger] list@[i]).0@ == key@
                &&& forall|j: int| i < j < list@.len() ==> (#[trigger] list@[j]).0@ != key@
            } ==> value is Some && value->Some_0@ == list@[i].1@,
{
    let pairs = pair_texts(list@);
    assert forall|i: int| 0 <= i < list@.len() implies #[trigger] pairs[i] == (
        list@[i].0@,
        list@[i].1@,
    ) by {}
    if forall|i: int| 0 <= i < list@.len() ==> (#[trigger] list@[i]).0@ != key@ {
        assert forall|i: int| 0 <= i < pairs.len() implies (#[trigger] pairs[i]).0 != key@ by {
            assert(list@[i].0@ != key@);
        }
        crate::pairs::law_absent_key(pairs, key@);
    }
    assert forall|i: int|
        {
            &&& 0 <= i < list@.len()
            &&& (#[trigger] list@[i]).0@ == key@
            &&& forall|j: int| i < j < list@.len() ==> (#[trigger] list@[j]).0@ != key@
        } implies value is Some && value->Some_0@ == list@[i].1@ by {
        assert forall|j: int| i < j < pairs.len() implies (#[trigger] pairs[j]).0 != key@ by {
            assert(list@[j].0@ != key@);
        }
        crate::pairs::law_last_value(pairs, i);
    }
}

/// An empty record has no field.
pub proof fn law_empty_record<'a>(
    made: TelemetryData,
    default: TelemetryData,
    key: &String,
    a: Option<&'a String>,
    b: Option<&'a String>,
)
    requires
        call_ensures(TelemetryData::new, (), made),
        call_ensures(<TelemetryData as Default>::default, (), default),
        call_ensures(TelemetryData::get, (&made, key), a),
        call_ensures(TelemetryData::get, (&default, key), b),
    ensures
        a is None,
        b is None,
{
}

/// After a field was set it has the given value, and any other field has what it
/// had before.
pub proof fn law_set_field<'a>(
    data: &mut TelemetryData,
    key: String,
    value: String,
    asked: &String,
    before: Option<&'a String>,
    after: Option<&'a String>,
)
    requires
        call_ensures(TelemetryData::insert, (data, key, value), ()),
        call_ensures(TelemetryData::get, (&*old(data), asked), before),
        call_ensures(TelemetryData::get, (&*final(data), asked), after),
    ensures
        asked@ == key@ ==> after is Some && after->Some_0@ == value@,
        asked@ != key@ ==> (after is Some <==> before is Some),
        asked@ != key@ && after is Some ==> after->Some_0@ == before->Some_0@,
{
}

/// After one record took over another, a field has the value of the other, where
/// that has it, and else what it had before.
pub proof fn law_extend_record<'a>(
    data: &mut TelemetryData,
    other: TelemetryData,
    asked: &String,
    before: Option<&'a String>,
    came: Option<&'a String>,
    after: Option<&'a String>,
)
    requires
        call_ensures(TelemetryData::extend, (data, other), ()),
        call_ensures(TelemetryData::get, (&*old(data), asked), before),
        call_ensures(TelemetryData::get, (&other, asked), came),
        call_ensures(TelemetryData::get, (&*final(data), asked), after),
    ensures
        came is Some ==> after is Some && after->Some_0@ == came->Some_0@,
        came is None ==> (after is Some <==> before is Some),
        came is None && after is Some ==> after->Some_0@ == before->Some_0@,
{
}

/// After all but some fields were dropped, those fields have what they had before
/// and no other has a value.
pub proof fn law_retain_fields<'a>(
    data: &mut TelemetryData,
    fields: &FieldSet,
    asked: &String,
    chosen: bool,
    before: Option<&'a String>,
    after: Option<&'a String>,
)
    requires
        call_ensures(TelemetryData::retain, (data, fields), ()),
        call_ensures(FieldSet::contains, (fields, asked), chosen),
        call_ensures(TelemetryData::get, (&*old(data), asked), before),
        call_ensures(TelemetryData::get, (&*final(data), asked), after),
    ensures
        after is Some <==> chosen && before is Some,
        after is Some ==> after->Some_0@ == before->Some_0@,
{
}

/// The fields of a record are those that have a value in it.
pub proof fn law_fields_of_record(
    data: &TelemetryData,
    fields: FieldSet,
    asked: &String,
    listed: bool,
    value: Option<&String>,
    empty: bool,
)
    requires
        call_ensures(TelemetryData::keys, (data,), fields),
        call_ensures(FieldSet::contains, (&fields, asked), listed),
        call_ensures(TelemetryData::get, (data, asked), value),
        call_ensures(TelemetryData::is_empty, (data,), empty),
    ensures
        listed <==> value is Some,
        empty ==> !listed,
        empty <==> forall|f: Seq<char>| !(#[trigger] data@.contains_key(f)),
{
    if forall|f: Seq<char>| !(#[trigger] data@.contains_key(f)) {
        assert(data@ =~= Map::<Seq<char>, Seq<char>>::empty());
    }
}

/// Two records are equal if and only if they have the same fields with the same
/// values, and a copy has them too.
pub proof fn law_compared_records(
    one: &TelemetryData,
    other: &TelemetryData,
    same: bool,
    copy: TelemetryData,
)
    requires
        call_ensures(<TelemetryData as PartialEq>::eq, (one, other), same),
        call_ensures(<TelemetryData as Clone>::clone, (one,), copy),
    ensures
        same <==> forall|f: Seq<char>|
            (#[trigger] one@.contains_key(f) <==> other@.contains_key(f)) && (one@.contains_key(f)
                ==> one@[f] == other@[f]),
        forall|f: Seq<char>| #[trigger] copy@.contains_key(f) <==> one@.contains_key(f),
        forall|f: Seq<char>| #[trigger] copy@.contains_key(f) ==> copy@[f] == one@[f],
{
    if forall|f: Seq<char>|
        (#[trigger] one@.contains_key(f) <==> other@.contains_key(f)) && (one@.contains_key(f)
            ==> one@[f] == other@[f]) {
        assert(one@ =~= other@);
    }
}

} // verus!
