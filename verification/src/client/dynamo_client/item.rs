use vstd::prelude::*;

verus! {

/// The value of one attribute of a record, as the store's wire format types
/// it: a string, or a number written in decimal.
#[derive(Debug)]
pub enum AttributeValue {
    /// A string.
    S(String),
    /// A number, as its decimal text.
    N(String),
}

/// An `AttributeValue`, with strings as sequences of characters.
pub enum AttributeValueView {
    S(Seq<char>),
    N(Seq<char>),
}

impl View for AttributeValue {
    type V = AttributeValueView;

    open spec fn view(&self) -> AttributeValueView {
        match self {
            AttributeValue::S(text) => AttributeValueView::S(text@),
            AttributeValue::N(digits) => AttributeValueView::N(digits@),
        }
    }
}

impl Clone for AttributeValue {
    fn clone(&self) -> (copy: AttributeValue)
        ensures
            copy@ == self@,
    {
        match self {
            AttributeValue::S(text) => AttributeValue::S(text.clone()),
            AttributeValue::N(digits) => AttributeValue::N(digits.clone()),
        }
    }
}

/// One attribute: its name and its value.
pub type Attribute = (Seq<char>, AttributeValueView);

/// The attributes of `entries` as a map from name to value. Where a name
/// occurs twice, the later entry counts.
pub open spec fn attributes_of(entries: Seq<Attribute>) -> Map<Seq<char>, AttributeValueView>
    decreases entries.len(),
{
    if entries.len() == 0 {
        Map::empty()
    } else {
        attributes_of(entries.drop_last()).insert(entries.last().0, entries.last().1)
    }
}

/// No name occurs twice in `entries`.
pub open spec fn distinct_names(entries: Seq<Attribute>) -> bool {
    forall|i: int, j: int|
        0 <= i < j < entries.len() ==> (#[trigger] entries[i]).0 != (#[trigger] entries[j]).0
}

/// The entries of a vector of attributes, with strings as sequences of
/// characters.
pub open spec fn entries_view(entries: Seq<(String, AttributeValue)>) -> Seq<Attribute> {
    entries.map_values(|e: (String, AttributeValue)| (e.0@, e.1@))
}

/// A name has an attribute in the map exactly when an entry carries it.
pub proof fn lemma_attributes_dom(entries: Seq<Attribute>, name: Seq<char>)
    ensures
        attributes_of(entries).dom().contains(name) <==> exists|i: int|
            0 <= i < entries.len() && (#[trigger] entries[i]).0 == name,
    decreases entries.len(),
{
    if entries.len() > 0 {
        let front = entries.drop_last();
        lemma_attributes_dom(front, name);
        if attributes_of(entries).dom().contains(name) {
            if entries.last().0 == name {
                assert(entries[entries.len() - 1].0 == name);
            } else {
                let i = choose|i: int| 0 <= i < front.len() && (#[trigger] front[i]).0 == name;
                assert(entries[i].0 == name);
            }
        }
        if exists|i: int| 0 <= i < entries.len() && (#[trigger] entries[i]).0 == name {
            let i = choose|i: int| 0 <= i < entries.len() && (#[trigger] entries[i]).0 == name;
            if i < front.len() {
                assert(front[i].0 == name);
            }
        }
    }
}

/// Where no name occurs twice among the entries, none occurs twice among
/// all of them but the last.
proof fn lemma_distinct_front(entries: Seq<Attribute>)
    requires
        distinct_names(entries),
        entries.len() > 0,
    ensures
        distinct_names(entries.drop_last()),
{
    let front = entries.drop_last();
    assert forall|a: int, b: int| 0 <= a < b < front.len() implies (#[trigger] front[a]).0 != (
    #[trigger] front[b]).0 by {
        assert(front[a] == entries[a] && front[b] == entries[b]);
    }
}

/// Where no name occurs twice, each entry's value is the one that the map
/// holds for its name.
pub proof fn lemma_attributes_at(entries: Seq<Attribute>, i: int)
    requires
        distinct_names(entries),
        0 <= i < entries.len(),
    ensures
        attributes_of(entries).dom().contains(entries[i].0),
        attributes_of(entries)[entries[i].0] == entries[i].1,
    decreases entries.len(),
{
    let front = entries.drop_last();
    if i < entries.len() - 1 {
        lemma_distinct_front(entries);
        lemma_attributes_at(front, i);
        assert(front[i] == entries[i]);
        assert(entries[i].0 != entries[entries.len() - 1].0);
    }
}

/// Replacing the value of an entry whose name occurs once is an insertion
/// into the map.
pub proof fn lemma_attributes_update(entries: Seq<Attribute>, i: int, value: AttributeValueView)
    requires
        distinct_names(entries),
        0 <= i < entries.len(),
    ensures
        distinct_names(entries.update(i, (entries[i].0, value))),
        attributes_of(entries.update(i, (entries[i].0, value))) == attributes_of(entries).insert(
            entries[i].0,
            value,
        ),
    decreases entries.len(),
{
    let name = entries[i].0;
    let updated = entries.update(i, (name, value));
    let front = entries.drop_last();
    assert(distinct_names(updated)) by {
        assert forall|a: int, b: int| 0 <= a < b < updated.len() implies (#[trigger] updated[a]).0
            != (#[trigger] updated[b]).0 by {
            assert(updated[a].0 == entries[a].0 && updated[b].0 == entries[b].0);
        }
    }
    if i == entries.len() - 1 {
        assert(updated.drop_last() =~= front);
        assert(attributes_of(updated) =~= attributes_of(entries).insert(name, value));
    } else {
        lemma_distinct_front(entries);
        lemma_attributes_update(front, i, value);
        assert(front[i] == entries[i]);
        assert(updated.drop_last() =~= front.update(i, (name, value)));
        assert(updated.last() == entries.last());
        assert(entries[i].0 != entries[entries.len() - 1].0);
        assert(attributes_of(updated) =~= attributes_of(entries).insert(name, value));
    }
}

/// The attributes of one record, or the values that an expression names:
/// a map from attribute name to value.
#[derive(Debug)]
pub struct Item {
    entries: Vec<(String, AttributeValue)>,
}

impl View for Item {
    type V = Map<Seq<char>, AttributeValueView>;

    closed spec fn view(&self) -> Map<Seq<char>, AttributeValueView> {
        attributes_of(entries_view(self.entries@))
    }
}

impl Item {
    #[verifier::type_invariant]
    spec fn well_formed(self) -> bool {
        distinct_names(entries_view(self.entries@))
    }

    /// An item without attributes.
    pub fn new() -> (item: Item)
        ensures
            item@ == Map::<Seq<char>, AttributeValueView>::empty(),
    {
        Item { entries: Vec::new() }
    }

    /// Where the attribute `name` stands among the entries.
    fn position(&self, name: &String) -> (found: Option<usize>)
        ensures
            found matches Some(i) ==> i < self.entries@.len() && self.entries@[i as int].0@
                == name@,
            found is None ==> forall|i: int|
                0 <= i < self.entries@.len() ==> (#[trigger] self.entries@[i]).0@ != name@,
    {
        let mut i: usize = 0;
        while i < self.entries.len()
            invariant
                i <= self.entries@.len(),
                forall|k: int| 0 <= k < i ==> (#[trigger] self.entries@[k]).0@ != name@,
            decreases self.entries@.len() - i,
        {
            if self.entries[i].0 == *name {
                return Some(i);
            }
            i += 1;
        }
        None
    }

    /// Sets the attribute `name` to `value`, in place of the value that it
    /// had, if it had one.
    pub fn insert(&mut self, name: String, value: AttributeValue)
        ensures
            final(self)@ == old(self)@.insert(name@, value@),
    {
        proof {
            use_type_invariant(&*self);
        }
        let found = self.position(&name);
        let mut entries: Vec<(String, AttributeValue)> = Vec::new();
        core::mem::swap(&mut self.entries, &mut entries);
        let ghost before = entries_view(entries@);
        let ghost entry = (name@, value@);
        match found {
            Some(i) => {
                proof {
                    lemma_attributes_update(before, i as int, value@);
                    assert(entries_view(entries@.update(i as int, (name, value)))
                        =~= before.update(i as int, entry));
                }
                entries.set(i, (name, value));
            },
            None => {
                proof {
                    let after = before.push(entry);
                    assert(entries_view(entries@.push((name, value))) =~= after);
                    assert(after.drop_last() =~= before);
                    assert(distinct_names(after)) by {
                        assert forall|a: int, b: int| 0 <= a < b < after.len() implies (
                        #[trigger] after[a]).0 != (#[trigger] after[b]).0 by {
                            assert(after[a] == before[a]);
                            if b < before.len() {
                                assert(after[b] == before[b]);
                            } else {
                                assert(before[a].0 == entries@[a].0@);
                            }
                        }
                    }
                }
                entries.push((name, value));
            },
        }
        self.entries = entries;
    }

    /// The value of the attribute `name`, if the item has one.
    pub fn get(&self, name: &str) -> (value: Option<&AttributeValue>)
        ensures
            value is Some <==> self@.dom().contains(name@),
            value matches Some(v) ==> v@ == self@[name@],
    {
        proof {
            use_type_invariant(self);
            lemma_attributes_dom(entries_view(self.entries@), name@);
        }
        let name = name.to_owned();
        match self.position(&name) {
            Some(i) => {
                proof {
                    lemma_attributes_at(entries_view(self.entries@), i as int);
                }
                Some(&self.entries[i].1)
            },
            None => {
                proof {
                    assert forall|i: int| 0 <= i < entries_view(self.entries@).len() implies (
                    #[trigger] entries_view(self.entries@)[i]).0 != name@ by {
                        assert(self.entries@[i].0@ != name@);
                    }
                }
                None
            },
        }
    }

    /// The attributes one by one, each name once, in no order that matters.
    pub fn into_entries(self) -> (entries: Vec<(String, AttributeValue)>)
        ensures
            distinct_names(entries_view(entries@)),
            attributes_of(entries_view(entries@)) == self@,
    {
        proof {
            use_type_invariant(&self);
        }
        self.entries
    }
}

} // verus!
