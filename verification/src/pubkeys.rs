//! A set of public keys, held in the order in which the keys came in.

use crate::json::{array_view, lemma_array_view, Json, JsonModel};
use crate::text::same_text;
use vstd::prelude::*;
use vstd::set_lib::lemma_subset_equality;
use vstd::std_specs::cmp::PartialEqSpecImpl;

verus! {

/// A set of public keys. No key is held twice.
#[derive(Debug)]
pub struct PubkeySet {
    keys: Vec<String>,
}

/// The keys of a list, by their characters.
pub open spec fn key_texts(keys: Seq<String>) -> Seq<Seq<char>> {
    Seq::new(keys.len(), |i: int| keys[i]@)
}

impl PubkeySet {
    /// No key occurs twice.
    #[verifier::type_invariant]
    pub closed spec fn distinct(self) -> bool {
        key_texts(self.keys@).no_duplicates()
    }

    /// The keys in the order in which they came in.
    pub closed spec fn listing(self) -> Seq<Seq<char>> {
        key_texts(self.keys@)
    }
}

impl View for PubkeySet {
    type V = Set<Seq<char>>;

    closed spec fn view(&self) -> Set<Seq<char>> {
        key_texts(self.keys@).to_set()
    }
}

impl PubkeySet {
    /// The empty set.
    pub fn new() -> (set: PubkeySet)
        ensures
            set@ == Set::<Seq<char>>::empty(),
            set.listing() == Seq::<Seq<char>>::empty(),
    {
        let keys: Vec<String> = Vec::new();
        assert(key_texts(keys@) =~= Seq::<Seq<char>>::empty());
        assert(key_texts(keys@).to_set() =~= Set::<Seq<char>>::empty());
        PubkeySet { keys }
    }

    /// Tells whether `key` is in the set.
    pub fn contains(&self, key: &str) -> (found: bool)
        ensures
            found == self@.contains(key@),
    {
        let mut i: usize = 0;
        while i < self.keys.len()
            invariant
                i <= self.keys.len(),
                forall|k: int| 0 <= k < i ==> key_texts(self.keys@)[k] != key@,
            decreases self.keys.len() - i,
        {
            if same_text(self.keys[i].as_str(), key) {
                assert(key_texts(self.keys@)[i as int] == key@);
                return true;
            }
            i += 1;
        }
        false
    }

    /// Puts `key` into the set; tells whether it was new.
    pub fn insert(&mut self, key: String) -> (fresh: bool)
        ensures
            final(self)@ == old(self)@.insert(key@),
            fresh == !old(self)@.contains(key@),
            final(self).listing() == if fresh {
                old(self).listing().push(key@)
            } else {
                old(self).listing()
            },
    {
        proof {
            use_type_invariant(&*self);
        }
        if self.contains(key.as_str()) {
            assert(self@.insert(key@) =~= self@);
            return false;
        }
        let ghost before = key_texts(self.keys@);
        let ghost text = key@;
        let mut taken = PubkeySet::new();
        std::mem::swap(self, &mut taken);
        let mut keys = taken.keys;
        keys.push(key);
        proof {
            assert(key_texts(keys@) =~= before.push(text));
            assert(!before.contains(text)) by {
                if before.contains(text) {
                    assert(before.to_set().contains(text));
                }
            }
            assert(before.push(text).no_duplicates()) by {
                assert forall|i: int, j: int|
                    0 <= i < before.len() + 1 && 0 <= j < before.len() + 1 && i != j implies before.push(
                    text,
                )[i] != before.push(text)[j] by {
                    if i < before.len() && j < before.len() {
                    } else if i < before.len() {
                        assert(before.contains(before[i]));
                    } else {
                        assert(before.contains(before[j]));
                    }
                }
            }
            lemma_push_to_set(before, text);
        }
        *self = PubkeySet { keys };
        true
    }

    /// The number of keys in the set.
    pub fn len(&self) -> (count: usize)
        ensures
            count == self@.len(),
            count == self.listing().len(),
    {
        proof {
            use_type_invariant(self);
            key_texts(self.keys@).unique_seq_to_set();
        }
        self.keys.len()
    }

    /// Tells whether the set holds no key.
    pub fn is_empty(&self) -> (empty: bool)
        ensures
            empty == (self@.len() == 0),
            empty == (self@ == Set::<Seq<char>>::empty()),
    {
        proof {
            use_type_invariant(self);
            key_texts(self.keys@).unique_seq_to_set();
            if self.keys@.len() > 0 {
                assert(key_texts(self.keys@).contains(key_texts(self.keys@)[0]));
                assert(self@.contains(key_texts(self.keys@)[0]));
            } else {
                assert(self@ =~= Set::<Seq<char>>::empty());
            }
        }
        self.keys.len() == 0
    }

    /// The keys in the order in which they came in.
    pub fn to_vec(&self) -> (keys: Vec<String>)
        ensures
            key_texts(keys@) == self.listing(),
            key_texts(keys@).no_duplicates(),
            key_texts(keys@).to_set() == self@,
    {
        proof {
            use_type_invariant(self);
        }
        let mut keys: Vec<String> = Vec::new();
        let mut i: usize = 0;
        while i < self.keys.len()
            invariant
                i <= self.keys.len(),
                keys.len() == i,
                forall|k: int| 0 <= k < i ==> (#[trigger] keys[k])@ == self.keys[k]@,
            decreases self.keys.len() - i,
        {
            keys.push(self.keys[i].clone());
            i += 1;
        }
        assert(key_texts(keys@) =~= key_texts(self.keys@));
        keys
    }
}

/// The set of a list with one more item is the set of the list with that item put in.
pub proof fn lemma_push_to_set(list: Seq<Seq<char>>, item: Seq<char>)
    ensures
        list.push(item).to_set() == list.to_set().insert(item),
{
    assert forall|t: Seq<char>| list.push(item).to_set().contains(t) == list.to_set().insert(
        item,
    ).contains(t) by {
        if list.push(item).contains(t) {
            let i = choose|i: int| 0 <= i < list.push(item).len() && list.push(item)[i] == t;
            if i < list.len() {
                assert(list.contains(t));
            }
        }
        if list.contains(t) {
            let i = choose|i: int| 0 <= i < list.len() && list[i] == t;
            assert(list.push(item)[i] == t);
        }
        if t == item {
            assert(list.push(item)[list.len() as int] == t);
        }
    }
    assert(list.push(item).to_set() =~= list.to_set().insert(item));
}

/// The strings that a JSON array holds, where every item is a string.
pub open spec fn texts_of_json(items: Seq<JsonModel>) -> Option<Seq<Seq<char>>> {
    if forall|i: int| 0 <= i < items.len() ==> (#[trigger] items[i].as_text()) is Some {
        Some(Seq::new(items.len(), |i: int| items[i].as_text()->0))
    } else {
        None
    }
}

/// The JSON strings for a list of strings.
pub open spec fn texts_to_json(texts: Seq<Seq<char>>) -> Seq<JsonModel> {
    Seq::new(texts.len(), |i: int| JsonModel::Text(texts[i]))
}

/// Reading what was written for a list of strings gives the list back.
pub proof fn lemma_texts_round_trip(texts: Seq<Seq<char>>)
    ensures
        texts_of_json(texts_to_json(texts)) == Some(texts),
{
    let items = texts_to_json(texts);
    assert forall|i: int| 0 <= i < items.len() implies (#[trigger] items[i].as_text()) is Some by {
    }
    assert(texts_of_json(items)->0 =~= texts);
}

/// The set of keys that a JSON array holds, where every item is a string.
pub open spec fn keys_of_json(items: Seq<JsonModel>) -> Option<Set<Seq<char>>> {
    match texts_of_json(items) {
        Some(texts) => Some(texts.to_set()),
        None => None,
    }
}

impl PubkeySet {
    /// Reads a set of keys from the items of a JSON array.
    pub fn from_json(items: &Vec<Json>) -> (set: Option<PubkeySet>)
        ensures
            keys_of_json(array_view(items@)) == match set {
                Some(s) => Some(s@),
                None => None,
            },
    {
        let ghost models = array_view(items@);
        let mut set = PubkeySet::new();
        let mut i: usize = 0;
        let ghost mut texts: Seq<Seq<char>> = Seq::empty();
        assert(texts.to_set() =~= Set::<Seq<char>>::empty());
        while i < items.len()
            invariant
                i <= items.len(),
                models == array_view(items@),
                texts.len() == i,
                forall|k: int| 0 <= k < i ==> models[k].as_text() == Some(#[trigger] texts[k]),
                set@ == texts.to_set(),
            decreases items.len() - i,
        {
            match items[i].as_text() {
                Some(text) => {
                    proof {
                        lemma_push_to_set(texts, text@);
                        texts = texts.push(text@);
                    }
                    set.insert(text.clone());
                },
                None => {
                    assert(models[i as int].as_text() is None);
                    return None;
                },
            }
            i += 1;
        }
        proof {
            assert forall|k: int| 0 <= k < models.len() implies (#[trigger] models[k].as_text())
                is Some by {
                assert(models[k].as_text() == Some(texts[k]));
            }
            assert(texts_of_json(models)->0 =~= texts);
        }
        Some(set)
    }

    /// Writes the keys as a JSON array, in the order in which they came in.
    pub fn to_json(&self) -> (doc: Json)
        ensures
            doc@ == JsonModel::Array(texts_to_json(self.listing())),
    {
        let mut items: Vec<Json> = Vec::new();
        let mut i: usize = 0;
        while i < self.keys.len()
            invariant
                i <= self.keys.len(),
                items.len() == i,
                forall|k: int| 0 <= k < i ==> (#[trigger] items[k])@ == JsonModel::Text(
                    self.keys[k]@,
                ),
            decreases self.keys.len() - i,
        {
            items.push(Json::Text(self.keys[i].clone()));
            i += 1;
        }
        proof {
            lemma_array_view(items);
            assert(array_view(items@) =~= texts_to_json(key_texts(self.keys@)));
        }
        Json::Array(items)
    }
}

impl PubkeySet {
    /// Tells whether two sets hold the same keys.
    pub fn same_keys(&self, other: &PubkeySet) -> (same: bool)
        ensures
            same == (self@ == other@),
    {
        proof {
            use_type_invariant(self);
            use_type_invariant(other);
            key_texts(self.keys@).unique_seq_to_set();
            key_texts(other.keys@).unique_seq_to_set();
        }
        if self.keys.len() != other.keys.len() {
            return false;
        }
        let mut i: usize = 0;
        while i < self.keys.len()
            invariant
                i <= self.keys.len(),
                forall|k: int| 0 <= k < i ==> other@.contains(key_texts(self.keys@)[k]),
            decreases self.keys.len() - i,
        {
            if !other.contains(self.keys[i].as_str()) {
                assert(key_texts(self.keys@)[i as int] == self.keys[i as int]@);
                assert(self@.contains(key_texts(self.keys@)[i as int]));
                return false;
            }
            i += 1;
        }
        proof {
            assert forall|t: Seq<char>| self@.contains(t) implies other@.contains(t) by {
                let k = choose|k: int|
                    0 <= k < key_texts(self.keys@).len() && key_texts(self.keys@)[k] == t;
                assert(other@.contains(key_texts(self.keys@)[k]));
            }
            lemma_subset_equality(self@, other@);
        }
        true
    }
}

impl Clone for PubkeySet {
    fn clone(&self) -> (copy: PubkeySet)
        ensures
            copy@ == self@,
            copy.listing() == self.listing(),
    {
        PubkeySet { keys: self.to_vec() }
    }
}

impl PartialEq for PubkeySet {
    fn eq(&self, other: &PubkeySet) -> (same: bool) {
        self.same_keys(other)
    }
}

impl PartialEqSpecImpl for PubkeySet {
    open spec fn obeys_eq_spec() -> bool {
        true
    }

    open spec fn eq_spec(&self, other: &PubkeySet) -> bool {
        self@ == other@
    }
}

} // verus!
