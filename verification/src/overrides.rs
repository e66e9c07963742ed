//! What one source says: values for some of the options, none for the rest.

use vstd::prelude::*;
use crate::schema::{field_at, lemma_field_places, Field, Value, ValueView, FIELD_COUNT};

verus! {

/// Whether every value in `options` has the kind that its option asks for.
pub open spec fn well_kinded(options: Map<Field, ValueView>) -> bool {
    forall|f: Field| #[trigger] options.contains_key(f) ==> options[f].kind() == f.kind_of()
}

/// Of the first `n` options of the schema, those that `options` sets, each
/// with its name and value, in the order of the schema.
pub open spec fn named_entries(options: Map<Field, ValueView>, n: int) -> Seq<
    (Seq<char>, ValueView),
>
    decreases n,
{
    if n <= 0 {
        Seq::empty()
    } else if options.contains_key(field_at(n - 1)) {
        named_entries(options, n - 1).push(
            (field_at(n - 1).key_text(), options[field_at(n - 1)]),
        )
    } else {
        named_entries(options, n - 1)
    }
}

/// Whether `entry` is the name and value of an option among the first `n`
/// that `options` sets.
pub open spec fn is_entry_of(
    options: Map<Field, ValueView>,
    n: int,
    entry: (Seq<char>, ValueView),
) -> bool {
    exists|f: Field|
        f.ord() < n && #[trigger] options.contains_key(f) && entry == (f.key_text(), options[f])
}

/// The entries hold what the source sets and nothing else: an option
/// among the first `n` that is set stands there with its name and value,
/// and every entry is made of such an option.
pub proof fn lemma_named_entries(options: Map<Field, ValueView>, n: int)
    requires
        0 <= n <= FIELD_COUNT,
    ensures
        forall|f: Field|
            f.ord() < n && #[trigger] options.contains_key(f) ==> named_entries(
                options,
                n,
            ).contains((f.key_text(), options[f])),
        forall|i: int|
            0 <= i < named_entries(options, n).len() ==> is_entry_of(
                options,
                n,
                #[trigger] named_entries(options, n)[i],
            ),
    decreases n,
{
    lemma_field_places();
    if n > 0 {
        lemma_named_entries(options, n - 1);
        let before = named_entries(options, n - 1);
        let all = named_entries(options, n);
        let last = field_at(n - 1);
        assert forall|f: Field|
            f.ord() < n && #[trigger] options.contains_key(f) implies all.contains(
            (f.key_text(), options[f]),
        ) by {
            if f.ord() < n - 1 {
                let at = choose|i: int|
                    0 <= i < before.len() && before[i] == (f.key_text(), options[f]);
                assert(all[at] == before[at]);
            } else {
                assert(f == last);
                assert(all[all.len() - 1] == (f.key_text(), options[f]));
            }
        }
        assert forall|i: int| 0 <= i < all.len() implies is_entry_of(
            options,
            n,
            #[trigger] all[i],
        ) by {
            if i < before.len() {
                assert(all[i] == before[i]);
                assert(is_entry_of(options, n - 1, before[i]));
                let f = choose|f: Field|
                    f.ord() < n - 1 && #[trigger] options.contains_key(f) && before[i] == (
                        f.key_text(),
                        options[f],
                    );
                assert(f.ord() < n && options.contains_key(f));
            } else {
                assert(last.ord() < n && options.contains_key(last));
            }
        }
    }
}

/// The view of an optional value.
pub open spec fn viewed(value: Option<Value>) -> Option<ValueView> {
    match value {
        Some(v) => Some(v@),
        None => None,
    }
}

/// The options that one source sets, such as the environment, each with the
/// value the source gives it. An option that is not set has no value here,
/// which is not the same as an empty one.
#[derive(Debug)]
pub struct EnvConfig {
    values: Vec<Option<Value>>,
}

impl View for EnvConfig {
    type V = Map<Field, ValueView>;

    closed spec fn view(&self) -> Map<Field, ValueView> {
        Map::new(|f: Field| self.values[f.ord()] is Some, |f: Field| self.values[f.ord()]->0@)
    }
}

impl Clone for EnvConfig {
    /// A source that sets the same options to the same values.
    fn clone(&self) -> (copy: EnvConfig)
        ensures
            copy@ == self@,
    {
        proof {
            use_type_invariant(self);
        }
        let mut values: Vec<Option<Value>> = Vec::new();
        let mut i: usize = 0;
        while i < FIELD_COUNT
            invariant
                0 <= i <= FIELD_COUNT,
                self.values.len() == FIELD_COUNT,
                values.len() == i,
                forall|k: int|
                    0 <= k < i ==> viewed(#[trigger] values[k]) == viewed(self.values[k]),
            decreases FIELD_COUNT - i,
        {
            let value = match &self.values[i] {
                Some(v) => Some(v.clone()),
                None => None,
            };
            values.push(value);
            i += 1;
        }
        let copy = EnvConfig { values };
        proof {
            lemma_field_places();
            assert(copy@ =~= self@);
        }
        copy
    }
}

impl EnvConfig {
    /// There is one place for each option, and a value that stands at a
    /// place has the kind of that option.
    #[verifier::type_invariant]
    spec fn sound(&self) -> bool {
        &&& self.values.len() == FIELD_COUNT
        &&& forall|i: int|
            0 <= i < FIELD_COUNT ==> ((#[trigger] self.values[i]) matches Some(v) ==> v@.kind()
                == field_at(i).kind_of())
    }

    /// A source that sets nothing.
    pub fn new() -> (env: EnvConfig)
        ensures
            env@ == Map::<Field, ValueView>::empty(),
    {
        let mut values: Vec<Option<Value>> = Vec::new();
        let mut i: usize = 0;
        while i < FIELD_COUNT
            invariant
                0 <= i <= FIELD_COUNT,
                values.len() == i,
                forall|k: int| 0 <= k < i ==> values[k] is None,
            decreases FIELD_COUNT - i,
        {
            values.push(None);
            i += 1;
        }
        let env = EnvConfig { values };
        proof {
            lemma_field_places();
            assert(env@ =~= Map::<Field, ValueView>::empty());
        }
        env
    }

    /// The value that the source gives to `field`, if it sets it.
    pub fn get(&self, field: Field) -> (value: Option<Value>)
        ensures
            viewed(value) == self@.get(field),
            well_kinded(self@),
    {
        proof {
            use_type_invariant(self);
            lemma_field_places();
        }
        match &self.values[field.index()] {
            Some(v) => Some(v.clone()),
            None => None,
        }
    }

    /// Lets the source set `field` to `value`, and says whether it did: a
    /// value of another kind than the option's is not taken.
    pub fn set(&mut self, field: Field, value: Value) -> (taken: bool)
        ensures
            taken == (value@.kind() == field.kind_of()),
            taken ==> final(self)@ == old(self)@.insert(field, value@),
            !taken ==> final(self)@ == old(self)@,
    {
        proof {
            use_type_invariant(&*self);
            lemma_field_places();
        }
        if value.kind() == field.kind() {
            let ghost value_view = value@;
            let mut whole = EnvConfig::new();
            core::mem::swap(self, &mut whole);
            let mut values = whole.values;
            values.set(field.index(), Some(value));
            *self = EnvConfig { values };
            assert(self@ =~= old(self)@.insert(field, value_view));
            true
        } else {
            false
        }
    }

    /// The options that the source sets, each with its name and value, in
    /// the order of the schema.
    pub fn get_map(&self) -> (entries: Vec<(String, Value)>)
        ensures
            entries.deep_view() == named_entries(self@, FIELD_COUNT as int),
            well_kinded(self@),
    {
        proof {
            use_type_invariant(self);
            lemma_field_places();
        }
        let mut entries: Vec<(String, Value)> = Vec::new();
        let mut i: usize = 0;
        assert(entries.deep_view() =~= named_entries(self@, 0));
        while i < FIELD_COUNT
            invariant
                0 <= i <= FIELD_COUNT,
                self.values.len() == FIELD_COUNT,
                entries.deep_view() == named_entries(self@, i as int),
                forall|k: int| 0 <= k < FIELD_COUNT ==> (#[trigger] field_at(k)).ord() == k,
            decreases FIELD_COUNT - i,
        {
            let field = Field::from_index(i);
            let ghost before = entries.deep_view();
            match &self.values[i] {
                Some(v) => {
                    entries.push((field.key().to_owned(), v.clone()));
                    assert(entries.deep_view() =~= before.push((field.key_text(), v@)));
                },
                None => {},
            }
            i += 1;
        }
        entries
    }

    /// The options that the source sets, one after the other; the same
    /// entries as `get_map` gives.
    pub fn iter(&self) -> (entries: Vec<(String, Value)>)
        ensures
            entries.deep_view() == named_entries(self@, FIELD_COUNT as int),
    {
        self.get_map()
    }
}

} // verus!
