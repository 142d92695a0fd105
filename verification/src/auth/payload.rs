//! The flat JSON object a token carries, held as plain values.

use crate::utils::text::same_text;
use vstd::prelude::*;

verus! {

/// The value of one member of a payload, as far as the claim logic reads it.
#[derive(Debug)]
pub enum FieldValue {
    /// A JSON string.
    Text(String),
    /// A JSON number that is a non-negative integer below 2^64.
    Number(u64),
    /// Any other JSON value.
    Other,
}

/// Mathematical counterpart of [`FieldValue`].
pub enum FieldData {
    Text(Seq<char>),
    Number(u64),
    Other,
}

impl View for FieldValue {
    type V = FieldData;

    open spec fn view(&self) -> FieldData {
        match self {
            FieldValue::Text(text) => FieldData::Text(text@),
            FieldValue::Number(number) => FieldData::Number(*number),
            FieldValue::Other => FieldData::Other,
        }
    }
}

/// One named member of a payload.
#[derive(Debug)]
pub struct Field {
    pub name: String,
    pub value: FieldValue,
}

impl Field {
    /// The member called `name` whose value reads as the string `text` or as
    /// the unsigned integer `number`, whichever is given, the string first;
    /// with neither, the value is of another kind.
    pub fn read(name: String, text: Option<String>, number: Option<u64>) -> (field: Field)
        ensures
            field.name == name,
            field.value@ == (match (text, number) {
                (Some(given), _) => FieldData::Text(given@),
                (None, Some(given)) => FieldData::Number(given),
                (None, None) => FieldData::Other,
            }),
    {
        let value = match (text, number) {
            (Some(given), _) => FieldValue::Text(given),
            (None, Some(given)) => FieldValue::Number(given),
            (None, None) => FieldValue::Other,
        };
        Field { name, value }
    }
}

/// Whether some entry is called `name`.
pub open spec fn has_entry(entries: Seq<(Seq<char>, FieldData)>, name: Seq<char>) -> bool {
    exists|i: int| 0 <= i < entries.len() && (#[trigger] entries[i]).0 == name
}

/// The place of an entry called `name`.
pub open spec fn entry_place(entries: Seq<(Seq<char>, FieldData)>, name: Seq<char>) -> int {
    choose|i: int| 0 <= i < entries.len() && (#[trigger] entries[i]).0 == name
}

/// Whether no two entries have the same name.
pub open spec fn distinct_entries(entries: Seq<(Seq<char>, FieldData)>) -> bool {
    forall|i: int, j: int|
        0 <= i < j < entries.len() ==> (#[trigger] entries[i]).0 != (#[trigger] entries[j]).0
}

/// The map from each name among the entries to the value under it.
pub open spec fn entries_map(entries: Seq<(Seq<char>, FieldData)>) -> Map<Seq<char>, FieldData> {
    Map::new(
        |name: Seq<char>| has_entry(entries, name),
        |name: Seq<char>| entries[entry_place(entries, name)].1,
    )
}

/// A JSON object: members in order, with pairwise distinct names. Its view is
/// the map from each name to the value stored under it.
#[derive(Debug)]
pub struct Payload {
    pub(crate) fields: Vec<Field>,
}

impl View for Payload {
    type V = Map<Seq<char>, FieldData>;

    open spec fn view(&self) -> Map<Seq<char>, FieldData> {
        entries_map(self.entries())
    }
}

impl Payload {
    /// The name and the value of each member, in the order in which the
    /// object is written out.
    pub closed spec fn entries(&self) -> Seq<(Seq<char>, FieldData)> {
        self.fields@.map_values(|field: Field| (field.name@, field.value@))
    }

    #[verifier::type_invariant]
    spec fn distinct_names(self) -> bool {
        distinct_entries(self.entries())
    }

    /// The object without members.
    pub fn new() -> (payload: Payload)
        ensures
            payload.entries() == Seq::<(Seq<char>, FieldData)>::empty(),
            payload@ == Map::<Seq<char>, FieldData>::empty(),
    {
        let payload = Payload { fields: Vec::new() };
        assert(payload.entries() =~= Seq::<(Seq<char>, FieldData)>::empty());
        assert(payload@ =~= Map::<Seq<char>, FieldData>::empty());
        payload
    }

    /// Where the member called `name` stands, if there is one.
    fn find(&self, name: &str) -> (found: Option<usize>)
        ensures
            match found {
                Some(i) => i < self.entries().len() && self.entries()[i as int].0 == name@,
                None => !has_entry(self.entries(), name@),
            },
    {
        let mut i: usize = 0;
        while i < self.fields.len()
            invariant
                i <= self.fields.len(),
                self.entries().len() == self.fields.len(),
                forall|k: int| 0 <= k < i ==> (#[trigger] self.entries()[k]).0 != name@,
            decreases self.fields.len() - i,
        {
            if same_text(self.fields[i].name.as_str(), name) {
                return Some(i);
            }
            i += 1;
        }
        None
    }

    /// The object with `value` stored under `name`: in the place of the
    /// member of that name if there is one, else as a new last member.
    pub fn with(self, name: &str, value: FieldValue) -> (payload: Payload)
        ensures
            payload@ == self@.insert(name@, value@),
            payload.entries() == (if self@.contains_key(name@) {
                self.entries().update(entry_place(self.entries(), name@), (name@, value@))
            } else {
                self.entries().push((name@, value@))
            }),
    {
        proof {
            use_type_invariant(&self);
        }
        let ghost before = self.entries();
        let ghost entry = (name@, value@);
        let found = self.find(name);
        let mut fields = self.fields;
        let ghost after = match found {
            Some(i) => before.update(i as int, entry),
            None => before.push(entry),
        };
        match found {
            Some(i) => {
                fields.set(i, Field { name: name.to_owned(), value });
                assert(entry_place(before, name@) == i);
            },
            None => {
                fields.push(Field { name: name.to_owned(), value });
            },
        }
        assert(fields@.map_values(|field: Field| (field.name@, field.value@)) =~= after);
        proof {
            assert forall|n: Seq<char>| has_entry(after, n) == (has_entry(before, n) || n
                == name@) by {
                if has_entry(before, n) {
                    let k = entry_place(before, n);
                    assert(after[k].0 == n);
                }
                if has_entry(after, n) && n != name@ {
                    let k = entry_place(after, n);
                    assert(before[k].0 == n);
                }
                if n == name@ {
                    match found {
                        Some(i) => {
                            assert(after[i as int].0 == n);
                        },
                        None => {
                            assert(after[before.len() as int].0 == n);
                        },
                    }
                }
            }
            assert forall|n: Seq<char>| has_entry(after, n) implies after[entry_place(after, n)].1
                == (if n == name@ {
                entry.1
            } else {
                before[entry_place(before, n)].1
            }) by {
                let a = entry_place(after, n);
                if n != name@ {
                    let b = entry_place(before, n);
                    assert(before[a].0 == n);
                    assert(a == b);
                }
            }
            assert(entries_map(after) =~= entries_map(before).insert(name@, entry.1));
        }
        Payload { fields }
    }

    /// The value stored under `name`, if there is one.
    pub fn get(&self, name: &str) -> (value: Option<&FieldValue>)
        ensures
            match value {
                Some(found) => self@.contains_key(name@) && self@[name@] == found@,
                None => !self@.contains_key(name@),
            },
    {
        proof {
            use_type_invariant(self);
        }
        match self.find(name) {
            Some(i) => {
                proof {
                    let k = entry_place(self.entries(), name@);
                    assert(self.entries()[i as int].0 == name@);
                    assert(k == i);
                }
                Some(&self.fields[i].value)
            },
            None => None,
        }
    }

    /// The string stored under `name`; `None` where there is no such member
    /// or it is no string.
    pub fn text(&self, name: &str) -> (text: Option<String>)
        ensures
            match text {
                Some(found) => self@.contains_key(name@) && self@[name@] == FieldData::Text(
                    found@,
                ),
                None => !(self@.contains_key(name@) && self@[name@] is Text),
            },
    {
        match self.get(name) {
            Some(FieldValue::Text(found)) => Some(found.clone()),
            _ => None,
        }
    }

    /// The unsigned integer stored under `name`; `None` where there is no such
    /// member or it is no such number.
    pub fn number(&self, name: &str) -> (number: Option<u64>)
        ensures
            match number {
                Some(found) => self@.contains_key(name@) && self@[name@] == FieldData::Number(
                    found,
                ),
                None => !(self@.contains_key(name@) && self@[name@] is Number),
            },
    {
        match self.get(name) {
            Some(FieldValue::Number(found)) => Some(*found),
            _ => None,
        }
    }
}

} // verus!
