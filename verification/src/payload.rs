//! A ready-made metadata payload: an ordered string-to-string mapping.
//!
//! The payload type of a description is chosen by the caller; this one is the
//! convenient schema for callers that need no stronger one. Entries keep
//! insertion order, and a later entry shadows an earlier one with the same
//! key.

use vstd::prelude::*;

use crate::Neutral;

verus! {

/// An ordered string-to-string mapping, usable as a metadata payload.
///
/// The empty map holds no backing vector at all, so the neutral payload is
/// one single value of the type.
#[derive(Debug, PartialEq, Eq)]
pub struct MetaMap {
    entries: Option<Vec<(String, String)>>,
}

impl MetaMap {
    /// The mathematical value of the map: its key/value pairs, in insertion
    /// order.
    pub closed spec fn view(self) -> Seq<(Seq<char>, Seq<char>)> {
        match self.entries {
            None => Seq::empty(),
            Some(entries) => entries@.map(|i: int, pair: (String, String)| (pair.0@, pair.1@)),
        }
    }

    /// The value a list of pairs holds for a key: the value of the last pair
    /// with that key, if there is one.
    pub open spec fn lookup(pairs: Seq<(Seq<char>, Seq<char>)>, key: Seq<char>) -> Option<
        Seq<char>,
    >
        decreases pairs,
    {
        if pairs.len() == 0 {
            None
        } else if pairs.last().0 == key {
            Some(pairs.last().1)
        } else {
            Self::lookup(pairs.drop_last(), key)
        }
    }

    /// Builds the empty map.
    pub fn new() -> (r: Self)
        ensures
            r == Self::neutral_spec(),
            r.view() == Seq::<(Seq<char>, Seq<char>)>::empty(),
    {
        MetaMap { entries: None }
    }

    /// Appends one entry; it shadows any earlier entry with the same key.
    pub fn insert(self, key: String, value: String) -> (r: Self)
        ensures
            r.view() == self.view().push((key@, value@)),
    {
        let ghost previous = self.view();
        let ghost key_view = key@;
        let ghost value_view = value@;
        let mut entries: Vec<(String, String)> = match self.entries {
            None => Vec::new(),
            Some(entries) => entries,
        };
        entries.push((key, value));
        let r = MetaMap { entries: Some(entries) };
        proof {
            assert(r.view() =~= previous.push((key_view, value_view)));
        }
        r
    }

    /// Returns the value the map holds for a key, if there is one.
    pub fn get(&self, key: &String) -> (r: Option<&String>)
        ensures
            match r {
                Some(value) => Self::lookup(self.view(), key@) == Some(value@),
                None => Self::lookup(self.view(), key@) is None,
            },
    {
        match &self.entries {
            None => None,
            Some(entries) => {
                let mut i: usize = entries.len();
                while i > 0
                    invariant
                        i <= entries@.len(),
                        self.view() == entries@.map(
                            |j: int, pair: (String, String)| (pair.0@, pair.1@),
                        ),
                        forall|j: int| i <= j < entries@.len() ==> entries@[j].0@ != key@,
                    decreases i,
                {
                    i = i - 1;
                    if entries[i].0.eq(key) {
                        proof {
                            Self::lemma_lookup_found(self.view(), key@, i as int);
                        }
                        return Some(&entries[i].1);
                    }
                }
                proof {
                    Self::lemma_lookup_absent(self.view(), key@);
                }
                None
            },
        }
    }

    /// A list whose last pair with a matching key stands at `i` looks up to
    /// that pair's value.
    proof fn lemma_lookup_found(pairs: Seq<(Seq<char>, Seq<char>)>, key: Seq<char>, i: int)
        requires
            0 <= i < pairs.len(),
            pairs[i].0 == key,
            forall|j: int| i < j < pairs.len() ==> pairs[j].0 != key,
        ensures
            Self::lookup(pairs, key) == Some(pairs[i].1),
        decreases pairs,
    {
        if i + 1 < pairs.len() {
            Self::lemma_lookup_found(pairs.drop_last(), key, i);
        }
    }

    /// A list with no pair for a key looks the key up to nothing.
    proof fn lemma_lookup_absent(pairs: Seq<(Seq<char>, Seq<char>)>, key: Seq<char>)
        requires
            forall|j: int| 0 <= j < pairs.len() ==> pairs[j].0 != key,
        ensures
            Self::lookup(pairs, key) is None,
        decreases pairs,
    {
        if pairs.len() > 0 {
            Self::lemma_lookup_absent(pairs.drop_last(), key);
        }
    }
}

impl Neutral for MetaMap {
    closed spec fn neutral_spec() -> Self {
        MetaMap { entries: None }
    }

    fn neutral() -> (r: Self) {
        MetaMap { entries: None }
    }
}

} // verus!
