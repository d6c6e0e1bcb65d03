//! The configuration of one plugin instance, as the host reports it.

use crate::text::{contains_terminator, decode_text, has_terminator, same_text, text_of};
use vstd::prelude::*;
use vstd::utf8::*;

verus! {

/// One answer of the host: the raw bytes it reported for a property name.
pub struct Property {
    key: String,
    value: Vec<u8>,
}

/// An accessor for plugin configurations.
///
/// It holds what the host reported for the instance that is being
/// initialized: for each property name, the raw bytes of its value. A name
/// without an entry is a name for which the host reported nothing.
pub struct Config {
    properties: Vec<Property>,
}

/// The table that a list of answers stands for: a later answer for a name
/// replaces an earlier one.
pub closed spec fn table_of(properties: Seq<Property>) -> Map<Seq<char>, Seq<u8>>
    decreases properties.len(),
{
    if properties.len() == 0 {
        Map::empty()
    } else {
        table_of(properties.drop_last()).insert(
            properties.last().key@,
            properties.last().value@,
        )
    }
}

/// What a lookup of `key` yields in `table`: the value read as text, where
/// the key is a proper name, the table has a value for it and that value is
/// well-formed UTF-8; nothing otherwise.
pub open spec fn property_text(table: Map<Seq<char>, Seq<u8>>, key: Seq<char>) -> Option<
    Seq<char>,
> {
    if !has_terminator(key) && table.contains_key(key) {
        text_of(table[key])
    } else {
        None
    }
}

proof fn lemma_table_missing(properties: Seq<Property>, key: Seq<char>)
    requires
        forall|j: int| 0 <= j < properties.len() ==> properties[j].key@ != key,
    ensures
        !table_of(properties).contains_key(key),
    decreases properties.len(),
{
    if properties.len() > 0 {
        lemma_table_missing(properties.drop_last(), key);
    }
}

proof fn lemma_table_found(properties: Seq<Property>, at: int, key: Seq<char>)
    requires
        0 <= at < properties.len(),
        properties[at].key@ == key,
        forall|j: int| at < j < properties.len() ==> properties[j].key@ != key,
    ensures
        table_of(properties).contains_key(key),
        table_of(properties)[key] == properties[at].value@,
    decreases properties.len(),
{
    if at < properties.len() - 1 {
        lemma_table_found(properties.drop_last(), at, key);
    }
}

impl Config {
    /// The host's configuration: property names with the raw bytes of their
    /// values.
    pub closed spec fn view(&self) -> Map<Seq<char>, Seq<u8>> {
        table_of(self.properties@)
    }

    /// A configuration in which the host reports nothing, as it does for a
    /// plugin record that it cannot resolve.
    pub fn new() -> (config: Config)
        ensures
            config@ == Map::<Seq<char>, Seq<u8>>::empty(),
    {
        Config { properties: Vec::new() }
    }

    /// Records the raw value that the host reported for `key`, in place of
    /// any earlier one.
    pub fn set_property(&mut self, key: String, value: Vec<u8>)
        ensures
            final(self)@ == old(self)@.insert(key@, value@),
    {
        self.properties.push(Property { key, value });
        assert(self.properties@.drop_last() == old(self).properties@);
    }

    /// Returns the configuration property value.
    ///
    /// If the key is absent, this returns `None`; so it does where the value
    /// is not well-formed UTF-8, and for a key that no host string can hold.
    pub fn get_property<'a>(&'a self, key: &str) -> (text: Option<&'a str>)
        ensures
            match text {
                Some(s) => property_text(self@, key@) == Some(s@),
                None => property_text(self@, key@) is None,
            },
            !self@.contains_key(key@) ==> text is None,
            self@.contains_key(key@) && !valid_utf8(self@[key@]) ==> text is None,
    {
        if contains_terminator(key) {
            return None;
        }
        let mut i: usize = self.properties.len();
        while i > 0
            invariant
                !has_terminator(key@),
                i <= self.properties@.len(),
                forall|j: int| i <= j < self.properties@.len() ==> self.properties@[j].key@ != key@,
            decreases i,
        {
            i -= 1;
            if same_text(self.properties[i].key.as_str(), key) {
                proof {
                    lemma_table_found(self.properties@, i as int, key@);
                }
                return decode_text(self.properties[i].value.as_slice());
            }
        }
        proof {
            lemma_table_missing(self.properties@, key@);
        }
        None
    }
}

} // verus!
