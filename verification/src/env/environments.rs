//! Configuration records keyed by deployment tier.
use crate::env::hierarchy::Hierarchy;
use crate::error::sources::custom_decode_error;
use crate::error::{Error, ErrorKind, ErrorView, VarError};
use std::collections::BTreeMap;
use toml::de::Error as DecodeError;
use vstd::prelude::*;
use vstd::std_specs::cmp::OrdSpec;
use vstd::std_specs::iter::IteratorSpec;

verus! {

/// Hold environment specific data as a map from your environment hierarchy
/// key to the record that holds the configuration of that environment.
///
/// The view is that map. Each key has at most one record.
#[derive(Debug)]
pub struct Environments<S: Hierarchy, T> {
    /// The records, each under the rank of its key.
    envs: BTreeMap<u64, (S, T)>,
}

impl<S: Hierarchy, T> View for Environments<S, T> {
    type V = Map<S, T>;

    closed spec fn view(&self) -> Map<S, T> {
        Self::records(self.envs@)
    }
}

impl<S: Hierarchy + Clone, T: Clone> Clone for Environments<S, T> {
    fn clone(&self) -> (copy: Self)
        ensures
            copy@ == self@,
    {
        proof {
            use_type_invariant(self);
        }
        Environments { envs: self.envs.clone() }
    }
}

impl<S: Hierarchy, T> Environments<S, T> {
    #[verifier::type_invariant]
    spec fn ranked(self) -> bool {
        Self::filed(self.envs@)
    }

    /// Every record is filed under the rank of its key.
    spec fn filed(raw: Map<u64, (S, T)>) -> bool {
        forall|n: u64| #[trigger] raw.contains_key(n) ==> raw[n].0.rank() == n
    }

    /// The map from key to record that records filed by rank stand for.
    spec fn records(raw: Map<u64, (S, T)>) -> Map<S, T> {
        Map::new(
            |key: S| raw.contains_key(key.rank()) && raw[key.rank()].0 == key,
            |key: S| raw[key.rank()].1,
        )
    }

    /// The tables of a document as plain values: the name of each and its record.
    pub open spec fn named_tables(tables: Seq<(String, T)>) -> Seq<(Seq<char>, T)> {
        Seq::new(tables.len(), |i: int| (tables[i].0@, tables[i].1))
    }

    /// Every table is named by a key of the hierarchy.
    pub open spec fn all_named(tables: Seq<(Seq<char>, T)>) -> bool {
        forall|i: int| 0 <= i < tables.len() ==> S::named((#[trigger] tables[i]).0) is Some
    }

    /// The records that tables give: each table's record under the key that
    /// names the table, a later table replacing an earlier one of the same
    /// key. A table that no key names gives nothing.
    pub open spec fn collected(tables: Seq<(Seq<char>, T)>) -> Map<S, T>
        decreases tables.len(),
    {
        if tables.len() == 0 {
            Map::empty()
        } else {
            let rest = Self::collected(tables.drop_last());
            match S::named(tables.last().0) {
                Some(key) => rest.insert(key, tables.last().1),
                None => rest,
            }
        }
    }

    /// Whether `keys` lists the keys of `records` once each, from the first
    /// of the hierarchy to the last.
    pub open spec fn lists_in_order(records: Map<S, T>, keys: Seq<S>) -> bool {
        &&& forall|i: int, j: int|
            0 <= i < j < keys.len() ==> (#[trigger] keys[i]).rank() < (#[trigger] keys[j]).rank()
        &&& forall|i: int| 0 <= i < keys.len() ==> records.contains_key(#[trigger] keys[i])
        &&& forall|key: S| #[trigger] records.contains_key(key) ==> keys.contains(key)
    }

    /// The keys of `records` in hierarchy order.
    pub open spec fn order(records: Map<S, T>) -> Seq<S> {
        choose|keys: Seq<S>| Self::lists_in_order(records, keys)
    }

    /// The tables that records are written as: one for each key in `keys`,
    /// under the key's name.
    pub open spec fn tables_of(records: Map<S, T>, keys: Seq<S>) -> Seq<(Seq<char>, T)> {
        Seq::new(keys.len(), |i: int| (keys[i].name(), records[keys[i]]))
    }

    /// Tables handed out by reference, as plain values.
    pub open spec fn listed(tables: Seq<(String, &T)>) -> Seq<(Seq<char>, T)> {
        Seq::new(tables.len(), |i: int| (tables[i].0@, *tables[i].1))
    }

    /// What looking up the current environment gives, where `value` is what
    /// reading the variable named `var` gave: the failure to read it, or
    /// else the record of the key that the value spells; a value that
    /// spells no key, or a key without a record, is an invalid current
    /// environment.
    pub open spec fn selected(
        records: Map<S, T>,
        var: Seq<char>,
        value: Result<Seq<char>, VarError>,
    ) -> Result<T, ErrorView> {
        match value {
            Err(failure) => Err(ErrorView::var(failure)),
            Ok(text) => match S::named(text) {
                Some(key) => if records.contains_key(key) {
                    Ok(records[key])
                } else {
                    Err(ErrorView::invalid_current_environment(var))
                },
                None => Err(ErrorView::invalid_current_environment(var)),
            },
        }
    }

    /// Load the environments from the tables of a decoded document, each
    /// given by its name and its record.
    ///
    /// All tables are taken or none: one name that is no key of the
    /// hierarchy fails the load as a decoding error, whose source quotes the
    /// first such name.
    pub fn from_tables(tables: Vec<(String, T)>) -> (loaded: Result<Self, Error>)
        ensures
            match loaded {
                Ok(envs) => {
                    &&& Self::all_named(Self::named_tables(tables@))
                    &&& envs@ == Self::collected(Self::named_tables(tables@))
                },
                Err(error) => {
                    &&& !Self::all_named(Self::named_tables(tables@))
                    &&& exists|inner: DecodeError| error@ == ErrorView::toml_de(inner)
                },
            },
    {
        let ghost plain = Self::named_tables(tables@);
        let mut envs: BTreeMap<u64, (S, T)> = BTreeMap::new();
        for table in it: tables
            invariant
                plain == Self::named_tables(it.seq()),
                Self::filed(envs@),
                Self::all_named(plain.take(it.index())),
                Self::records(envs@) == Self::collected(plain.take(it.index())),
        {
            let ghost i = it.index();
            let (name, value) = table;
            assert(plain.take(i + 1).drop_last() =~= plain.take(i));
            match S::parse(name.as_str()) {
                Some(key) => {
                    let n = key.ordinal();
                    let _ = envs.insert(n, (key, value));
                    proof {
                        assert forall|other: S| other.rank() == n implies other == key by {
                            S::lemma_rank_injective(other, key);
                        }
                    }
                },
                None => {
                    let cause = Error::invalid_runtime_environment(name.as_str());
                    let inner = custom_decode_error(cause.description().as_str());
                    let error = Error::from(inner);
                    assert(error@ == ErrorView::toml_de(inner));
                    return Err(error);
                },
            }
        }
        proof {
            assert(plain.take(plain.len() as int) =~= plain);
        }
        Ok(Environments { envs })
    }

    /// The record of `key`, if it has one.
    pub fn get(&self, key: &S) -> (record: Option<&T>)
        ensures
            record == if self@.contains_key(*key) {
                Some(&self@[*key])
            } else {
                None
            },
    {
        proof {
            use_type_invariant(self);
        }
        let n = key.ordinal();
        match self.envs.get(&n) {
            Some(entry) => {
                proof {
                    S::lemma_rank_injective(entry.0, *key);
                }
                Some(&entry.1)
            },
            None => None,
        }
    }

    /// The tables this configuration is written as: one for each record,
    /// under the name of its key, from the first key of the hierarchy to the
    /// last.
    pub fn tables(&self) -> (tables: Vec<(String, &T)>)
        ensures
            Self::lists_in_order(self@, Self::order(self@)),
            Self::listed(tables@) == Self::tables_of(self@, Self::order(self@)),
    {
        proof {
            use_type_invariant(self);
        }
        let mut tables: Vec<(String, &T)> = Vec::new();
        let ghost mut keys: Seq<S> = Seq::empty();
        let iter = self.envs.iter();
        let ghost all = iter.remaining();
        for entry in it: iter
            invariant
                it.seq() == all,
                tables.len() == it.index(),
                keys.len() == it.index(),
                forall|j: int|
                    0 <= j < it.index() ==> {
                        &&& keys[j] == (#[trigger] all[j]).1.0
                        &&& tables[j].0@ == keys[j].name()
                        &&& *tables[j].1 == all[j].1.1
                    },
        {
            let (_, record) = entry;
            tables.push((record.0.render(), &record.1));
            proof {
                keys = keys.push(record.0);
            }
        }
        proof {
            let raw = self.envs@;
            let ranks = all.map_values(|kv: (&u64, &(S, T))| *kv.0);
            assert forall|i: int, j: int| 0 <= i < j < keys.len() implies (#[trigger] keys[i]).rank()
                < (#[trigger] keys[j]).rank() by {
                assert(raw.contains_key(*all[i].0) && raw[*all[i].0] == *all[i].1);
                assert(raw.contains_key(*all[j].0) && raw[*all[j].0] == *all[j].1);
                assert(ranks[i].cmp_spec(&ranks[j]) is Less);
            }
            assert forall|i: int| 0 <= i < keys.len() implies self@.contains_key(
                #[trigger] keys[i],
            ) && self@[keys[i]] == *tables[i].1 by {
                assert(raw.contains_key(*all[i].0) && raw[*all[i].0] == *all[i].1);
            }
            assert forall|key: S| #[trigger] self@.contains_key(key) implies keys.contains(key) by {
                let n = key.rank();
                assert(all.contains((&n, &raw[n])));
            }
            assert(Self::lists_in_order(self@, keys));
            Self::lemma_order_unique(self@, keys, Self::order(self@));
        }
        tables
    }

    /// The order of the keys is fixed by the records: two listings of the
    /// same records in hierarchy order are the same listing.
    pub proof fn lemma_order_unique(records: Map<S, T>, first: Seq<S>, second: Seq<S>)
        requires
            Self::lists_in_order(records, first),
            Self::lists_in_order(records, second),
        ensures
            first == second,
    {
        Self::lemma_order_prefix(records, first, second, first.len() as int);
        Self::lemma_order_prefix(records, second, first, second.len() as int);
    }

    /// Two listings of the same records agree on every index that the first has.
    proof fn lemma_order_prefix(records: Map<S, T>, first: Seq<S>, second: Seq<S>, upto: int)
        requires
            Self::lists_in_order(records, first),
            Self::lists_in_order(records, second),
            0 <= upto <= first.len(),
        ensures
            upto <= second.len(),
            forall|i: int| 0 <= i < upto ==> first[i] == second[i],
        decreases upto,
    {
        if upto > 0 {
            let i = upto - 1;
            Self::lemma_order_prefix(records, first, second, i);
            // Each listing holds the other's key at `i`, and holds it no
            // earlier than `i`: up to there the listings agree, on keys that
            // come before. So neither key at `i` comes before the other.
            assert(second.contains(first[i]));
            assert(first.contains(second[i]));
            S::lemma_rank_injective(first[i], second[i]);
        }
    }

    /// Writing records as tables, in hierarchy order, and loading those
    /// tables gives the same records back: every table is named by a key, so
    /// the load does not fail, and what is collected is what was written.
    pub proof fn lemma_tables_round_trip(records: Map<S, T>, keys: Seq<S>)
        requires
            Self::lists_in_order(records, keys),
        ensures
            Self::all_named(Self::tables_of(records, keys)),
            Self::collected(Self::tables_of(records, keys)) == records,
    {
        let tables = Self::tables_of(records, keys);
        assert forall|i: int| 0 <= i < tables.len() implies S::named((#[trigger] tables[i]).0)
            is Some by {
            S::lemma_named_name(keys[i]);
        }
        Self::lemma_collected_prefix(records, keys, keys.len() as int);
        assert(tables.take(keys.len() as int) =~= tables);
        assert(keys.take(keys.len() as int) =~= keys);
        assert forall|key: S| #[trigger]
            Self::collected(tables).contains_key(key) implies records.contains_key(key) by {
            assert(keys.contains(key));
        }
    }

    /// Writing what was loaded from written tables writes the same tables
    /// again: the second writing is the first, table for table.
    pub proof fn lemma_rewritten_tables_are_identical(records: Map<S, T>, keys: Seq<S>)
        requires
            Self::lists_in_order(records, keys),
        ensures
            Self::tables_of(
                Self::collected(Self::tables_of(records, keys)),
                Self::order(Self::collected(Self::tables_of(records, keys))),
            ) == Self::tables_of(records, keys),
    {
        Self::lemma_tables_round_trip(records, keys);
        Self::lemma_order_unique(records, keys, Self::order(records));
    }

    /// Loading the first `upto` tables that records are written as gives the
    /// records of the first `upto` keys.
    proof fn lemma_collected_prefix(records: Map<S, T>, keys: Seq<S>, upto: int)
        requires
            Self::lists_in_order(records, keys),
            0 <= upto <= keys.len(),
        ensures
            forall|key: S| #[trigger]
                Self::collected(Self::tables_of(records, keys).take(upto)).contains_key(key)
                    <==> keys.take(upto).contains(key),
            forall|key: S| #[trigger]
                Self::collected(Self::tables_of(records, keys).take(upto)).contains_key(key)
                    ==> Self::collected(Self::tables_of(records, keys).take(upto))[key]
                    == records[key],
        decreases upto,
    {
        let tables = Self::tables_of(records, keys);
        if upto > 0 {
            let last = upto - 1;
            Self::lemma_collected_prefix(records, keys, last);
            S::lemma_named_name(keys[last]);
            assert(tables.take(upto).drop_last() =~= tables.take(last));
            assert(Self::collected(tables.take(upto)) == Self::collected(tables.take(last)).insert(
                keys[last],
                records[keys[last]],
            ));
            assert forall|key: S| #[trigger]
                Self::collected(tables.take(upto)).contains_key(key) implies keys.take(
                upto,
            ).contains(key) by {
                if key == keys[last] {
                    assert(keys.take(upto)[last] == key);
                } else {
                    let i = keys.take(last).index_of(key);
                    assert(keys.take(upto)[i] == key);
                }
            }
            assert forall|key: S| keys.take(upto).contains(key) implies #[trigger]
                Self::collected(tables.take(upto)).contains_key(key) by {
                let i = keys.take(upto).index_of(key);
                if i < last {
                    assert(keys.take(last)[i] == key);
                }
            }
        }
    }

    /// A value that spells no key selects nothing: the lookup fails as an
    /// invalid current environment, of the `Environment` kind.
    pub proof fn lemma_unrecognized_value(records: Map<S, T>, var: Seq<char>, text: Seq<char>)
        requires
            S::named(text) is None,
        ensures
            Self::selected(records, var, Ok(text)) == Err::<T, ErrorView>(
                ErrorView::invalid_current_environment(var),
            ),
            ErrorView::invalid_current_environment(var).kind() == ErrorKind::Environment,
    {
    }

    /// A variable that could not be read selects nothing: the lookup fails
    /// with that failure as its source, of the `VariableUnset` kind.
    pub proof fn lemma_unset_variable(records: Map<S, T>, var: Seq<char>, failure: VarError)
        ensures
            Self::selected(records, var, Err(failure)) == Err::<T, ErrorView>(
                ErrorView::var(failure),
            ),
            ErrorView::var(failure).kind() == ErrorKind::VariableUnset,
    {
    }

    /// A value that spells a key without a record selects nothing: the
    /// lookup fails as an invalid current environment, of the `Environment`
    /// kind.
    pub proof fn lemma_missing_record(records: Map<S, T>, var: Seq<char>, text: Seq<char>)
        requires
            S::named(text) matches Some(key) && !records.contains_key(key),
        ensures
            Self::selected(records, var, Ok(text)) == Err::<T, ErrorView>(
                ErrorView::invalid_current_environment(var),
            ),
            ErrorView::invalid_current_environment(var).kind() == ErrorKind::Environment,
    {
    }

    /// A value that spells a key with a record selects that record.
    pub proof fn lemma_selects_record(records: Map<S, T>, var: Seq<char>, key: S)
        requires
            records.contains_key(key),
        ensures
            Self::selected(records, var, Ok(key.name())) == Ok::<T, ErrorView>(records[key]),
    {
        S::lemma_named_name(key);
    }

    /// Get the current environment, where `value` is what reading the
    /// variable `env` gave.
    pub fn current(&self, value: Result<String, VarError>) -> (found: Result<&T, Error>)
        ensures
            match Self::selected(
                self@,
                "env"@,
                match value {
                    Ok(text) => Ok(text@),
                    Err(failure) => Err(failure),
                },
            ) {
                Ok(record) => found == Ok::<&T, Error>(&record),
                Err(error) => found is Err && found->Err_0@ == error,
            },
    {
        self.current_from("env", value)
    }

    /// Get the current environment from the given variable, where `value` is
    /// what reading that variable gave.
    pub fn current_from(&self, var: &str, value: Result<String, VarError>) -> (found: Result<
        &T,
        Error,
    >)
        ensures
            match Self::selected(
                self@,
                var@,
                match value {
                    Ok(text) => Ok(text@),
                    Err(failure) => Err(failure),
                },
            ) {
                Ok(record) => found == Ok::<&T, Error>(&record),
                Err(error) => found is Err && found->Err_0@ == error,
            },
    {
        match value {
            Err(failure) => Err(Error::from(failure)),
            Ok(text) => match S::parse(text.as_str()) {
                Some(key) => match self.get(&key) {
                    Some(record) => Ok(record),
                    None => Err(Error::invalid_current_environment(var)),
                },
                None => Err(Error::invalid_current_environment(var)),
            },
        }
    }
}

} // verus!
