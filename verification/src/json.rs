use vstd::prelude::*;

use crate::utils::str_eq;

verus! {

/// A JSON value holding, as plain values, exactly what this library's
/// logic reads from a response body. Numbers are kept in hundredths of
/// a unit (`15.4` is stored as `1540`), the precision the weather
/// records need.
#[derive(Debug)]
pub enum Json {
    Null,
    Bool(bool),
    /// A number, in hundredths of a unit.
    Num(i64),
    Text(String),
    Arr(Vec<Json>),
    Obj(Vec<(String, Json)>),
}

/// The first entry with the given key, if any.
pub open spec fn spec_obj_get(entries: Seq<(String, Json)>, key: Seq<char>) -> Option<Json>
    decreases entries.len(),
{
    if entries.len() == 0 {
        None
    } else if entries[0].0@ == key {
        Some(entries[0].1)
    } else {
        spec_obj_get(entries.drop_first(), key)
    }
}

impl Json {
    /// Member lookup: the value under `key` when `self` is an object
    /// that has such a member, `None` otherwise.
    pub open spec fn spec_get(self, key: Seq<char>) -> Option<Json> {
        match self {
            Json::Obj(entries) => spec_obj_get(entries@, key),
            _ => None,
        }
    }

    /// Element lookup: the `i`-th element when `self` is an array of
    /// sufficient length, `None` otherwise.
    pub open spec fn spec_item(self, i: int) -> Option<Json> {
        match self {
            Json::Arr(items) => if 0 <= i < items@.len() {
                Some(items@[i])
            } else {
                None
            },
            _ => None,
        }
    }

    /// The character sequence when `self` is a string, `None` otherwise.
    pub open spec fn spec_text(self) -> Option<Seq<char>> {
        match self {
            Json::Text(s) => Some(s@),
            _ => None,
        }
    }

    /// The number in hundredths when `self` is a number, `None` otherwise.
    pub open spec fn spec_centi(self) -> Option<int> {
        match self {
            Json::Num(c) => Some(c as int),
            _ => None,
        }
    }

    /// The value as a non-negative whole number: defined only for
    /// numbers that are whole and not negative.
    pub open spec fn spec_whole(self) -> Option<int> {
        match self {
            Json::Num(c) => if c >= 0 && (c as int) % 100 == 0 {
                Some((c as int) / 100)
            } else {
                None
            },
            _ => None,
        }
    }
}

/// Member lookup chained through an optional value.
pub open spec fn opt_get(o: Option<Json>, key: Seq<char>) -> Option<Json> {
    match o {
        Some(j) => j.spec_get(key),
        None => None,
    }
}

/// Element lookup chained through an optional value.
pub open spec fn opt_item(o: Option<Json>, i: int) -> Option<Json> {
    match o {
        Some(j) => j.spec_item(i),
        None => None,
    }
}

/// String extraction chained through an optional value.
pub open spec fn opt_text(o: Option<Json>) -> Option<Seq<char>> {
    match o {
        Some(j) => j.spec_text(),
        None => None,
    }
}

/// Number extraction (hundredths) chained through an optional value.
pub open spec fn opt_centi(o: Option<Json>) -> Option<int> {
    match o {
        Some(j) => j.spec_centi(),
        None => None,
    }
}

/// Whole-number extraction chained through an optional value.
pub open spec fn opt_whole(o: Option<Json>) -> Option<int> {
    match o {
        Some(j) => j.spec_whole(),
        None => None,
    }
}

impl Json {
    /// Look up a member of a JSON object by key.
    pub fn get<'a>(&'a self, key: &str) -> (r: Option<&'a Json>)
        ensures
            (match r {
                Some(v) => self.spec_get(key@) == Some(*v),
                None => self.spec_get(key@) is None,
            }),
    {
        match self {
            Json::Obj(entries) => {
                let n = entries.len();
                let mut i: usize = 0;
                proof {
                    assert(entries@.skip(0) =~= entries@);
                }
                while i < n
                    invariant
                        0 <= i <= n,
                        n == entries@.len(),
                        self.spec_get(key@) == spec_obj_get(entries@.skip(i as int), key@),
                    decreases n - i,
                {
                    let entry: &(String, Json) = &entries[i];
                    if str_eq(entry.0.as_str(), key) {
                        proof {
                            assert(entries@.skip(i as int)[0] == entries@[i as int]);
                            assert(spec_obj_get(entries@.skip(i as int), key@)
                                == Some(entries@[i as int].1));
                        }
                        return Some(&entry.1);
                    }
                    proof {
                        assert(entries@.skip(i as int).drop_first() =~= entries@.skip(i as int + 1));
                    }
                    i += 1;
                }
                proof {
                    assert(entries@.skip(n as int) =~= Seq::<(String, Json)>::empty());
                }
                None
            },
            _ => None,
        }
    }

    /// Look up an element of a JSON array by index.
    pub fn item<'a>(&'a self, i: usize) -> (r: Option<&'a Json>)
        ensures
            (match r {
                Some(v) => self.spec_item(i as int) == Some(*v),
                None => self.spec_item(i as int) is None,
            }),
    {
        match self {
            Json::Arr(items) => if i < items.len() {
                Some(&items[i])
            } else {
                None
            },
            _ => None,
        }
    }

    /// The contained string, when this value is a string.
    pub fn as_text<'a>(&'a self) -> (r: Option<&'a String>)
        ensures
            (match r {
                Some(s) => self.spec_text() == Some(s@),
                None => self.spec_text() is None,
            }),
    {
        match self {
            Json::Text(s) => Some(s),
            _ => None,
        }
    }

    /// The contained number in hundredths, when this value is a number.
    pub fn as_centi(&self) -> (r: Option<i64>)
        ensures
            (match r {
                Some(c) => self.spec_centi() == Some(c as int),
                None => self.spec_centi() is None,
            }),
    {
        match self {
            Json::Num(c) => Some(*c),
            _ => None,
        }
    }

    /// The contained number as a non-negative whole number, when this
    /// value is a number that is whole and not negative.
    pub fn as_whole(&self) -> (r: Option<u64>)
        ensures
            (match r {
                Some(u) => self.spec_whole() == Some(u as int),
                None => self.spec_whole() is None,
            }),
    {
        match self {
            Json::Num(c) => {
                if *c >= 0 {
                    let u: u64 = *c as u64;
                    if u % 100 == 0 {
                        Some(u / 100)
                    } else {
                        None
                    }
                } else {
                    None
                }
            },
            _ => None,
        }
    }
}

} // verus!
