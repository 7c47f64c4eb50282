//! Untyped key/value configuration supplied by the host, and the coercions
//! that read a number, a count, a flag or a string out of it.
use crate::float_bits::{bits_is_nan, bits_to_usize, is_nan, saturating_usize};
use vstd::prelude::*;

verus! {

/// One value of the host as the host binding read it.
pub struct HostValue {
    /// The bits of the value converted to a number; NaN when the value is
    /// `null`, `undefined` or not numeric.
    pub number: u64,
    /// The value if it is a boolean.
    pub boolean: Option<bool>,
    /// The value if it is a string.
    pub text: Option<String>,
}

/// A configuration bag: a host object, or some other host value that is not
/// an object (in which case no key can be read from it).
pub struct ConfigBag {
    pub is_object: bool,
    pub entries: Vec<(String, HostValue)>,
}

/// The value stored first under `key` in `entries`.
pub open spec fn find_in(entries: Seq<(String, HostValue)>, key: Seq<char>) -> Option<HostValue>
    decreases entries.len(),
{
    if entries.len() == 0 {
        None
    } else if entries[0].0@ == key {
        Some(entries[0].1)
    } else {
        find_in(entries.drop_first(), key)
    }
}

/// What a lookup of `key` in `bag` yields: nothing when the bag is not an
/// object or holds no entry for the key.
pub open spec fn lookup(bag: ConfigBag, key: Seq<char>) -> Option<HostValue> {
    if bag.is_object {
        find_in(bag.entries@, key)
    } else {
        None
    }
}

/// Floating-point coercion: the stored number, or `default` when it is
/// missing or NaN.
pub open spec fn number_or(v: Option<HostValue>, default: u64) -> u64 {
    match v {
        Some(h) => if is_nan(h.number) {
            default
        } else {
            h.number
        },
        None => default,
    }
}

/// Integer coercion: the stored number truncated into `usize`, or `default`
/// when it is missing or NaN.
pub open spec fn count_or(v: Option<HostValue>, default: usize) -> usize {
    match v {
        Some(h) => if is_nan(h.number) {
            default
        } else {
            saturating_usize(h.number) as usize
        },
        None => default,
    }
}

/// Boolean coercion: the stored boolean, or `default` when it is missing or
/// not a boolean.
pub open spec fn flag_or(v: Option<HostValue>, default: bool) -> bool {
    match v {
        Some(h) => match h.boolean {
            Some(b) => b,
            None => default,
        },
        None => default,
    }
}

/// String lookup: the stored string, or `default` when it is missing or not
/// a string.
pub open spec fn text_or(v: Option<HostValue>, default: Seq<char>) -> Seq<char> {
    match v {
        Some(h) => match h.text {
            Some(s) => s@,
            None => default,
        },
        None => default,
    }
}

impl ConfigBag {
    /// A bag that is not an object.
    pub fn not_object() -> (r: ConfigBag)
        ensures
            !r.is_object,
            r.entries@.len() == 0,
    {
        ConfigBag { is_object: false, entries: Vec::new() }
    }

    /// An object without entries.
    pub fn new() -> (r: ConfigBag)
        ensures
            r.is_object,
            r.entries@.len() == 0,
    {
        ConfigBag { is_object: true, entries: Vec::new() }
    }

    /// Adds an entry at the end; an earlier entry for the same key still wins.
    pub fn insert(&mut self, key: String, value: HostValue)
        ensures
            final(self).is_object == old(self).is_object,
            final(self).entries@ == old(self).entries@.push((key, value)),
    {
        self.entries.push((key, value));
    }

    /// The position of the entry that `lookup` reads for `key`.
    pub fn find(&self, key: &str) -> (r: Option<usize>)
        ensures
            match r {
                Some(i) => i < self.entries@.len() && lookup(*self, key@) == Some(
                    self.entries@[i as int].1,
                ),
                None => lookup(*self, key@) is None,
            },
    {
        if !self.is_object {
            return None;
        }
        let k: String = key.to_owned();
        let mut i: usize = 0;
        assert(self.entries@.subrange(0, self.entries@.len() as int) =~= self.entries@);
        while i < self.entries.len()
            invariant
                i <= self.entries@.len(),
                k@ == key@,
                self.is_object,
                find_in(self.entries@, key@) == find_in(
                    self.entries@.subrange(i as int, self.entries@.len() as int),
                    key@,
                ),
            decreases self.entries@.len() - i,
        {
            let ghost rest = self.entries@.subrange(i as int, self.entries@.len() as int);
            if self.entries[i].0 == k {
                assert(rest[0] == self.entries@[i as int]);
                return Some(i);
            }
            assert(rest.drop_first() =~= self.entries@.subrange(i + 1, self.entries@.len() as int));
            i = i + 1;
        }
        None
    }
}

/// Reads `key` as a number (IEEE-754 bits), giving `default` when the key is
/// missing or its value is NaN.
pub fn get_nonan(params: &ConfigBag, key: &str, default: u64) -> (r: u64)
    ensures
        r == number_or(lookup(*params, key@), default),
{
    match params.find(key) {
        Some(i) => {
            let n: u64 = params.entries[i].1.number;
            if bits_is_nan(n) {
                default
            } else {
                n
            }
        },
        None => default,
    }
}

/// Reads `key` as a non-negative integer, giving `default` when the key is
/// missing or its value is NaN; other values are truncated toward zero.
pub fn get_usize(params: &ConfigBag, key: &str, default: usize) -> (r: usize)
    ensures
        r == count_or(lookup(*params, key@), default),
{
    match params.find(key) {
        Some(i) => {
            let n: u64 = params.entries[i].1.number;
            if bits_is_nan(n) {
                default
            } else {
                bits_to_usize(n)
            }
        },
        None => default,
    }
}

/// Reads `key` as a boolean, giving `default` when the key is missing or its
/// value is not a boolean.
pub fn get_bool(params: &ConfigBag, key: &str, default: bool) -> (r: bool)
    ensures
        r == flag_or(lookup(*params, key@), default),
{
    match params.find(key) {
        Some(i) => match params.entries[i].1.boolean {
            Some(b) => b,
            None => default,
        },
        None => default,
    }
}

/// Reads `key` as a string, giving `default` when the key is missing or its
/// value is not a string.
pub fn get_text(params: &ConfigBag, key: &str, default: &str) -> (r: String)
    ensures
        r@ == text_or(lookup(*params, key@), default@),
{
    match params.find(key) {
        Some(i) => match &params.entries[i].1.text {
            Some(s) => s.clone(),
            None => default.to_owned(),
        },
        None => default.to_owned(),
    }
}

/// A key that the bag does not hold reads as the default, whatever the kind
/// of coercion.
pub proof fn lemma_missing_key_gives_default(
    bag: ConfigBag,
    key: Seq<char>,
    number: u64,
    count: usize,
    flag: bool,
    text: Seq<char>,
)
    requires
        lookup(bag, key) is None,
    ensures
        number_or(lookup(bag, key), number) == number,
        count_or(lookup(bag, key), count) == count,
        flag_or(lookup(bag, key), flag) == flag,
        text_or(lookup(bag, key), text) == text,
{
}

/// A stored NaN reads as the default, exactly as a missing key does, for
/// both numeric coercions.
pub proof fn lemma_nan_reads_as_missing(bag: ConfigBag, key: Seq<char>, number: u64, count: usize)
    requires
        lookup(bag, key) is Some,
        is_nan(lookup(bag, key)->0.number),
    ensures
        number_or(lookup(bag, key), number) == number,
        number_or(lookup(bag, key), number) == number_or(None, number),
        count_or(lookup(bag, key), count) == count,
        count_or(lookup(bag, key), count) == count_or(None, count),
{
}

} // verus!
