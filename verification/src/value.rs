//! Run-time values: numbers, strings, booleans, null, arrays and dictionaries.
//!
//! A number is held as the bit pattern of an IEEE 754 double. This library
//! tests such a pattern for zero and for its sign, and flips its sign; all
//! other arithmetic on numbers is asked of the host that drives the
//! interpreter. Dictionaries and variable tables are lists of named values in
//! which no name occurs twice, in the order in which the names were added.

use vstd::prelude::*;
use vstd::string::*;

verus! {

/// The bit that holds the sign of a number.
pub const SIGN_BIT: u64 = 0x8000_0000_0000_0000;

/// The bit pattern of positive infinity; the patterns above it up to the sign
/// bit are not numbers.
pub const POSITIVE_INFINITY: u64 = 0x7FF0_0000_0000_0000;

/// The bit pattern of negative infinity.
pub const NEGATIVE_INFINITY: u64 = 0xFFF0_0000_0000_0000;

/// A number, as the bit pattern of an IEEE 754 double.
#[derive(Debug, Clone, Copy, PartialEq, Eq, Structural)]
pub struct Number {
    pub bits: u64,
}

/// Whether `bits` is one of the two zeros.
pub open spec fn is_zero(bits: u64) -> bool {
    bits == 0 || bits == SIGN_BIT
}

/// Whether `bits` is a number below zero: negative, not zero, and a number.
pub open spec fn is_below_zero(bits: u64) -> bool {
    SIGN_BIT < bits <= NEGATIVE_INFINITY
}

/// Whether `bits` is a number that is zero or above.
pub open spec fn is_at_least_zero(bits: u64) -> bool {
    bits <= POSITIVE_INFINITY || bits == SIGN_BIT
}

/// `bits` with the sign flipped.
pub open spec fn negated(bits: u64) -> u64 {
    if bits >= SIGN_BIT {
        (bits - SIGN_BIT) as u64
    } else {
        (bits + SIGN_BIT) as u64
    }
}

impl Number {
    /// The number with the given bit pattern.
    pub fn from_bits(bits: u64) -> (n: Number)
        ensures
            n.bits == bits,
    {
        Number { bits }
    }

    /// The bit pattern of the number.
    pub fn to_bits(&self) -> (bits: u64)
        ensures
            bits == self.bits,
    {
        self.bits
    }

    /// Whether the number is zero, of either sign.
    pub fn is_zero(&self) -> (b: bool)
        ensures
            b == is_zero(self.bits),
    {
        self.bits == 0 || self.bits == SIGN_BIT
    }

    /// Whether the number is below zero.
    pub fn is_below_zero(&self) -> (b: bool)
        ensures
            b == is_below_zero(self.bits),
    {
        SIGN_BIT < self.bits && self.bits <= NEGATIVE_INFINITY
    }

    /// Whether the number is zero or above.
    pub fn is_at_least_zero(&self) -> (b: bool)
        ensures
            b == is_at_least_zero(self.bits),
    {
        self.bits <= POSITIVE_INFINITY || self.bits == SIGN_BIT
    }

    /// The number with its sign flipped.
    pub fn negated(&self) -> (n: Number)
        ensures
            n.bits == negated(self.bits),
    {
        if self.bits >= SIGN_BIT {
            Number { bits: self.bits - SIGN_BIT }
        } else {
            Number { bits: self.bits + SIGN_BIT }
        }
    }
}

/// A run-time value.
#[derive(Debug)]
pub enum Value {
    Number(Number),
    String(String),
    Boolean(bool),
    Null,
    Array(Vec<Value>),
    Dictionary(Vec<(String, Value)>),
}

/// The mathematical content of a [`Value`].
pub enum ValueModel {
    Number(u64),
    String(Seq<char>),
    Boolean(bool),
    Null,
    Array(Seq<ValueModel>),
    Dictionary(Seq<(Seq<char>, ValueModel)>),
}

/// Named values, in the order in which the names were added.
pub type Bindings = Seq<(Seq<char>, ValueModel)>;

/// The models of the values of `v`, in order.
pub open spec fn value_models(v: Vec<Value>) -> Seq<ValueModel>
    decreases v,
{
    Seq::new(
        v.len() as nat,
        |i: int|
            if 0 <= i < v.len() {
                v[i].model()
            } else {
                arbitrary()
            },
    )
}

/// The models of the named values of `v`, in order.
pub open spec fn entry_models(v: Vec<(String, Value)>) -> Bindings
    decreases v,
{
    Seq::new(
        v.len() as nat,
        |i: int|
            if 0 <= i < v.len() {
                (v[i].0@, v[i].1.model())
            } else {
                arbitrary()
            },
    )
}

impl Value {
    pub open spec fn model(&self) -> ValueModel
        decreases self,
    {
        match self {
            Value::Number(n) => ValueModel::Number(n.bits),
            Value::String(s) => ValueModel::String(s@),
            Value::Boolean(b) => ValueModel::Boolean(*b),
            Value::Null => ValueModel::Null,
            Value::Array(items) => ValueModel::Array(value_models(*items)),
            Value::Dictionary(entries) => ValueModel::Dictionary(entry_models(*entries)),
        }
    }
}

impl View for Value {
    type V = ValueModel;

    open spec fn view(&self) -> ValueModel {
        self.model()
    }
}

/// The position of the first entry named `key` at or after `from`.
pub open spec fn position_from(entries: Bindings, key: Seq<char>, from: int) -> Option<int>
    decreases entries.len() - from,
{
    if from < 0 || from >= entries.len() {
        None
    } else if entries[from].0 == key {
        Some(from)
    } else {
        position_from(entries, key, from + 1)
    }
}

/// The position of the entry named `key`.
pub open spec fn position_of(entries: Bindings, key: Seq<char>) -> Option<int> {
    position_from(entries, key, 0)
}

/// The value bound to `key`, if any.
pub open spec fn lookup(entries: Bindings, key: Seq<char>) -> Option<ValueModel> {
    match position_of(entries, key) {
        Some(i) => Some(entries[i].1),
        None => None,
    }
}

/// `entries` with `key` bound to `value`: in place of its old value, or as a
/// new last entry.
pub open spec fn bind(entries: Bindings, key: Seq<char>, value: ValueModel) -> Bindings {
    match position_of(entries, key) {
        Some(i) => entries.update(i, (key, value)),
        None => entries.push((key, value)),
    }
}

/// Whether a value counts as true: a number that is not zero, a string, array
/// or dictionary that is not empty, the boolean `true`.
pub open spec fn truthy(v: ValueModel) -> bool {
    match v {
        ValueModel::Number(bits) => !is_zero(bits),
        ValueModel::String(s) => s.len() > 0,
        ValueModel::Boolean(b) => b,
        ValueModel::Null => false,
        ValueModel::Array(items) => items.len() > 0,
        ValueModel::Dictionary(entries) => entries.len() > 0,
    }
}

/// The name of the kind of a value, as used in messages.
pub open spec fn kind_name(v: ValueModel) -> Seq<char> {
    match v {
        ValueModel::Number(_) => "number"@,
        ValueModel::String(_) => "string"@,
        ValueModel::Boolean(_) => "boolean"@,
        ValueModel::Null => "null"@,
        ValueModel::Array(_) => "array"@,
        ValueModel::Dictionary(_) => "dictionary"@,
    }
}

/// A position found among the entries lies inside them and holds the key, and
/// no earlier entry does.
pub proof fn lemma_position_from(entries: Bindings, key: Seq<char>, from: int)
    requires
        0 <= from,
    ensures
        match position_from(entries, key, from) {
            Some(i) => from <= i < entries.len() && entries[i].0 == key && forall|j: int|
                from <= j < i ==> entries[j].0 != key,
            None => forall|j: int| from <= j < entries.len() ==> entries[j].0 != key,
        },
    decreases entries.len() - from,
{
    if from < entries.len() && entries[from].0 != key {
        lemma_position_from(entries, key, from + 1);
    }
}

/// A table behaves as a map: a name that was just bound is found with its new
/// value, and every other name is found as before.
pub proof fn lemma_bind_lookup(entries: Bindings, key: Seq<char>, value: ValueModel, other: Seq<char>)
    ensures
        lookup(bind(entries, key, value), key) == Some(value),
        other != key ==> lookup(bind(entries, key, value), other) == lookup(entries, other),
{
    let bound = bind(entries, key, value);
    lemma_position_from(entries, key, 0);
    lemma_position_from(bound, key, 0);
    lemma_position_from(entries, other, 0);
    lemma_position_from(bound, other, 0);
    match position_of(entries, key) {
        Some(i) => {
            assert(bound[i].0 == key);
            assert(forall|j: int| 0 <= j < entries.len() && j != i ==> bound[j] == entries[j]);
        },
        None => {
            assert(bound[entries.len() as int].0 == key);
            assert(forall|j: int| 0 <= j < entries.len() ==> bound[j] == entries[j]);
        },
    }
    if other != key {
        match position_of(entries, other) {
            Some(i) => {
                assert(bound[i] == entries[i]);
            },
            None => {},
        }
    }
}

/// A copy of `items`.
pub fn duplicate_values(items: &Vec<Value>) -> (copy: Vec<Value>)
    ensures
        value_models(copy) == value_models(*items),
    decreases *items,
{
    let mut copy: Vec<Value> = Vec::new();
    let mut i: usize = 0;
    while i < items.len()
        invariant
            i <= items.len(),
            copy.len() == i,
            forall|j: int| 0 <= j < i ==> copy[j].model() == items[j].model(),
        decreases items.len() - i,
    {
        let item = items[i].duplicate();
        copy.push(item);
        i += 1;
    }
    assert(value_models(copy) =~= value_models(*items));
    copy
}

/// A copy of `entries`.
pub fn duplicate_entries(entries: &Vec<(String, Value)>) -> (copy: Vec<(String, Value)>)
    ensures
        entry_models(copy) == entry_models(*entries),
    decreases *entries,
{
    let mut copy: Vec<(String, Value)> = Vec::new();
    let mut i: usize = 0;
    while i < entries.len()
        invariant
            i <= entries.len(),
            copy.len() == i,
            forall|j: int|
                0 <= j < i ==> copy[j].0@ == entries[j].0@ && copy[j].1.model()
                    == entries[j].1.model(),
        decreases entries.len() - i,
    {
        let name = entries[i].0.clone();
        let value = entries[i].1.duplicate();
        copy.push((name, value));
        i += 1;
    }
    assert(entry_models(copy) =~= entry_models(*entries));
    copy
}

impl Value {
    /// A deep copy of the value.
    pub fn duplicate(&self) -> (copy: Value)
        ensures
            copy@ == self@,
        decreases *self,
    {
        match self {
            Value::Number(n) => Value::Number(*n),
            Value::String(s) => Value::String(s.clone()),
            Value::Boolean(b) => Value::Boolean(*b),
            Value::Null => Value::Null,
            Value::Array(items) => Value::Array(duplicate_values(items)),
            Value::Dictionary(entries) => Value::Dictionary(duplicate_entries(entries)),
        }
    }

    /// Whether the value counts as true.
    pub fn is_truthy(&self) -> (b: bool)
        ensures
            b == truthy(self@),
    {
        match self {
            Value::Number(n) => !n.is_zero(),
            Value::String(s) => s.as_str().unicode_len() > 0,
            Value::Boolean(b) => *b,
            Value::Null => false,
            Value::Array(items) => items.len() > 0,
            Value::Dictionary(entries) => entries.len() > 0,
        }
    }

    /// The name of the kind of the value, as used in messages.
    pub fn kind_name(&self) -> (name: &'static str)
        ensures
            name@ == kind_name(self@),
    {
        match self {
            Value::Number(_) => "number",
            Value::String(_) => "string",
            Value::Boolean(_) => "boolean",
            Value::Null => "null",
            Value::Array(_) => "array",
            Value::Dictionary(_) => "dictionary",
        }
    }
}

/// The position of the entry named `key`.
pub fn find_entry(entries: &Vec<(String, Value)>, key: &str) -> (found: Option<usize>)
    ensures
        match position_of(entry_models(*entries), key@) {
            Some(i) => found == Some(i as usize) && 0 <= i < entries.len(),
            None => found is None,
        },
        found matches Some(i) ==> i < entries.len(),
{
    let mut i: usize = 0;
    while i < entries.len()
        invariant
            i <= entries.len(),
            position_of(entry_models(*entries), key@) == position_from(
                entry_models(*entries),
                key@,
                i as int,
            ),
        decreases entries.len() - i,
    {
        if crate::text::same_text(entries[i].0.as_str(), key) {
            return Some(i);
        }
        i += 1;
    }
    None
}

/// A copy of the value bound to `key`, if any.
pub fn lookup_entry(entries: &Vec<(String, Value)>, key: &str) -> (found: Option<Value>)
    ensures
        match lookup(entry_models(*entries), key@) {
            Some(value) => found matches Some(v) && v@ == value,
            None => found is None,
        },
{
    match find_entry(entries, key) {
        Some(i) => Some(entries[i].1.duplicate()),
        None => None,
    }
}

/// Binds `key` to `value`: in place of its old value, or as a new last entry.
pub fn bind_entry(entries: &mut Vec<(String, Value)>, key: String, value: Value)
    ensures
        entry_models(*final(entries)) == bind(entry_models(*old(entries)), key@, value@),
{
    let ghost before = entry_models(*entries);
    match find_entry(entries, key.as_str()) {
        Some(i) => {
            entries[i] = (key, value);
            assert(entry_models(*entries) =~= before.update(i as int, (key@, value@)));
        },
        None => {
            entries.push((key, value));
            assert(entry_models(*entries) =~= before.push((key@, value@)));
        },
    }
}

} // verus!
