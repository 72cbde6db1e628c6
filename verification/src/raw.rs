//! Raw wire updates: a string-keyed list of optional field values as handed
//! over by the push-protocol client, and the verified lookup and per-field
//! decoding that the typed records are built from.
//!
//! A numeric field that is missing or holds the empty string decodes to no
//! value; a malformed numeric token is a decode error. String fields pass
//! through unchanged, the empty string included.

use vstd::prelude::*;

use crate::num::{check_numeric, is_numeric};

verus! {

/// A field list entry: a field name and its current value (`None` is null).
pub type FieldEntry = (String, Option<String>);

/// The mathematical view of a field list: a sequence of key/value pairs of
/// character sequences.
pub type FieldMap = Seq<(Seq<char>, Option<Seq<char>>)>;

/// An undecoded update of one subscribed item, as delivered by the
/// push-protocol client: the item's name and position, the current value of
/// every field, the subset of fields this update changed, and whether the
/// update is part of the initial snapshot.
pub struct RawUpdate {
    /// Name of the item the update belongs to, when the subscription used
    /// named items.
    pub item_name: Option<String>,
    /// One-based position of the item in the subscription's item list.
    pub item_pos: usize,
    /// Current values of all fields.
    pub fields: Vec<FieldEntry>,
    /// The fields this update carried a new value for; their values are never
    /// null.
    pub changed_fields: Vec<(String, String)>,
    /// Whether this update is part of the initial snapshot.
    pub is_snapshot: bool,
}

/// The item name a record carries for an update: the update's own name, or
/// the empty string where the subscription used positions only.
pub open spec fn item_name_view(o: Option<String>) -> Seq<char> {
    match o {
        Some(s) => s@,
        None => Seq::<char>::empty(),
    }
}

/// The view of an optional string.
pub open spec fn opt_view(o: Option<String>) -> Option<Seq<char>> {
    match o {
        Some(s) => Some(s@),
        None => None,
    }
}

/// The view of a field list.
pub open spec fn entries_view(m: Seq<FieldEntry>) -> FieldMap {
    m.map_values(|e: FieldEntry| (e.0@, opt_view(e.1)))
}

/// The view of a changed-fields list, whose values are never null.
pub open spec fn changed_view(c: Seq<(String, String)>) -> FieldMap {
    c.map_values(|e: (String, String)| (e.0@, Some(e.1@)))
}

/// Looks a key up in a field map: the value of the first entry whose key is
/// `k`, with a null value flattened to `None`.
pub open spec fn raw_lookup(m: FieldMap, k: Seq<char>) -> Option<Seq<char>>
    decreases m.len(),
{
    if m.len() == 0 {
        None
    } else if m[0].0 == k {
        m[0].1
    } else {
        raw_lookup(m.subrange(1, m.len() as int), k)
    }
}

/// A decoding failure: the offending field and the value it held.
#[derive(Clone, Debug)]
pub enum DecodeError {
    /// A numeric field held a non-numeric, non-empty token.
    InvalidNumber { field: String, value: String },
    /// An enum field held a token outside its documented set.
    UnknownEnumValue { field: String, value: String },
}

impl DecodeError {
    /// A short description of the failure, naming the offending field.
    pub fn message(&self) -> (r: String)
        ensures
            match self {
                DecodeError::InvalidNumber { field, value } => r@ == "invalid numeric value in field "@
                    + field@,
                DecodeError::UnknownEnumValue { field, value } => r@
                    == "unknown enum value in field "@ + field@,
            },
    {
        match self {
            DecodeError::InvalidNumber { field, value: _ } => {
                let mut m = String::new();
                m.append("invalid numeric value in field ");
                m.append(field.as_str());
                assert(m@ =~= "invalid numeric value in field "@ + field@);
                m
            },
            DecodeError::UnknownEnumValue { field, value: _ } => {
                let mut m = String::new();
                m.append("unknown enum value in field ");
                m.append(field.as_str());
                assert(m@ =~= "unknown enum value in field "@ + field@);
                m
            },
        }
    }
}

fn clone_opt_string(o: &Option<String>) -> (r: Option<String>)
    ensures
        opt_view(r) == opt_view(*o),
{
    match o {
        Some(s) => Some(s.clone()),
        None => None,
    }
}

/// Finds the first entry with key `key` and returns its value, a null value
/// flattened to `None`.
pub fn lookup_field(entries: &Vec<FieldEntry>, key: &str) -> (r: Option<String>)
    ensures
        opt_view(r) == raw_lookup(entries_view(entries@), key@),
{
    let ghost vm = entries_view(entries@);
    let len = entries.len();
    let mut i: usize = 0;
    assert(vm.subrange(0, len as int) =~= vm);
    while i < len
        invariant
            len == entries@.len(),
            vm == entries_view(entries@),
            vm.len() == len,
            i <= len,
            raw_lookup(vm, key@) == raw_lookup(vm.subrange(i as int, len as int), key@),
        decreases len - i,
    {
        let ghost pre = vm.subrange(i as int, len as int);
        assert(pre[0] == vm[i as int]);
        assert(vm[i as int] == (entries@[i as int].0@, opt_view(entries@[i as int].1)));
        if crate::text::str_eq(entries[i].0.as_str(), key) {
            return clone_opt_string(&entries[i].1);
        }
        assert(pre.subrange(1, pre.len() as int) =~= vm.subrange(i + 1, len as int));
        i = i + 1;
    }
    assert(vm.subrange(len as int, len as int) =~= Seq::<(Seq<char>, Option<Seq<char>>)>::empty());
    None
}

/// Whether the numeric field `k` of the map `m` is decodable: absent, empty,
/// or a well-formed numeric token.
pub open spec fn field_num_ok(m: FieldMap, k: Seq<char>) -> bool {
    match raw_lookup(m, k) {
        None => true,
        Some(t) => t.len() == 0 || is_numeric(t),
    }
}

/// The decoded value of the numeric field `k`: absent and empty both decode
/// to no value; a well-formed token decodes to itself.
pub open spec fn field_num_value(m: FieldMap, k: Seq<char>) -> Option<Seq<char>> {
    match raw_lookup(m, k) {
        None => None,
        Some(t) => if t.len() == 0 {
            None
        } else {
            Some(t)
        },
    }
}

/// Decodes the numeric field `key`: no value when absent or empty, the
/// verbatim token when well-formed, and a decode error otherwise.
pub fn decode_num_field(entries: &Vec<FieldEntry>, key: &str) -> (r: Result<
    Option<String>,
    DecodeError,
>)
    ensures
        match r {
            Ok(v) => field_num_ok(entries_view(entries@), key@) && opt_view(v) == field_num_value(
                entries_view(entries@),
                key@,
            ),
            Err(e) => !field_num_ok(entries_view(entries@), key@) && match e {
                DecodeError::InvalidNumber { field, value } => field@ == key@ && raw_lookup(
                    entries_view(entries@),
                    key@,
                ) == Some(value@),
                _ => false,
            },
        },
{
    match lookup_field(entries, key) {
        None => Ok(None),
        Some(v) => {
            if v.as_str().is_empty() {
                Ok(None)
            } else if check_numeric(v.as_str()) {
                Ok(Some(v))
            } else {
                Err(DecodeError::InvalidNumber { field: key.to_owned(), value: v })
            }
        },
    }
}

/// Reads the string field `key` verbatim: the empty string is kept, only an
/// absent or null field gives no value.
pub fn get_str_field(entries: &Vec<FieldEntry>, key: &str) -> (r: Option<String>)
    ensures
        opt_view(r) == raw_lookup(entries_view(entries@), key@),
{
    lookup_field(entries, key)
}

/// Turns the changed-fields list, whose values are never null, into a field
/// list with the same view.
pub fn changed_as_entries(changed: &Vec<(String, String)>) -> (r: Vec<FieldEntry>)
    ensures
        entries_view(r@) == changed_view(changed@),
{
    let mut out: Vec<FieldEntry> = Vec::new();
    let len = changed.len();
    let mut i: usize = 0;
    while i < len
        invariant
            len == changed@.len(),
            i <= len,
            out@.len() == i,
            forall|k: int|
                0 <= k < i ==> out@[k].0@ == changed@[k].0@ && opt_view(out@[k].1) == Some(
                    changed@[k].1@,
                ),
        decreases len - i,
    {
        let key = changed[i].0.clone();
        let val = changed[i].1.clone();
        out.push((key, Some(val)));
        i = i + 1;
    }
    assert(entries_view(out@) =~= changed_view(changed@));
    out
}

} // verus!
