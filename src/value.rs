use vstd::prelude::*;

use crate::de::{MapAccess, SeqAccess, Visitor, VisitorError};
use crate::ignore::Ignore;

verus! {

/// One decoded value of a self-describing format, as a tree.
pub enum Value {
    Null,
    Boolean(bool),
    Str(String),
    Negative(i64),
    NonNegative(u64),
    /// A 64-bit floating-point number, by its IEEE 754 bits.
    Float(u64),
    Array(Vec<Value>),
    /// Entries in order of arrival; a key may occur more than once.
    Object(Vec<(String, Value)>),
}

impl Value {
    /// Neither a sequence nor a mapping.
    pub open spec fn is_primitive(&self) -> bool {
        !(self is Array) && !(self is Object)
    }
}

/// Feeds `value` into `v`, piece by piece: each primitive to the method of
/// its kind, each sequence through the cursor that `seq` grants, element by
/// element, and each mapping through the cursor that `map` grants, entry by
/// entry. A sequence or mapping that `v` does not take is an unexpected
/// value; an error from a cursor stops the walk and is returned.
///
/// A primitive is delivered and never fails; a total visitor takes every
/// value, so the walk through it always succeeds.
pub fn visit<V: Visitor + SeqAccess + MapAccess>(v: &mut V, value: &Value) -> (r: Result<
    (),
    V::Error,
>) where V::Error: VisitorError
    ensures
        value.is_primitive() ==> r is Ok,
        old(v).total() ==> r is Ok,
    decreases value,
{
    let ghost total = v.total();
    match value {
        Value::Null => {
            v.null();
            Ok(())
        },
        Value::Boolean(b) => {
            v.boolean(*b);
            Ok(())
        },
        Value::Str(s) => {
            v.string(s.as_str());
            Ok(())
        },
        Value::Negative(n) => {
            v.negative(*n);
            Ok(())
        },
        Value::NonNegative(n) => {
            v.nonnegative(*n);
            Ok(())
        },
        Value::Float(bits) => {
            v.float_bits(*bits);
            Ok(())
        },
        Value::Array(items) => {
            match v.seq() {
                None => Err(V::Error::unexpected()),
                Some(mut cursor) => {
                    let mut i: usize = 0;
                    while i < items.len()
                        invariant
                            0 <= i <= items.len(),
                            *value == Value::Array(*items),
                            total == old(v).total(),
                            total ==> cursor.total(),
                        decreases items.len() - i,
                    {
                        let mut elem = match cursor.element() {
                            Ok(elem) => elem,
                            Err(e) => {
                                return Err(e);
                            },
                        };
                        proof {
                            assert(decreases_to!(*value => value->Array_0));
                            assert(decreases_to!(*value => items[i as int]));
                        }
                        match visit(&mut elem, &items[i]) {
                            Ok(()) => {},
                            Err(e) => {
                                return Err(e);
                            },
                        }
                        i = i + 1;
                    }
                    SeqAccess::finish(&mut cursor)
                },
            }
        },
        Value::Object(entries) => {
            match v.map() {
                None => Err(V::Error::unexpected()),
                Some(mut cursor) => {
                    let mut i: usize = 0;
                    while i < entries.len()
                        invariant
                            0 <= i <= entries.len(),
                            *value == Value::Object(*entries),
                            total == old(v).total(),
                            total ==> cursor.total(),
                        decreases entries.len() - i,
                    {
                        let entry = &entries[i];
                        let mut val = match cursor.key(entry.0.as_str()) {
                            Ok(val) => val,
                            Err(e) => {
                                return Err(e);
                            },
                        };
                        proof {
                            assert(decreases_to!(*value => value->Object_0));
                            assert(decreases_to!(*value => entries[i as int].1));
                        }
                        match visit(&mut val, &entry.1) {
                            Ok(()) => {},
                            Err(e) => {
                                return Err(e);
                            },
                        }
                        i = i + 1;
                    }
                    MapAccess::finish(&mut cursor)
                },
            }
        },
    }
}

/// Walks `value` through a discard visitor: any value of any shape and depth
/// is taken, and nothing of it is kept.
pub fn skip<E: VisitorError>(value: &Value) -> (r: Result<(), E>)
    ensures
        r is Ok,
{
    let mut sink: Ignore<E> = Ignore::new();
    visit(&mut sink, value)
}

} // verus!
