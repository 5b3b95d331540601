//! Schema-less structured values: the shape of request payloads, invocation
//! context, key-value effect payloads and error payloads.
//!
//! A structured value is an ordered list of named fields.  A field the
//! dispatcher can inspect holds a scalar; any deeper structure appears as
//! [`Value::Nested`], since no action reads inside one — the defaulting
//! policy treats such a field the same as a missing one.

use vstd::prelude::*;

verus! {

/// One field value of a schema-less object.
#[derive(Clone, Debug, PartialEq, Eq)]
pub enum Value {
    /// An explicit null.
    Null,
    /// A boolean.
    Bool(bool),
    /// An integer.
    Int(i64),
    /// A string.
    Str(String),
    /// A nested structure (object or array) that no action inspects.
    Nested,
}

/// The mathematical model of a [`Value`].
pub enum ValueView {
    Null,
    Bool(bool),
    Int(int),
    Str(Seq<char>),
    Nested,
}

impl View for Value {
    type V = ValueView;

    open spec fn view(&self) -> ValueView {
        match self {
            Value::Null => ValueView::Null,
            Value::Bool(b) => ValueView::Bool(*b),
            Value::Int(i) => ValueView::Int(*i as int),
            Value::Str(s) => ValueView::Str(s@),
            Value::Nested => ValueView::Nested,
        }
    }
}

/// A schema-less object: named fields in order.
///
/// Nothing forbids two fields of the same name; a lookup finds the first.
#[derive(Clone, Debug, PartialEq, Eq)]
pub struct Object {
    pub entries: Vec<(String, Value)>,
}

/// The mathematical model of an [`Object`]: its fields, in order.
pub type ObjectView = Seq<(Seq<char>, ValueView)>;

impl View for Object {
    type V = ObjectView;

    open spec fn view(&self) -> ObjectView {
        self.entries@.map_values(|p: (String, Value)| (p.0@, p.1@))
    }
}

/// The value of the first field named `key`, if any.
pub open spec fn lookup(o: ObjectView, key: Seq<char>) -> Option<ValueView>
    decreases o.len(),
{
    if o.len() == 0 {
        None
    } else if o[0].0 == key {
        Some(o[0].1)
    } else {
        lookup(o.drop_first(), key)
    }
}

impl Object {
    /// An object with no fields.
    pub fn empty() -> (o: Object)
        ensures
            o@ == Seq::<(Seq<char>, ValueView)>::empty(),
    {
        let o = Object { entries: Vec::new() };
        proof {
            assert(o@ =~= Seq::<(Seq<char>, ValueView)>::empty());
        }
        o
    }

    /// The value of the first field named `key`, if any.
    pub fn get<'a>(&'a self, key: &String) -> (r: Option<&'a Value>)
        ensures
            match r {
                Some(v) => lookup(self@, key@) == Some(v@),
                None => lookup(self@, key@) is None,
            },
    {
        let n = self.entries.len();
        let mut i: usize = 0;
        proof {
            assert(self@.skip(0) =~= self@);
        }
        while i < n
            invariant
                n == self.entries.len(),
                i <= n,
                lookup(self@, key@) == lookup(self@.skip(i as int), key@),
            decreases n - i,
        {
            proof {
                assert(self@.skip(i as int)[0] == self@[i as int]);
                assert(self@.skip(i as int).drop_first() =~= self@.skip(i + 1));
            }
            if self.entries[i].0 == *key {
                return Some(&self.entries[i].1);
            }
            i += 1;
        }
        proof {
            assert(self@.skip(n as int).len() == 0);
        }
        None
    }
}

} // verus!
