//! Descriptors of a validated record and of its fields, with their keys.

use vstd::prelude::*;
use crate::casing::{lower_of, to_lower, to_upper, upper_of};

verus! {

/// The text of an optional value.
pub open spec fn opt_view(o: Option<String>) -> Option<Seq<char>> {
    match o {
        Some(s) => Some(s@),
        None => None,
    }
}

/// The environment key of a field: the upper-cased prefix followed by the upper-cased name.
pub open spec fn env_key_of(prefix: Seq<char>, name: Seq<char>) -> Seq<char> {
    upper_of(prefix) + upper_of(name)
}

/// The argument key of a field: its environment key, lower-cased.
pub open spec fn arg_key_of(prefix: Seq<char>, name: Seq<char>) -> Seq<char> {
    lower_of(env_key_of(prefix, name))
}

/// One configuration knob as the binder and the printer see it.
#[derive(Debug)]
pub struct FieldDescriptor {
    pub name: String,
    pub env_key: String,
    pub arg_key: String,
    pub default: Option<String>,
    pub required: bool,
    pub protected: bool,
    pub hidden: bool,
}

/// A validated record: its name, its prefix and its fields in declaration order.
#[derive(Debug)]
pub struct RecordDescriptor {
    pub name: String,
    pub prefix: String,
    pub fields: Vec<FieldDescriptor>,
}

impl FieldDescriptor {
    /// The keys of this field are those derived from `prefix` and its name.
    pub open spec fn keyed_by(&self, prefix: Seq<char>) -> bool {
        &&& self.env_key@ == env_key_of(prefix, self.name@)
        &&& self.arg_key@ == arg_key_of(prefix, self.name@)
    }

    /// The annotation rules: `required` excludes a default, `hidden` excludes `protected`.
    pub open spec fn wf(&self) -> bool {
        &&& !(self.required && self.default is Some)
        &&& !(self.hidden && self.protected)
    }

    /// A field named `name` under `prefix`, with its keys derived from both.
    pub fn new(
        prefix: &str,
        name: &str,
        default: Option<String>,
        required: bool,
        protected: bool,
        hidden: bool,
    ) -> (r: FieldDescriptor)
        ensures
            r.name@ == name@,
            r.keyed_by(prefix@),
            r.default == default,
            r.required == required,
            r.protected == protected,
            r.hidden == hidden,
    {
        let mut env_key = to_upper(prefix);
        let upper_name = to_upper(name);
        env_key.append(upper_name.as_str());
        let arg_key = to_lower(env_key.as_str());
        FieldDescriptor {
            name: name.to_owned(),
            env_key,
            arg_key,
            default,
            required,
            protected,
            hidden,
        }
    }
}

impl RecordDescriptor {
    /// Every field is keyed by the record's prefix and obeys the annotation rules.
    pub open spec fn wf(&self) -> bool {
        forall|i: int|
            0 <= i < self.fields@.len() ==> {
                &&& #[trigger] self.fields@[i].keyed_by(self.prefix@)
                &&& self.fields@[i].wf()
            }
    }
}

} // verus!
