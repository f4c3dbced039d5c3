//! Binding a record: each field takes its value from the command line, the
//! environment or its default, in that order of precedence.

use vstd::prelude::*;
use crate::descriptor::{opt_view, FieldDescriptor, RecordDescriptor};
use crate::text::{same_text, split_at_first_eq, split_first_eq, trim_dashes, trim_dashes_of};

verus! {

/// The value that the argument `arg` gives to `key`: the argument is stripped of
/// its leading and trailing dashes and split at its first `=`, and the text
/// before the `=` must be `key`.
pub open spec fn arg_value(key: Seq<char>, arg: Seq<char>) -> Option<Seq<char>> {
    match split_first_eq(trim_dashes(arg)) {
        Some((k, v)) => if k == key {
            Some(v)
        } else {
            None
        },
        None => None,
    }
}

/// The value given to `key` by the first matching argument at or after position `i`.
pub open spec fn arg_from(key: Seq<char>, args: Seq<String>, i: int) -> Option<Seq<char>>
    decreases args.len() - i,
{
    if i < 0 || i >= args.len() {
        None
    } else {
        match arg_value(key, args[i]@) {
            Some(v) => Some(v),
            None => arg_from(key, args, i + 1),
        }
    }
}

/// The value given to `key` on the command line; position 0, the program name, is skipped.
pub open spec fn arg_lookup(key: Seq<char>, args: Seq<String>) -> Option<Seq<char>> {
    arg_from(key, args, 1)
}

/// The value of the first variable named `key` at or after position `i`.
pub open spec fn env_from(key: Seq<char>, env: Seq<(String, String)>, i: int) -> Option<Seq<char>>
    decreases env.len() - i,
{
    if i < 0 || i >= env.len() {
        None
    } else if env[i].0@ == key {
        Some(env[i].1@)
    } else {
        env_from(key, env, i + 1)
    }
}

/// The value of the variable `key` in the environment; an empty value is still a value.
pub open spec fn env_lookup(key: Seq<char>, env: Seq<(String, String)>) -> Option<Seq<char>> {
    env_from(key, env, 0)
}

/// The value that field `f` takes: its argument, else its variable, else its
/// default, else the empty text; `None` where the field is required and none
/// of the three is there.
pub open spec fn resolution(
    f: FieldDescriptor,
    args: Seq<String>,
    env: Seq<(String, String)>,
) -> Option<Seq<char>> {
    match arg_lookup(f.arg_key@, args) {
        Some(v) => Some(v),
        None => match env_lookup(f.env_key@, env) {
            Some(v) => Some(v),
            None => match f.default {
                Some(d) => Some(d@),
                None => if f.required {
                    None
                } else {
                    Some(Seq::empty())
                },
            },
        },
    }
}

/// Position of the first field at or after `i` that cannot be resolved.
pub open spec fn first_missing(
    fields: Seq<FieldDescriptor>,
    args: Seq<String>,
    env: Seq<(String, String)>,
    i: int,
) -> Option<int>
    decreases fields.len() - i,
{
    if i < 0 || i >= fields.len() {
        None
    } else if resolution(fields[i], args, env) is None {
        Some(i)
    } else {
        first_missing(fields, args, env, i + 1)
    }
}

/// The diagnostic for a required field that no source provides.
pub open spec fn missing_message(env_key: Seq<char>, arg_key: Seq<char>) -> Seq<char> {
    "required argument "@ + env_key + "/--"@ + arg_key + " was not provided."@
}

/// Binding fails only where a required field is provided by no source.
#[derive(Debug)]
pub enum BindError {
    MissingRequired { env_key: String, arg_key: String },
}

impl BindError {
    /// `required argument <ENV_KEY>/--<arg_key> was not provided.`
    pub fn message(&self) -> (r: String)
        ensures
            match self {
                BindError::MissingRequired { env_key, arg_key } => r@ == missing_message(
                    env_key@,
                    arg_key@,
                ),
            },
    {
        match self {
            BindError::MissingRequired { env_key, arg_key } => {
                let mut m = String::from_str("required argument ");
                m.append(env_key.as_str());
                m.append("/--");
                m.append(arg_key.as_str());
                m.append(" was not provided.");
                m
            },
        }
    }
}

/// A bound record: its descriptor and one value per field, in declaration order.
#[derive(Debug)]
pub struct Config {
    pub descriptor: RecordDescriptor,
    pub values: Vec<String>,
}

impl Config {
    /// One value per field.
    pub open spec fn wf(&self) -> bool {
        self.values@.len() == self.descriptor.fields@.len()
    }

    /// Binds every field of `descriptor` from the arguments `args` (whose first
    /// entry is the program name) and the environment `env`, in declaration
    /// order; fails on the first required field that no source provides.
    pub fn bind(
        descriptor: RecordDescriptor,
        args: &Vec<String>,
        env: &Vec<(String, String)>,
    ) -> (r: Result<Config, BindError>)
        ensures
            match r {
                Ok(c) => {
                    &&& first_missing(descriptor.fields@, args@, env@, 0) is None
                    &&& c.descriptor == descriptor
                    &&& c.wf()
                    &&& forall|i: int|
                        0 <= i < c.values@.len() ==> resolution(
                            descriptor.fields@[i],
                            args@,
                            env@,
                        ) == Some(#[trigger] c.values@[i]@)
                },
                Err(BindError::MissingRequired { env_key, arg_key }) => match first_missing(
                    descriptor.fields@,
                    args@,
                    env@,
                    0,
                ) {
                    Some(k) => env_key@ == descriptor.fields@[k].env_key@ && arg_key@
                        == descriptor.fields@[k].arg_key@,
                    None => false,
                },
            },
    {
        let mut values: Vec<String> = Vec::new();
        let mut i: usize = 0;
        while i < descriptor.fields.len()
            invariant
                i <= descriptor.fields@.len(),
                values@.len() == i,
                first_missing(descriptor.fields@, args@, env@, 0) == first_missing(
                    descriptor.fields@,
                    args@,
                    env@,
                    i as int,
                ),
                forall|j: int|
                    0 <= j < i ==> resolution(descriptor.fields@[j], args@, env@) == Some(
                        #[trigger] values@[j]@,
                    ),
            decreases descriptor.fields.len() - i,
        {
            let f = &descriptor.fields[i];
            match resolve_field(f, args, env) {
                Some(v) => values.push(v),
                None => {
                    return Err(
                        BindError::MissingRequired {
                            env_key: f.env_key.clone(),
                            arg_key: f.arg_key.clone(),
                        },
                    );
                },
            }
            i = i + 1;
        }
        Ok(Config { descriptor, values })
    }

    /// The value of the first field named `name`, if the record has one.
    pub fn value(&self, name: &str) -> (r: Option<String>)
        requires
            self.wf(),
        ensures
            match r {
                Some(v) => exists|i: int|
                    0 <= i < self.values@.len() && #[trigger] self.descriptor.fields@[i].name@
                        == name@ && v@ == self.values@[i]@ && forall|j: int|
                        0 <= j < i ==> self.descriptor.fields@[j].name@ != name@,
                None => forall|i: int|
                    0 <= i < self.values@.len() ==> #[trigger] self.descriptor.fields@[i].name@
                        != name@,
            },
    {
        let mut i: usize = 0;
        while i < self.values.len()
            invariant
                self.wf(),
                i <= self.values@.len(),
                forall|j: int| 0 <= j < i ==> #[trigger] self.descriptor.fields@[j].name@ != name@,
            decreases self.values.len() - i,
        {
            if same_text(self.descriptor.fields[i].name.as_str(), name) {
                return Some(self.values[i].clone());
            }
            i = i + 1;
        }
        None
    }
}

/// The value that the argument `arg` gives to `key`, if it names it.
pub fn arg_value_of(key: &str, arg: &str) -> (r: Option<String>)
    ensures
        opt_view(r) == arg_value(key@, arg@),
{
    let trimmed = trim_dashes_of(arg);
    match split_at_first_eq(trimmed.as_str()) {
        Some((k, v)) => {
            if same_text(k.as_str(), key) {
                Some(v)
            } else {
                None
            }
        },
        None => None,
    }
}

/// The value given to `key` by the first matching argument after the program name.
pub fn lookup_arg(key: &str, args: &Vec<String>) -> (r: Option<String>)
    ensures
        opt_view(r) == arg_lookup(key@, args@),
{
    let mut i: usize = 1;
    while i < args.len()
        invariant
            1 <= i,
            arg_lookup(key@, args@) == arg_from(key@, args@, i as int),
        decreases args.len() - i,
    {
        let found = arg_value_of(key, args[i].as_str());
        if found.is_some() {
            return found;
        }
        i = i + 1;
    }
    None
}

/// The value of the variable `key` in the environment `env`.
pub fn lookup_env(key: &str, env: &Vec<(String, String)>) -> (r: Option<String>)
    ensures
        opt_view(r) == env_lookup(key@, env@),
{
    let mut i: usize = 0;
    while i < env.len()
        invariant
            env_lookup(key@, env@) == env_from(key@, env@, i as int),
        decreases env.len() - i,
    {
        if same_text(env[i].0.as_str(), key) {
            return Some(env[i].1.clone());
        }
        i = i + 1;
    }
    None
}

/// The value that field `f` takes from `args`, `env` and its default; `None`
/// where it is required and none of them provides it.
pub fn resolve_field(f: &FieldDescriptor, args: &Vec<String>, env: &Vec<(String, String)>) -> (r:
    Option<String>)
    ensures
        opt_view(r) == resolution(*f, args@, env@),
{
    match lookup_arg(f.arg_key.as_str(), args) {
        Some(v) => Some(v),
        None => match lookup_env(f.env_key.as_str(), env) {
            Some(v) => Some(v),
            None => match &f.default {
                Some(d) => Some(d.clone()),
                None => if f.required {
                    None
                } else {
                    Some(String::new())
                },
            },
        },
    }
}

} // verus!
