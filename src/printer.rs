//! The diagnostic summary of a bound record: build metadata, then one line per
//! visible field with protected values masked.

use vstd::prelude::*;
use crate::descriptor::FieldDescriptor;
use crate::resolve::Config;

verus! {

/// What a protected value, and a protected default, are shown as.
pub const MASK: &'static str = "xxxxxxx";

/// Whether the code was built without or with optimizations.
#[derive(Debug, Clone, Copy, PartialEq, Eq, Structural)]
pub enum BuildKind {
    Debug,
    Release,
}

/// Build metadata shown above the fields.
#[derive(Debug)]
pub struct BuildInfo {
    pub kind: BuildKind,
    pub version: String,
}

/// `debug` or `release`.
pub open spec fn kind_text(k: BuildKind) -> Seq<char> {
    match k {
        BuildKind::Debug => "debug"@,
        BuildKind::Release => "release"@,
    }
}

/// The version shown: the one observed, else `<unspecified>`.
pub open spec fn version_text(observed: Option<Seq<char>>) -> Seq<char> {
    match observed {
        Some(v) => v,
        None => "<unspecified>"@,
    }
}

/// The texts of a sequence of strings.
pub open spec fn views(v: Seq<String>) -> Seq<Seq<char>> {
    v.map_values(|s: String| s@)
}

/// The header: build kind, version and an empty line.
pub open spec fn header(b: BuildInfo) -> Seq<Seq<char>> {
    seq!["  build: "@ + kind_text(b.kind), "version: "@ + b.version@, Seq::empty()]
}

/// `<ENV_KEY>/--<arg_key>`.
pub open spec fn key_text(f: FieldDescriptor) -> Seq<char> {
    f.env_key@ + "/--"@ + f.arg_key@
}

/// The note after a field's value, built from its descriptor alone.
pub open spec fn note_text(f: FieldDescriptor) -> Seq<char> {
    match f.default {
        Some(d) => "(default: \""@ + (if f.protected {
            MASK@
        } else {
            d@
        }) + "\")"@,
        None => if f.required {
            "(required)"@
        } else {
            Seq::empty()
        },
    }
}

/// The line of a visible field whose live value is `value`.
pub open spec fn field_line(f: FieldDescriptor, value: Seq<char>) -> Seq<char> {
    key_text(f) + "="@ + (if f.protected {
        MASK@
    } else {
        value
    }) + "  "@ + note_text(f)
}

/// The lines of the fields `fs` with values `vs`: one per field that is not
/// hidden, in order.
pub open spec fn field_lines(fs: Seq<FieldDescriptor>, vs: Seq<Seq<char>>) -> Seq<Seq<char>>
    decreases fs.len(),
{
    if fs.len() == 0 {
        Seq::empty()
    } else {
        let rest = field_lines(fs.drop_last(), vs.drop_last());
        if fs.last().hidden {
            rest
        } else {
            rest.push(field_line(fs.last(), vs.last()))
        }
    }
}

/// Everything the printer shows for `c` built as `b`, line by line.
pub open spec fn rendering(c: Config, b: BuildInfo) -> Seq<Seq<char>> {
    header(b) + field_lines(c.descriptor.fields@, views(c.values@))
}

impl BuildInfo {
    /// The metadata of a build: `optimized` tells the kind; `version` is the
    /// value of the version variable when the record was described, if set.
    pub fn capture(optimized: bool, version: Option<String>) -> (r: BuildInfo)
        ensures
            r.kind == (if optimized {
                BuildKind::Release
            } else {
                BuildKind::Debug
            }),
            r.version@ == version_text(match version {
                Some(v) => Some(v@),
                None => None,
            }),
    {
        let kind = if optimized {
            BuildKind::Release
        } else {
            BuildKind::Debug
        };
        let version = match version {
            Some(v) => v,
            None => String::from_str("<unspecified>"),
        };
        BuildInfo { kind, version }
    }
}

/// The name of the variable that holds the version: `<prefix>VERSION`.
pub fn version_key(prefix: &str) -> (r: String)
    ensures
        r@ == prefix@ + "VERSION"@,
{
    let mut r = prefix.to_owned();
    r.append("VERSION");
    r
}

/// The header lines for build `b`.
fn header_lines(b: &BuildInfo) -> (r: Vec<String>)
    ensures
        views(r@) == header(*b),
{
    let mut first = String::from_str("  build: ");
    match b.kind {
        BuildKind::Debug => first.append("debug"),
        BuildKind::Release => first.append("release"),
    }
    let mut second = String::from_str("version: ");
    second.append(b.version.as_str());
    let r = vec![first, second, String::new()];
    assert(views(r@) =~= header(*b));
    r
}

/// The note of field `f`.
pub fn note_of(f: &FieldDescriptor) -> (r: String)
    ensures
        r@ == note_text(*f),
{
    match &f.default {
        Some(d) => {
            let mut r = String::from_str("(default: \"");
            if f.protected {
                r.append(MASK);
            } else {
                r.append(d.as_str());
            }
            r.append("\")");
            r
        },
        None => if f.required {
            String::from_str("(required)")
        } else {
            String::new()
        },
    }
}

/// The line of the visible field `f` with live value `value`.
pub fn line_of(f: &FieldDescriptor, value: &str) -> (r: String)
    ensures
        r@ == field_line(*f, value@),
{
    let mut r = f.env_key.clone();
    r.append("/--");
    r.append(f.arg_key.as_str());
    r.append("=");
    if f.protected {
        r.append(MASK);
    } else {
        r.append(value);
    }
    r.append("  ");
    r.append(note_of(f).as_str());
    r
}

impl Config {
    /// The summary of this record, line by line: the header, then one line per
    /// field that is not hidden, in declaration order. It depends on the record
    /// and `build` alone, so repeated calls give the same lines.
    pub fn show(&self, build: &BuildInfo) -> (r: Vec<String>)
        requires
            self.wf(),
        ensures
            views(r@) == rendering(*self, *build),
    {
        let fs = &self.descriptor.fields;
        let vs = &self.values;
        let mut lines = header_lines(build);
        let mut i: usize = 0;
        assert(fs@.take(0) =~= Seq::<FieldDescriptor>::empty());
        assert(views(vs@).take(0) =~= Seq::<Seq<char>>::empty());
        assert(views(lines@) =~= header(*build) + field_lines(fs@.take(0), views(vs@).take(0)));
        while i < fs.len()
            invariant
                self.wf(),
                fs == &self.descriptor.fields,
                vs == &self.values,
                i <= fs@.len(),
                views(lines@) == header(*build) + field_lines(
                    fs@.take(i as int),
                    views(vs@).take(i as int),
                ),
            decreases fs.len() - i,
        {
            let f = &fs[i];
            let ghost before = lines@;
            assert(fs@.take(i + 1).drop_last() =~= fs@.take(i as int));
            assert(views(vs@).take(i + 1).drop_last() =~= views(vs@).take(i as int));
            assert(fs@.take(i + 1).last() == fs@[i as int]);
            assert(views(vs@).take(i + 1).last() == vs@[i as int]@);
            if !f.hidden {
                let line = line_of(f, vs[i].as_str());
                lines.push(line);
                assert(views(lines@) =~= views(before).push(line@));
            }
            i = i + 1;
        }
        assert(fs@.take(fs@.len() as int) =~= fs@);
        assert(views(vs@).take(fs@.len() as int) =~= views(vs@));
        lines
    }
}

} // verus!
