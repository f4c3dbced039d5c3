//! The annotation vocabulary of a configuration record and its validation.

use vstd::prelude::*;
use crate::descriptor::{opt_view, FieldDescriptor, RecordDescriptor};

verus! {

/// The shape of a declared type.
#[derive(Debug, Clone, Copy, PartialEq, Eq, Structural)]
pub enum Shape {
    /// A record with named fields.
    NamedFields,
    /// A record with positional fields.
    UnnamedFields,
    /// A record without fields.
    Unit,
    /// A type with variants.
    Sum,
}

/// One annotation tag, on the record or on a field.
#[derive(Debug)]
pub enum Tag {
    /// `prefix = "<literal>"`, on the record.
    Prefix(String),
    /// `default = "<literal>"`, on a field.
    Default(String),
    /// `require`, on a field.
    Require,
    /// `protect`, on a field.
    Protect,
    /// `hide`, on a field.
    Hide,
    /// Any other tag, under its name.
    Other(String),
}

/// A declared field: its name, whether its type is textual, and its tags.
#[derive(Debug)]
pub struct FieldDecl {
    pub name: String,
    pub textual: bool,
    pub tags: Vec<Tag>,
}

/// A declared record: its name, shape, record-level tags and fields.
#[derive(Debug)]
pub struct RecordDecl {
    pub name: String,
    pub shape: Shape,
    pub tags: Vec<Tag>,
    pub fields: Vec<FieldDecl>,
}

/// The rule that a declaration breaks; tags and fields are given by position.
#[derive(Debug, Clone, Copy, PartialEq, Eq, Structural)]
pub enum Violation {
    /// The type is not a non-empty record with named fields.
    NotNamedRecord,
    /// A record-level tag other than `prefix`.
    UnsupportedRecordTag { tag: usize },
    /// A second `prefix` tag.
    DuplicateRecordTag { tag: usize },
    /// A field whose type is not textual.
    NonTextualField { field: usize },
    /// A field-level tag outside `default`, `require`, `protect` and `hide`.
    UnsupportedTag { field: usize, tag: usize },
    /// A field-level tag given twice.
    DuplicateTag { field: usize, tag: usize },
    /// `require` together with `default`.
    RequireAndDefault { field: usize },
    /// `hide` together with `protect`.
    HideAndProtect { field: usize },
}

/// A rejected declaration: the rule broken and a diagnostic naming it.
#[derive(Debug)]
pub struct ValidationError {
    pub violation: Violation,
    pub message: String,
}

/// The kind of the `prefix` tag.
pub open spec fn kind_prefix() -> int {
    0
}

/// The kind of the `default` tag.
pub open spec fn kind_default() -> int {
    1
}

/// The kind of the `require` tag.
pub open spec fn kind_require() -> int {
    2
}

/// The kind of the `protect` tag.
pub open spec fn kind_protect() -> int {
    3
}

/// The kind of the `hide` tag.
pub open spec fn kind_hide() -> int {
    4
}

/// The kind of unknown tags.
pub open spec fn kind_other() -> int {
    5
}

/// Which tag of the vocabulary `t` is; every unknown tag has the same kind.
pub open spec fn tag_kind(t: Tag) -> int {
    match t {
        Tag::Prefix(_) => kind_prefix(),
        Tag::Default(_) => kind_default(),
        Tag::Require => kind_require(),
        Tag::Protect => kind_protect(),
        Tag::Hide => kind_hide(),
        Tag::Other(_) => kind_other(),
    }
}

/// The name under which a tag is written.
pub open spec fn tag_name(t: Tag) -> Seq<char> {
    match t {
        Tag::Prefix(_) => "prefix"@,
        Tag::Default(_) => "default"@,
        Tag::Require => "require"@,
        Tag::Protect => "protect"@,
        Tag::Hide => "hide"@,
        Tag::Other(n) => n@,
    }
}

/// The literal that a tag carries, if any.
pub open spec fn tag_literal(t: Tag) -> Seq<char> {
    match t {
        Tag::Prefix(s) => s@,
        Tag::Default(s) => s@,
        _ => Seq::empty(),
    }
}

/// Whether `t` belongs to the record-level (`on_record`) or the field-level vocabulary.
pub open spec fn tag_allowed(t: Tag, on_record: bool) -> bool {
    if on_record {
        tag_kind(t) == kind_prefix()
    } else {
        tag_kind(t) == kind_default() || tag_kind(t) == kind_require() || tag_kind(t)
            == kind_protect() || tag_kind(t) == kind_hide()
    }
}

/// Whether a tag of the same kind as `tags[i]` comes before it.
pub open spec fn repeats_earlier(tags: Seq<Tag>, i: int) -> bool {
    exists|j: int| 0 <= j < i && #[trigger] tag_kind(tags[j]) == tag_kind(tags[i])
}

/// Position of the first tag at or after `i` that is not allowed or repeats an earlier one.
pub open spec fn first_bad_tag(tags: Seq<Tag>, on_record: bool, i: int) -> Option<int>
    decreases tags.len() - i,
{
    if i < 0 || i >= tags.len() {
        None
    } else if !tag_allowed(tags[i], on_record) || repeats_earlier(tags, i) {
        Some(i)
    } else {
        first_bad_tag(tags, on_record, i + 1)
    }
}

/// Whether some tag of `tags` has kind `k`.
pub open spec fn has_kind(tags: Seq<Tag>, k: int) -> bool {
    exists|j: int| 0 <= j < tags.len() && #[trigger] tag_kind(tags[j]) == k
}

/// The literal of the first tag of kind `k` at or after `i`.
pub open spec fn literal_from(tags: Seq<Tag>, k: int, i: int) -> Option<Seq<char>>
    decreases tags.len() - i,
{
    if i < 0 || i >= tags.len() {
        None
    } else if tag_kind(tags[i]) == k {
        Some(tag_literal(tags[i]))
    } else {
        literal_from(tags, k, i + 1)
    }
}

/// The rule that field `f`, at position `idx`, breaks, if any.
pub open spec fn field_violation(f: FieldDecl, idx: int) -> Option<Violation> {
    let tags = f.tags@;
    if !f.textual {
        Some(Violation::NonTextualField { field: idx as usize })
    } else {
        match first_bad_tag(tags, false, 0) {
            Some(t) => if !tag_allowed(tags[t], false) {
                Some(Violation::UnsupportedTag { field: idx as usize, tag: t as usize })
            } else {
                Some(Violation::DuplicateTag { field: idx as usize, tag: t as usize })
            },
            None => if has_kind(tags, kind_require()) && has_kind(tags, kind_default()) {
                Some(Violation::RequireAndDefault { field: idx as usize })
            } else if has_kind(tags, kind_hide()) && has_kind(tags, kind_protect()) {
                Some(Violation::HideAndProtect { field: idx as usize })
            } else {
                None
            },
        }
    }
}

/// The rule broken by the first offending field at or after `i`.
pub open spec fn fields_violation(fields: Seq<FieldDecl>, i: int) -> Option<Violation>
    decreases fields.len() - i,
{
    if i < 0 || i >= fields.len() {
        None
    } else {
        match field_violation(fields[i], i) {
            Some(v) => Some(v),
            None => fields_violation(fields, i + 1),
        }
    }
}

/// The rule that a declaration breaks, if any: its shape first, then its
/// record-level tags, then its fields in declaration order.
pub open spec fn violation(d: RecordDecl) -> Option<Violation> {
    if d.shape != Shape::NamedFields || d.fields@.len() == 0 {
        Some(Violation::NotNamedRecord)
    } else {
        match first_bad_tag(d.tags@, true, 0) {
            Some(t) => if !tag_allowed(d.tags@[t], true) {
                Some(Violation::UnsupportedRecordTag { tag: t as usize })
            } else {
                Some(Violation::DuplicateRecordTag { tag: t as usize })
            },
            None => fields_violation(d.fields@, 0),
        }
    }
}

/// The record's prefix: the literal of its `prefix` tag, or empty.
pub open spec fn prefix_of(d: RecordDecl) -> Seq<char> {
    match literal_from(d.tags@, kind_prefix(), 0) {
        Some(p) => p,
        None => Seq::empty(),
    }
}

/// `fd` is the descriptor of the declared field `f` under `prefix`.
pub open spec fn describes(fd: FieldDescriptor, f: FieldDecl, prefix: Seq<char>) -> bool {
    &&& fd.name@ == f.name@
    &&& fd.keyed_by(prefix)
    &&& opt_view(fd.default) == literal_from(f.tags@, kind_default(), 0)
    &&& fd.required == has_kind(f.tags@, kind_require())
    &&& fd.protected == has_kind(f.tags@, kind_protect())
    &&& fd.hidden == has_kind(f.tags@, kind_hide())
}

/// The diagnostic text for a rule broken by `d`.
pub open spec fn violation_message(d: RecordDecl, v: Violation) -> Seq<char> {
    match v {
        Violation::NotNamedRecord => d.name@ + ": only records with named fields are supported"@,
        Violation::UnsupportedRecordTag { tag } => "unsupported tag "@ + tag_name(d.tags@[tag as int])
            + " on "@ + d.name@,
        Violation::DuplicateRecordTag { tag } => "repeated tag "@ + tag_name(d.tags@[tag as int])
            + " on "@ + d.name@,
        Violation::NonTextualField { field } => "only textual fields are supported: "@ + d.name@
            + "."@ + d.fields@[field as int].name@,
        Violation::UnsupportedTag { field, tag } => "unsupported tag "@ + tag_name(
            d.fields@[field as int].tags@[tag as int],
        ) + " on "@ + d.name@ + "."@ + d.fields@[field as int].name@,
        Violation::DuplicateTag { field, tag } => "repeated tag "@ + tag_name(
            d.fields@[field as int].tags@[tag as int],
        ) + " on "@ + d.name@ + "."@ + d.fields@[field as int].name@,
        Violation::RequireAndDefault { field } => "require and default are mutually exclusive on "@
            + d.name@ + "."@ + d.fields@[field as int].name@,
        Violation::HideAndProtect { field } => "hide and protect are mutually exclusive on "@
            + d.name@ + "."@ + d.fields@[field as int].name@,
    }
}

/// The tags of one record or field, once found to be well-formed.
struct TagSummary {
    /// The literal of the prefix tag (on a record) or of the default tag (on a field).
    literal: Option<String>,
    /// Whether a tag of each kind is present, by kind.
    present: Vec<bool>,
}

/// The kind of the literal-carrying tag that a record or a field may hold.
pub open spec fn literal_kind(on_record: bool) -> int {
    if on_record { kind_prefix() } else { kind_default() }
}

/// The kind of a tag, as `tag_kind` numbers them.
fn kind_of(t: &Tag) -> (k: usize)
    ensures
        k as int == tag_kind(*t),
        k < 6,
{
    match t {
        Tag::Prefix(_) => 0,
        Tag::Default(_) => 1,
        Tag::Require => 2,
        Tag::Protect => 3,
        Tag::Hide => 4,
        Tag::Other(_) => 5,
    }
}

/// Whether a tag of kind `k` may stand on a record (`on_record`) or on a field.
fn allowed(k: usize, on_record: bool) -> (r: bool)
    ensures
        forall|t: Tag| tag_kind(t) == k ==> r == tag_allowed(t, on_record),
{
    if on_record {
        k == 0
    } else {
        1 <= k && k <= 4
    }
}

/// The name under which `t` is written.
fn name_of(t: &Tag) -> (r: String)
    ensures
        r@ == tag_name(*t),
{
    match t {
        Tag::Prefix(_) => String::from_str("prefix"),
        Tag::Default(_) => String::from_str("default"),
        Tag::Require => String::from_str("require"),
        Tag::Protect => String::from_str("protect"),
        Tag::Hide => String::from_str("hide"),
        Tag::Other(n) => n.clone(),
    }
}

/// Checks a list of tags against the vocabulary of a record or of a field,
/// and collects what they say.
fn scan_tags(tags: &Vec<Tag>, on_record: bool) -> (r: Result<TagSummary, usize>)
    ensures
        match r {
            Ok(s) => {
                &&& first_bad_tag(tags@, on_record, 0) is None
                &&& opt_view(s.literal) == literal_from(tags@, literal_kind(on_record), 0)
                &&& s.present@.len() == 6
                &&& (s.literal is Some <==> s.present@[literal_kind(on_record)])
                &&& forall|k: int| 0 <= k < 6 ==> #[trigger] s.present@[k] == has_kind(tags@, k)
            },
            Err(t) => t < tags@.len() && first_bad_tag(tags@, on_record, 0) == Some(t as int),
        },
{
    let lk: usize = if on_record { 0 } else { 1 };
    let mut present: Vec<bool> = vec![false, false, false, false, false, false];
    let mut literal: Option<String> = None;
    let mut i: usize = 0;
    while i < tags.len()
        invariant
            lk as int == literal_kind(on_record),
            i <= tags@.len(),
            present@.len() == 6,
            forall|k: int|
                0 <= k < 6 ==> #[trigger] present@[k] == (exists|j: int|
                    0 <= j < i && #[trigger] tag_kind(tags@[j]) == k),
            first_bad_tag(tags@, on_record, 0) == first_bad_tag(tags@, on_record, i as int),
            present@[lk as int] <==> literal is Some,
            literal_from(tags@, lk as int, 0) == if present@[lk as int] {
                opt_view(literal)
            } else {
                literal_from(tags@, lk as int, i as int)
            },
        decreases tags.len() - i,
    {
        let t = &tags[i];
        let k = kind_of(t);
        if !allowed(k, on_record) {
            return Err(i);
        }
        if present[k] {
            assert(repeats_earlier(tags@, i as int));
            return Err(i);
        }
        assert(!repeats_earlier(tags@, i as int));
        if k == lk {
            literal = match t {
                Tag::Prefix(s) => Some(s.clone()),
                Tag::Default(s) => Some(s.clone()),
                _ => None,
            };
        }
        present.set(k, true);
        assert forall|kk: int| 0 <= kk < 6 implies #[trigger] present@[kk] == (exists|j: int|
            0 <= j < i + 1 && #[trigger] tag_kind(tags@[j]) == kk) by {
            if kk == k as int {
                assert(tag_kind(tags@[i as int]) == kk);
            } else {
                if exists|j: int| 0 <= j < i + 1 && #[trigger] tag_kind(tags@[j]) == kk {
                    let j = choose|j: int| 0 <= j < i + 1 && #[trigger] tag_kind(tags@[j]) == kk;
                    assert(j < i);
                }
            }
        }
        i = i + 1;
    }
    Ok(TagSummary { literal, present })
}

/// The positions that `v` names exist in `d`.
pub open spec fn names_parts_of(d: RecordDecl, v: Violation) -> bool {
    match v {
        Violation::NotNamedRecord => true,
        Violation::UnsupportedRecordTag { tag } => tag < d.tags@.len(),
        Violation::DuplicateRecordTag { tag } => tag < d.tags@.len(),
        Violation::NonTextualField { field } => field < d.fields@.len(),
        Violation::UnsupportedTag { field, tag } => field < d.fields@.len() && tag
            < d.fields@[field as int].tags@.len(),
        Violation::DuplicateTag { field, tag } => field < d.fields@.len() && tag
            < d.fields@[field as int].tags@.len(),
        Violation::RequireAndDefault { field } => field < d.fields@.len(),
        Violation::HideAndProtect { field } => field < d.fields@.len(),
    }
}

/// `record.field`, the way diagnostics name a field.
fn field_path(d: &RecordDecl, field: usize) -> (r: String)
    requires
        field < d.fields@.len(),
    ensures
        r@ == d.name@ + "."@ + d.fields@[field as int].name@,
{
    let mut r = d.name.clone();
    r.append(".");
    r.append(d.fields[field].name.as_str());
    r
}

/// The error for a rule broken by `d`, with its diagnostic.
fn reject(d: &RecordDecl, v: Violation) -> (e: ValidationError)
    requires
        names_parts_of(*d, v),
    ensures
        e.violation == v,
        e.message@ == violation_message(*d, v),
{
    let message = match v {
        Violation::NotNamedRecord => {
            let mut m = d.name.clone();
            m.append(": only records with named fields are supported");
            m
        },
        Violation::UnsupportedRecordTag { tag } => {
            let mut m = String::from_str("unsupported tag ");
            m.append(name_of(&d.tags[tag]).as_str());
            m.append(" on ");
            m.append(d.name.as_str());
            m
        },
        Violation::DuplicateRecordTag { tag } => {
            let mut m = String::from_str("repeated tag ");
            m.append(name_of(&d.tags[tag]).as_str());
            m.append(" on ");
            m.append(d.name.as_str());
            m
        },
        Violation::NonTextualField { field } => {
            let mut m = String::from_str("only textual fields are supported: ");
            m.append(field_path(d, field).as_str());
            m
        },
        Violation::UnsupportedTag { field, tag } => {
            let mut m = String::from_str("unsupported tag ");
            m.append(name_of(&d.fields[field].tags[tag]).as_str());
            m.append(" on ");
            m.append(field_path(d, field).as_str());
            m
        },
        Violation::DuplicateTag { field, tag } => {
            let mut m = String::from_str("repeated tag ");
            m.append(name_of(&d.fields[field].tags[tag]).as_str());
            m.append(" on ");
            m.append(field_path(d, field).as_str());
            m
        },
        Violation::RequireAndDefault { field } => {
            let mut m = String::from_str("require and default are mutually exclusive on ");
            m.append(field_path(d, field).as_str());
            m
        },
        Violation::HideAndProtect { field } => {
            let mut m = String::from_str("hide and protect are mutually exclusive on ");
            m.append(field_path(d, field).as_str());
            m
        },
    };
    ValidationError { violation: v, message }
}

/// Checks a declared record against the annotation rules and, where it obeys
/// them, derives its descriptor; otherwise reports the first rule broken.
pub fn validate(d: &RecordDecl) -> (r: Result<RecordDescriptor, ValidationError>)
    ensures
        match r {
            Ok(rd) => {
                &&& violation(*d) is None
                &&& rd.name@ == d.name@
                &&& rd.prefix@ == prefix_of(*d)
                &&& rd.fields@.len() == d.fields@.len()
                &&& forall|i: int|
                    0 <= i < d.fields@.len() ==> describes(
                        #[trigger] rd.fields@[i],
                        d.fields@[i],
                        rd.prefix@,
                    )
                &&& rd.wf()
            },
            Err(e) => {
                &&& violation(*d) == Some(e.violation)
                &&& e.message@ == violation_message(*d, e.violation)
            },
        },
{
    let named = match d.shape {
        Shape::NamedFields => true,
        _ => false,
    };
    if !named || d.fields.len() == 0 {
        return Err(reject(d, Violation::NotNamedRecord));
    }
    let prefix = match scan_tags(&d.tags, true) {
        Err(t) => {
            let v = if !allowed(kind_of(&d.tags[t]), true) {
                Violation::UnsupportedRecordTag { tag: t }
            } else {
                Violation::DuplicateRecordTag { tag: t }
            };
            return Err(reject(d, v));
        },
        Ok(s) => match s.literal {
            Some(p) => p,
            None => String::new(),
        },
    };
    let mut fields: Vec<FieldDescriptor> = Vec::new();
    let mut i: usize = 0;
    while i < d.fields.len()
        invariant
            violation(*d) == fields_violation(d.fields@, 0),
            prefix@ == prefix_of(*d),
            i <= d.fields@.len(),
            fields_violation(d.fields@, 0) == fields_violation(d.fields@, i as int),
            fields@.len() == i,
            forall|j: int|
                0 <= j < i ==> describes(#[trigger] fields@[j], d.fields@[j], prefix@)
                    && fields@[j].wf(),
        decreases d.fields.len() - i,
    {
        let f = &d.fields[i];
        if !f.textual {
            return Err(reject(d, Violation::NonTextualField { field: i }));
        }
        let s = match scan_tags(&f.tags, false) {
            Err(t) => {
                let v = if !allowed(kind_of(&f.tags[t]), false) {
                    Violation::UnsupportedTag { field: i, tag: t }
                } else {
                    Violation::DuplicateTag { field: i, tag: t }
                };
                return Err(reject(d, v));
            },
            Ok(s) => s,
        };
        assert(s.present@[1] == has_kind(f.tags@, kind_default()));
        assert(s.present@[2] == has_kind(f.tags@, kind_require()));
        assert(s.present@[3] == has_kind(f.tags@, kind_protect()));
        assert(s.present@[4] == has_kind(f.tags@, kind_hide()));
        if s.present[2] && s.present[1] {
            return Err(reject(d, Violation::RequireAndDefault { field: i }));
        }
        if s.present[4] && s.present[3] {
            return Err(reject(d, Violation::HideAndProtect { field: i }));
        }
        let fd = FieldDescriptor::new(
            prefix.as_str(),
            f.name.as_str(),
            s.literal,
            s.present[2],
            s.present[3],
            s.present[4],
        );
        fields.push(fd);
        i = i + 1;
    }
    Ok(RecordDescriptor { name: d.name.clone(), prefix, fields })
}

} // verus!
