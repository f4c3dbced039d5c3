//! Laws that relate the resolver, the printer and validation.

use vstd::prelude::*;
use crate::annotation::{
    fields_violation, field_violation, first_bad_tag, has_kind, kind_default, kind_hide,
    kind_protect, kind_require, repeats_earlier, tag_allowed, violation, FieldDecl, RecordDecl,
    Shape, Tag,
};
use crate::descriptor::FieldDescriptor;
use crate::printer::{field_line, field_lines, header, key_text, rendering, views, BuildInfo, MASK};
use crate::resolve::{
    arg_from, arg_lookup, arg_value, env_lookup, first_missing, missing_message, resolution, Config,
};
use crate::text::{
    first_eq_from, skip_leading_dashes, skip_trailing_dashes, split_first_eq, trim_dashes,
};

verus! {

/// A field's value is its argument if one is given, else its environment
/// variable if set, else its default if declared, else the empty text when the
/// field is not required; a required field with none of the three is unresolved.
pub proof fn law_precedence(f: FieldDescriptor, args: Seq<String>, env: Seq<(String, String)>)
    ensures
        arg_lookup(f.arg_key@, args) is Some ==> resolution(f, args, env) == arg_lookup(
            f.arg_key@,
            args,
        ),
        arg_lookup(f.arg_key@, args) is None && env_lookup(f.env_key@, env) is Some ==> resolution(
            f,
            args,
            env,
        ) == env_lookup(f.env_key@, env),
        arg_lookup(f.arg_key@, args) is None && env_lookup(f.env_key@, env) is None
            && f.default is Some ==> resolution(f, args, env) == Some(f.default->0@),
        arg_lookup(f.arg_key@, args) is None && env_lookup(f.env_key@, env) is None
            && f.default is None && !f.required ==> resolution(f, args, env) == Some(
            Seq::<char>::empty(),
        ),
        arg_lookup(f.arg_key@, args) is None && env_lookup(f.env_key@, env) is None
            && f.default is None && f.required ==> resolution(f, args, env) is None,
{
}

/// `n` dashes.
pub open spec fn dashes(n: nat) -> Seq<char> {
    Seq::new(n, |i: int| '-')
}

proof fn lemma_skip_leading(n: nat, rest: Seq<char>)
    requires
        rest.len() == 0 || rest[0] != '-',
    ensures
        skip_leading_dashes(dashes(n) + rest) == rest,
    decreases n,
{
    if n == 0 {
        assert(dashes(0) + rest =~= rest);
    } else {
        assert((dashes(n) + rest).drop_first() =~= dashes((n - 1) as nat) + rest);
        lemma_skip_leading((n - 1) as nat, rest);
    }
}

proof fn lemma_first_eq(s: Seq<char>, i: int, p: int)
    requires
        0 <= i <= p < s.len(),
        s[p] == '=',
        forall|j: int| i <= j < p ==> s[j] != '=',
    ensures
        first_eq_from(s, i) == Some(p),
    decreases p - i,
{
    if i < p {
        lemma_first_eq(s, i + 1, p);
    }
}

/// An argument spelled as any number of dashes, the key, `=` and a value gives
/// the value, everything after the first `=` included; this holds when the key
/// has no `=` and does not start with a dash, and the value does not end with
/// one (trailing dashes of an argument are stripped).
pub proof fn law_argument_spelling(key: Seq<char>, n: nat, v: Seq<char>)
    requires
        forall|j: int| 0 <= j < key.len() ==> key[j] != '=',
        key.len() > 0 ==> key[0] != '-',
        v.len() > 0 ==> v.last() != '-',
    ensures
        arg_value(key, dashes(n) + key + seq!['='] + v) == Some(v),
{
    let body = key + seq!['='] + v;
    assert(dashes(n) + key + seq!['='] + v =~= dashes(n) + body);
    assert(body[0] != '-');
    lemma_skip_leading(n, body);
    assert(body.last() != '-');
    assert(skip_trailing_dashes(body) == body);
    assert(trim_dashes(dashes(n) + body) == body);
    lemma_first_eq(body, 0, key.len() as int);
    assert(body.subrange(0, key.len() as int) =~= key);
    assert(body.subrange(key.len() as int + 1, body.len() as int) =~= v);
    assert(split_first_eq(body) == Some((key, v)));
}

/// A field whose first argument after the program name is spelled
/// `--<arg_key>=v`, `-<arg_key>=v` or `<arg_key>=v` resolves to `v`, under the
/// conditions of `law_argument_spelling`.
pub proof fn law_argument_robustness(
    f: FieldDescriptor,
    args: Seq<String>,
    env: Seq<(String, String)>,
    n: nat,
    v: Seq<char>,
)
    requires
        args.len() >= 2,
        args[1]@ == dashes(n) + f.arg_key@ + seq!['='] + v,
        forall|j: int| 0 <= j < f.arg_key@.len() ==> f.arg_key@[j] != '=',
        f.arg_key@.len() > 0 ==> f.arg_key@[0] != '-',
        v.len() > 0 ==> v.last() != '-',
    ensures
        resolution(f, args, env) == Some(v),
{
    law_argument_spelling(f.arg_key@, n, v);
    assert(arg_from(f.arg_key@, args, 1) == Some(v));
}

/// A protected field's line shows the mask in place of its value and of its
/// default: it is the same whatever the value and the default literal are.
pub proof fn law_redaction(f: FieldDescriptor, g: FieldDescriptor, v: Seq<char>, w: Seq<char>)
    requires
        f.protected,
        g.protected,
        g.env_key@ == f.env_key@,
        g.arg_key@ == f.arg_key@,
        g.required == f.required,
        g.default is Some == f.default is Some,
    ensures
        field_line(f, v) == field_line(g, w),
        field_line(f, v) == key_text(f) + "="@ + MASK@ + "  "@ + (if f.default is Some {
            "(default: \""@ + MASK@ + "\")"@
        } else if f.required {
            "(required)"@
        } else {
            Seq::empty()
        }),
{
}

proof fn lemma_lines_agree(
    fs: Seq<FieldDescriptor>,
    vs: Seq<Seq<char>>,
    gs: Seq<FieldDescriptor>,
    ws: Seq<Seq<char>>,
)
    requires
        fs.len() == vs.len(),
        gs.len() == fs.len(),
        ws.len() == vs.len(),
        forall|i: int| 0 <= i < fs.len() ==> #[trigger] gs[i].hidden == fs[i].hidden,
        forall|i: int|
            0 <= i < fs.len() && !fs[i].hidden ==> field_line(#[trigger] fs[i], vs[i])
                == field_line(gs[i], ws[i]),
    ensures
        field_lines(fs, vs) == field_lines(gs, ws),
    decreases fs.len(),
{
    if fs.len() > 0 {
        let n = fs.len() - 1;
        assert(gs.last().hidden == fs.last().hidden);
        assert(forall|i: int| 0 <= i < n ==> #[trigger] fs.drop_last()[i] == fs[i]);
        assert(forall|i: int| 0 <= i < n ==> #[trigger] gs.drop_last()[i] == gs[i]);
        lemma_lines_agree(fs.drop_last(), vs.drop_last(), gs.drop_last(), ws.drop_last());
        if !fs.last().hidden {
            assert(field_line(fs[n], vs[n]) == field_line(gs[n], ws[n]));
        }
    }
}

/// Two records whose fields agree but for the live value and the default
/// literal of one protected field print the same lines: the printer reveals
/// neither.
pub proof fn law_redaction_in_output(c: Config, d: Config, b: BuildInfo, k: int)
    requires
        c.wf(),
        d.wf(),
        d.descriptor.fields@.len() == c.descriptor.fields@.len(),
        0 <= k < c.descriptor.fields@.len(),
        c.descriptor.fields@[k].protected,
        forall|i: int|
            0 <= i < c.values@.len() && i != k ==> #[trigger] d.descriptor.fields@[i]
                == c.descriptor.fields@[i] && d.values@[i]@ == c.values@[i]@,
        d.descriptor.fields@[k].protected,
        d.descriptor.fields@[k].hidden == c.descriptor.fields@[k].hidden,
        d.descriptor.fields@[k].env_key@ == c.descriptor.fields@[k].env_key@,
        d.descriptor.fields@[k].arg_key@ == c.descriptor.fields@[k].arg_key@,
        d.descriptor.fields@[k].required == c.descriptor.fields@[k].required,
        d.descriptor.fields@[k].default is Some == c.descriptor.fields@[k].default is Some,
    ensures
        rendering(c, b) == rendering(d, b),
{
    let fs = c.descriptor.fields@;
    let gs = d.descriptor.fields@;
    let vs = views(c.values@);
    let ws = views(d.values@);
    assert forall|i: int| 0 <= i < fs.len() && !fs[i].hidden implies field_line(
        #[trigger] fs[i],
        vs[i],
    ) == field_line(gs[i], ws[i]) by {
        if i == k {
            law_redaction(fs[i], gs[i], vs[i], ws[i]);
        } else {
            assert(gs[i] == fs[i]);
        }
    }
    assert forall|i: int| 0 <= i < fs.len() implies #[trigger] gs[i].hidden == fs[i].hidden by {
        if i != k {
            assert(gs[i] == fs[i]);
        }
    }
    lemma_lines_agree(fs, vs, gs, ws);
}

/// Removing a hidden field, with its value, leaves the printed lines unchanged:
/// a hidden field gives no line and leaves no gap.
pub proof fn law_hiding(fs: Seq<FieldDescriptor>, vs: Seq<Seq<char>>, k: int)
    requires
        fs.len() == vs.len(),
        0 <= k < fs.len(),
        fs[k].hidden,
    ensures
        field_lines(fs, vs) == field_lines(fs.remove(k), vs.remove(k)),
    decreases fs.len(),
{
    let n = fs.len() - 1;
    if k == n {
        assert(fs.remove(k) =~= fs.drop_last());
        assert(vs.remove(k) =~= vs.drop_last());
    } else {
        law_hiding(fs.drop_last(), vs.drop_last(), k);
        assert(fs.remove(k).drop_last() =~= fs.drop_last().remove(k));
        assert(vs.remove(k).drop_last() =~= vs.drop_last().remove(k));
        assert(fs.remove(k).last() == fs.last());
        assert(vs.remove(k).last() == vs.last());
    }
}

/// The printed summary of a record with a hidden field equals that of the
/// record without it.
pub proof fn law_hiding_in_output(c: Config, b: BuildInfo, k: int)
    requires
        c.wf(),
        0 <= k < c.descriptor.fields@.len(),
        c.descriptor.fields@[k].hidden,
    ensures
        rendering(c, b) == header(b) + field_lines(
            c.descriptor.fields@.remove(k),
            views(c.values@).remove(k),
        ),
{
    law_hiding(c.descriptor.fields@, views(c.values@), k);
}

proof fn lemma_missing_at(
    fields: Seq<FieldDescriptor>,
    args: Seq<String>,
    env: Seq<(String, String)>,
    i: int,
    k: int,
)
    requires
        0 <= i <= k < fields.len(),
        resolution(fields[k], args, env) is None,
        forall|j: int| 0 <= j < k ==> #[trigger] resolution(fields[j], args, env) is Some,
    ensures
        first_missing(fields, args, env, i) == Some(k),
    decreases k - i,
{
    if i < k {
        assert(resolution(fields[i], args, env) is Some);
        lemma_missing_at(fields, args, env, i + 1, k);
    }
}

/// Binding fails as soon as some field is provided by no source: a required
/// field with no argument, no variable and no default.
pub proof fn law_unresolved_field_fails(
    fields: Seq<FieldDescriptor>,
    args: Seq<String>,
    env: Seq<(String, String)>,
    k: int,
)
    requires
        0 <= k < fields.len(),
        fields[k].required,
        fields[k].default is None,
        arg_lookup(fields[k].arg_key@, args) is None,
        env_lookup(fields[k].env_key@, env) is None,
    ensures
        first_missing(fields, args, env, 0) is Some,
{
    lemma_unresolved_found(fields, args, env, 0, k);
}

proof fn lemma_unresolved_found(
    fields: Seq<FieldDescriptor>,
    args: Seq<String>,
    env: Seq<(String, String)>,
    i: int,
    k: int,
)
    requires
        0 <= i <= k < fields.len(),
        resolution(fields[k], args, env) is None,
    ensures
        first_missing(fields, args, env, i) is Some,
    decreases k - i,
{
    if i < k {
        lemma_unresolved_found(fields, args, env, i + 1, k);
    }
}

/// A required field with no argument, no variable and no default, after fields
/// that all resolve, is the one that binding fails on; its diagnostic holds
/// both `<ENV_KEY>` and `--<arg_key>`.
pub proof fn law_required_failure(
    fields: Seq<FieldDescriptor>,
    args: Seq<String>,
    env: Seq<(String, String)>,
    k: int,
)
    requires
        0 <= k < fields.len(),
        fields[k].required,
        fields[k].default is None,
        arg_lookup(fields[k].arg_key@, args) is None,
        env_lookup(fields[k].env_key@, env) is None,
        forall|j: int| 0 <= j < k ==> #[trigger] resolution(fields[j], args, env) is Some,
    ensures
        first_missing(fields, args, env, 0) == Some(k),
        ({
            let e = fields[k].env_key@;
            let el = e.len() as int;
            let al = fields[k].arg_key@.len() as int;
            let a = fields[k].arg_key@;
            let m = missing_message(e, a);
            &&& m.subrange(18, 18 + el) == e
            &&& m.subrange(19 + el, 21 + el + al) == "--"@ + a
        }),
{
    lemma_missing_at(fields, args, env, 0, k);
    let e = fields[k].env_key@;
    let a = fields[k].arg_key@;
    let m = missing_message(e, a);
    let el = e.len() as int;
    let al = a.len() as int;
    reveal_strlit("required argument ");
    reveal_strlit("/--");
    reveal_strlit("--");
    assert(m.subrange(18, 18 + el) =~= e);
    assert(m.subrange(19 + el, 21 + el + al) =~= "--"@ + a);
}

/// Tag `t` of `tags` is outside the vocabulary of its place, or repeats an earlier tag.
pub open spec fn tag_is_bad(tags: Seq<Tag>, on_record: bool, t: int) -> bool {
    !tag_allowed(tags[t], on_record) || repeats_earlier(tags, t)
}

/// Field `f` breaks an annotation rule: its type is not textual, one of its tags
/// is unknown or repeated, or it combines `require` with `default` or `hide`
/// with `protect`.
pub open spec fn field_breaks_rule(f: FieldDecl) -> bool {
    ||| !f.textual
    ||| exists|t: int| 0 <= t < f.tags@.len() && #[trigger] tag_is_bad(f.tags@, false, t)
    ||| has_kind(f.tags@, kind_require()) && has_kind(f.tags@, kind_default())
    ||| has_kind(f.tags@, kind_hide()) && has_kind(f.tags@, kind_protect())
}

proof fn lemma_bad_tag_found(tags: Seq<Tag>, on_record: bool, i: int, j: int)
    requires
        0 <= i <= j < tags.len(),
        tag_is_bad(tags, on_record, j),
    ensures
        first_bad_tag(tags, on_record, i) is Some,
    decreases j - i,
{
    if i < j {
        lemma_bad_tag_found(tags, on_record, i + 1, j);
    }
}

proof fn lemma_field_rules(f: FieldDecl, idx: int)
    requires
        field_breaks_rule(f),
    ensures
        field_violation(f, idx) is Some,
{
    if exists|t: int| 0 <= t < f.tags@.len() && #[trigger] tag_is_bad(f.tags@, false, t) {
        let t = choose|t: int| 0 <= t < f.tags@.len() && #[trigger] tag_is_bad(f.tags@, false, t);
        lemma_bad_tag_found(f.tags@, false, 0, t);
    }
}

proof fn lemma_field_found(fs: Seq<FieldDecl>, i: int, j: int)
    requires
        0 <= i <= j < fs.len(),
        field_violation(fs[j], j) is Some,
    ensures
        fields_violation(fs, i) is Some,
    decreases j - i,
{
    if i < j {
        lemma_field_found(fs, i + 1, j);
    }
}

/// Every forbidden declaration is rejected: a type that is not a non-empty
/// record with named fields, an unknown or repeated record tag, and any field
/// that breaks an annotation rule.
pub proof fn law_validation(d: RecordDecl)
    ensures
        d.shape != Shape::NamedFields || d.fields@.len() == 0 ==> violation(d) is Some,
        (exists|t: int| 0 <= t < d.tags@.len() && #[trigger] tag_is_bad(d.tags@, true, t))
            ==> violation(d) is Some,
        (exists|i: int| 0 <= i < d.fields@.len() && #[trigger] field_breaks_rule(d.fields@[i]))
            ==> violation(d) is Some,
{
    if exists|t: int| 0 <= t < d.tags@.len() && #[trigger] tag_is_bad(d.tags@, true, t) {
        let t = choose|t: int| 0 <= t < d.tags@.len() && #[trigger] tag_is_bad(d.tags@, true, t);
        lemma_bad_tag_found(d.tags@, true, 0, t);
    }
    if exists|i: int| 0 <= i < d.fields@.len() && #[trigger] field_breaks_rule(d.fields@[i]) {
        let i = choose|i: int| 0 <= i < d.fields@.len() && #[trigger] field_breaks_rule(d.fields@[i]);
        lemma_field_rules(d.fields@[i], i);
        lemma_field_found(d.fields@, 0, i);
    }
}

} // verus!
