//! The decisions of the observability derive and of the key/field sync
//! attribute, over a plain description of their input: which span name and
//! attribute keys a struct yields, or why it is rejected.

use vstd::prelude::*;
use crate::text::{str_eq, concat, to_owned};
use crate::span::{AttributeValue, AttrView, str_attr, int_attr};

verus! {

/// The shape of a type as written in a field declaration.
pub enum TypeDesc {
    /// A path type such as `String`, `Option<i64>` or `::std::string::String`.
    Path(TypePathDesc),
    /// Any other type (references, tuples, arrays, ...).
    Other,
}

/// A path type: whether it starts with `::`, and its segments.
pub struct TypePathDesc {
    pub leading_colon: bool,
    pub segments: Vec<SegmentDesc>,
}

/// One path segment: its identifier and its arguments.
pub struct SegmentDesc {
    pub ident: String,
    pub arguments: ArgumentsDesc,
}

/// The arguments of a path segment.
pub enum ArgumentsDesc {
    Bare,
    AngleBracketed(Vec<GenericArgDesc>),
    Parenthesized,
}

/// One generic argument between angle brackets.
pub enum GenericArgDesc {
    Type(TypeDesc),
    Other,
}

/// The single identifier a path consists of, as `syn::Path::get_ident`
/// finds it: no leading `::`, one segment, no arguments.
pub open spec fn path_ident(p: TypePathDesc) -> Option<Seq<char>> {
    if !p.leading_colon && p.segments@.len() == 1 && p.segments@[0].arguments is Bare {
        Some(p.segments@[0].ident@)
    } else {
        None
    }
}

/// The type is `String`.
pub open spec fn type_is_string(t: TypeDesc) -> bool {
    match t {
        TypeDesc::Path(p) => path_ident(p) == Some("String"@),
        TypeDesc::Other => false,
    }
}

/// The type is `i64`.
pub open spec fn type_is_i64(t: TypeDesc) -> bool {
    match t {
        TypeDesc::Path(p) => path_ident(p) == Some("i64"@),
        TypeDesc::Other => false,
    }
}

/// The argument type of `Option<T>`: the type must be a one-segment path
/// `Option` with exactly one angle-bracketed type argument.
pub open spec fn type_option_inner(t: TypeDesc) -> Option<TypeDesc> {
    match t {
        TypeDesc::Path(p) => if p.segments@.len() == 1 && p.segments@[0].ident@ == "Option"@ {
            match p.segments@[0].arguments {
                ArgumentsDesc::AngleBracketed(args) => if args@.len() == 1 {
                    match args@[0] {
                        GenericArgDesc::Type(inner) => Some(inner),
                        GenericArgDesc::Other => None,
                    }
                } else {
                    None
                },
                _ => None,
            }
        } else {
            None
        },
        TypeDesc::Other => None,
    }
}

/// The type's last path segment is `Option`.
pub open spec fn type_is_option(t: TypeDesc) -> bool {
    match t {
        TypeDesc::Path(p) => p.segments@.len() > 0 && p.segments@.last().ident@ == "Option"@,
        TypeDesc::Other => false,
    }
}

/// The type can carry an observability key: `String`, `i64`, or an
/// `Option` of one of them.
pub open spec fn type_is_supported(t: TypeDesc) -> bool {
    type_is_string(t) || type_is_i64(t) || (type_is_option(t) && match type_option_inner(t) {
        Some(i) => type_is_string(i) || type_is_i64(i),
        None => false,
    })
}

fn path_ident_is(p: &TypePathDesc, name: &str) -> (r: bool)
    ensures
        r == (path_ident(*p) == Some(name@)),
{
    if !p.leading_colon && p.segments.len() == 1 {
        match &p.segments[0].arguments {
            ArgumentsDesc::Bare => str_eq(p.segments[0].ident.as_str(), name),
            _ => false,
        }
    } else {
        false
    }
}

/// Whether the type is `String`.
pub fn is_string_type(ty: &TypeDesc) -> (r: bool)
    ensures
        r == type_is_string(*ty),
{
    match ty {
        TypeDesc::Path(p) => path_ident_is(p, "String"),
        TypeDesc::Other => false,
    }
}

/// Whether the type is `i64`.
pub fn is_i64_type(ty: &TypeDesc) -> (r: bool)
    ensures
        r == type_is_i64(*ty),
{
    match ty {
        TypeDesc::Path(p) => path_ident_is(p, "i64"),
        TypeDesc::Other => false,
    }
}

/// The argument type of an `Option<T>` type.
pub fn get_option_inner_type(ty: &TypeDesc) -> (r: Option<&TypeDesc>)
    ensures
        match r {
            Some(i) => type_option_inner(*ty) == Some(*i),
            None => type_option_inner(*ty) is None,
        },
{
    match ty {
        TypeDesc::Path(p) => {
            if p.segments.len() == 1 && str_eq(p.segments[0].ident.as_str(), "Option") {
                match &p.segments[0].arguments {
                    ArgumentsDesc::AngleBracketed(args) => {
                        if args.len() == 1 {
                            match &args[0] {
                                GenericArgDesc::Type(inner) => Some(inner),
                                GenericArgDesc::Other => None,
                            }
                        } else {
                            None
                        }
                    },
                    _ => None,
                }
            } else {
                None
            }
        },
        TypeDesc::Other => None,
    }
}

/// Whether the type's last path segment is `Option`.
pub fn is_option_type(ty: &TypeDesc) -> (r: bool)
    ensures
        r == type_is_option(*ty),
{
    match ty {
        TypeDesc::Path(p) => {
            let n = p.segments.len();
            n > 0 && str_eq(p.segments[n - 1].ident.as_str(), "Option")
        },
        TypeDesc::Other => false,
    }
}

/// Whether the type can carry an observability key.
pub fn is_supported_type(ty: &TypeDesc) -> (r: bool)
    ensures
        r == type_is_supported(*ty),
{
    is_string_type(ty) || is_i64_type(ty) || (is_option_type(ty) && match get_option_inner_type(ty) {
        Some(inner) => is_string_type(inner) || is_i64_type(inner),
        None => false,
    })
}

/// The value of a `name = value` argument.
pub enum MetaValue {
    /// A string literal without a suffix, with its value.
    Str(String),
    /// A string literal with a suffix (as in `"a"xyz`): its value and its
    /// suffix.
    SuffixedStr(String, String),
    /// Another literal.
    OtherLit,
    /// An expression that is not a literal.
    NotLit,
}

/// One argument of an attribute.
pub enum MetaDesc {
    /// `path = value`; `path` is the path's single identifier, when it is
    /// one.
    NameValue { path: Option<String>, value: MetaValue },
    /// A bare path or a list.
    Other,
}

/// One attribute: whether it is `#[observability(...)]`, and its arguments
/// when they parse as a comma-separated list.
pub struct AttrDesc {
    pub observability: bool,
    pub args: Option<Vec<MetaDesc>>,
}

/// A named field: its name, type and attributes.
pub struct FieldDesc {
    pub name: String,
    pub ty: TypeDesc,
    pub attrs: Vec<AttrDesc>,
}

/// The body of the deriving item.
pub enum DataDesc {
    /// A struct with named fields.
    NamedStruct(Vec<FieldDesc>),
    /// A tuple or unit struct.
    OtherStruct,
    /// An enum or union.
    NotStruct,
}

/// The deriving item: its name, attributes and body.
pub struct StructDesc {
    pub name: String,
    pub attrs: Vec<AttrDesc>,
    pub data: DataDesc,
}

/// The argument path is the identifier `s`.
pub open spec fn path_is(path: Option<String>, s: Seq<char>) -> bool {
    path matches Some(p) && p@ == s
}

fn path_is_exec(path: &Option<String>, s: &str) -> (r: bool)
    ensures
        r == path_is(*path, s@),
{
    match path {
        Some(p) => str_eq(p.as_str(), s),
        None => false,
    }
}

/// The span name after the arguments `metas`: the last `name = "..."`.
pub open spec fn metas_name(metas: Seq<MetaDesc>, cur: Seq<char>) -> Seq<char>
    decreases metas.len(),
{
    if metas.len() == 0 {
        cur
    } else {
        let c = metas_name(metas.drop_last(), cur);
        match metas.last() {
            MetaDesc::NameValue { path, value } => if path_is(path, "name"@) {
                match value {
                    MetaValue::Str(s) | MetaValue::SuffixedStr(s, _) => s@,
                    _ => c,
                }
            } else {
                c
            },
            MetaDesc::Other => c,
        }
    }
}

/// The span name after the item attributes `attrs`, starting from `cur`.
pub open spec fn attrs_name(attrs: Seq<AttrDesc>, cur: Seq<char>) -> Seq<char>
    decreases attrs.len(),
{
    if attrs.len() == 0 {
        cur
    } else {
        let prev = attrs_name(attrs.drop_last(), cur);
        let a = attrs.last();
        if a.observability && a.args is Some {
            metas_name(a.args->0@, prev)
        } else {
            prev
        }
    }
}

/// The spec view of the uppercase form of a text, as `str::to_uppercase`
/// computes it.
pub uninterp spec fn upper_case(s: Seq<char>) -> Seq<char>;

/// `str::to_uppercase`. The contract claims only that the result is the one
/// `upper_case` names for the input.
#[verifier::external_body]
pub(crate) fn to_uppercase(s: &str) -> (r: String)
    ensures
        r@ == upper_case(s@),
{
    s.to_uppercase()
}

/// The name of the key constant of the field `field`.
pub open spec fn const_ident(field: Seq<char>) -> Seq<char> {
    "KEY_"@ + upper_case(field)
}

/// The text after a field name in the messages about unsupported types.
pub open spec fn supported_types_text() -> Seq<char> {
    ". Only String, i64, Option<String>, and Option<i64> are supported."@
}

/// The message for a key on a field of unsupported type.
pub open spec fn unsupported_type_message(field: Seq<char>) -> Seq<char> {
    "Unsupported field type for observability key on field: "@ + field + supported_types_text()
}

/// The message for a key on an `Option` field of unsupported argument type.
pub open spec fn unsupported_inner_message(field: Seq<char>) -> Seq<char> {
    "Unsupported Option inner type for observability key on field: "@ + field
        + supported_types_text()
}

/// The message for a key that is not a string literal.
pub open spec fn key_literal_message(field: Seq<char>) -> Seq<char> {
    "Observability key must be a string literal on field: "@ + field
}

/// The message for an observability attribute without a key.
pub open spec fn missing_key_message(field: Seq<char>) -> Seq<char> {
    "Missing 'key' argument in #[observability] attribute on field: "@ + field
}

/// The message of unwrapping an absent `Option`.
pub open spec fn unwrap_none_message() -> Seq<char> {
    "called `Option::unwrap()` on a `None` value"@
}

/// Checks the arguments of one observability attribute of the field
/// `name` of type `ty`: whether a `key` argument occurs, and the key
/// constants it declares, or the first error.
pub open spec fn check_metas(name: Seq<char>, ty: TypeDesc, metas: Seq<MetaDesc>) -> Result<
    (bool, Seq<(Seq<char>, Seq<char>)>),
    Seq<char>,
>
    decreases metas.len(),
{
    if metas.len() == 0 {
        Ok((false, seq![]))
    } else {
        match check_metas(name, ty, metas.drop_last()) {
            Err(e) => Err(e),
            Ok(acc) => match metas.last() {
                MetaDesc::NameValue { path, value } => if path_is(path, "key"@) {
                    match value {
                        MetaValue::Str(k) | MetaValue::SuffixedStr(k, _) => if type_is_supported(ty) {
                            Ok((true, acc.1.push((const_ident(name), k@))))
                        } else {
                            Err(unsupported_type_message(name))
                        },
                        MetaValue::OtherLit => Ok((true, acc.1)),
                        MetaValue::NotLit => Err(key_literal_message(name)),
                    }
                } else {
                    Ok(acc)
                },
                MetaDesc::Other => Ok(acc),
            },
        }
    }
}

/// Checks the attributes of the field `name` of type `ty`: every
/// observability attribute must have a `key`; gives the key constants
/// declared, or the first error.
pub open spec fn check_attrs(name: Seq<char>, ty: TypeDesc, attrs: Seq<AttrDesc>) -> Result<
    Seq<(Seq<char>, Seq<char>)>,
    Seq<char>,
>
    decreases attrs.len(),
{
    if attrs.len() == 0 {
        Ok(seq![])
    } else {
        match check_attrs(name, ty, attrs.drop_last()) {
            Err(e) => Err(e),
            Ok(consts) => {
                let a = attrs.last();
                if !a.observability {
                    Ok(consts)
                } else {
                    let r = match a.args {
                        Some(m) => check_metas(name, ty, m@),
                        None => Ok((false, seq![])),
                    };
                    match r {
                        Err(e) => Err(e),
                        Ok(x) => if x.0 {
                            Ok(consts + x.1)
                        } else {
                            Err(missing_key_message(name))
                        },
                    }
                }
            },
        }
    }
}

/// Checks every field: gives the key constants of all fields, in order, or
/// the first error.
pub open spec fn check_fields(fields: Seq<FieldDesc>) -> Result<Seq<(Seq<char>, Seq<char>)>, Seq<char>>
    decreases fields.len(),
{
    if fields.len() == 0 {
        Ok(seq![])
    } else {
        match check_fields(fields.drop_last()) {
            Err(e) => Err(e),
            Ok(consts) => {
                let f = fields.last();
                match check_attrs(f.name@, f.ty, f.attrs@) {
                    Err(e) => Err(e),
                    Ok(c) => Ok(consts + c),
                }
            },
        }
    }
}

/// The value of the argument `arg` after the arguments `metas`: the last
/// `arg = "..."`, else `cur`.
pub open spec fn metas_arg(metas: Seq<MetaDesc>, arg: Seq<char>, cur: Seq<char>) -> Seq<char>
    decreases metas.len(),
{
    if metas.len() == 0 {
        cur
    } else {
        let c = metas_arg(metas.drop_last(), arg, cur);
        match metas.last() {
            MetaDesc::NameValue { path, value } => if path_is(path, arg) {
                match value {
                    MetaValue::Str(s) | MetaValue::SuffixedStr(s, _) => s@,
                    _ => c,
                }
            } else {
                c
            },
            MetaDesc::Other => c,
        }
    }
}

/// The value of the argument `arg` of a field after its attributes
/// `attrs`, starting from `cur`.
pub open spec fn attrs_arg(attrs: Seq<AttrDesc>, arg: Seq<char>, cur: Seq<char>) -> Seq<char>
    decreases attrs.len(),
{
    if attrs.len() == 0 {
        cur
    } else {
        let prev = attrs_arg(attrs.drop_last(), arg, cur);
        let a = attrs.last();
        if a.observability && a.args is Some {
            metas_arg(a.args->0@, arg, prev)
        } else {
            prev
        }
    }
}

/// The key of a field: its last `key = "..."`, or empty.
pub open spec fn field_key_of(attrs: Seq<AttrDesc>) -> Seq<char> {
    attrs_arg(attrs, "key"@, ""@)
}

/// The field is recorded when the response arrives (its last
/// `phase = "..."` is `"response"`), not when the span is created.
pub open spec fn is_response_phase(attrs: Seq<AttrDesc>) -> bool {
    attrs_arg(attrs, "phase"@, ""@) == "response"@
}

/// How `create_span` reads a field's value.
#[derive(Debug, Clone, Copy, PartialEq, Eq)]
pub enum FieldValueKind {
    /// `Option<String>`, recorded as an optional string.
    OptionString,
    /// `Option<i64>`, recorded as an optional integer.
    OptionI64,
    /// `String`, recorded as a string.
    Str,
    /// `i64`, recorded as an integer.
    I64,
}

/// How a field of type `ty` is read, or the message of the failure.
pub open spec fn field_kind(name: Seq<char>, ty: TypeDesc) -> Result<FieldValueKind, Seq<char>> {
    if type_is_option(ty) {
        match type_option_inner(ty) {
            Some(i) => if type_is_string(i) {
                Ok(FieldValueKind::OptionString)
            } else if type_is_i64(i) {
                Ok(FieldValueKind::OptionI64)
            } else {
                Err(unsupported_inner_message(name))
            },
            None => Err(unwrap_none_message()),
        }
    } else if type_is_string(ty) {
        Ok(FieldValueKind::Str)
    } else if type_is_i64(ty) {
        Ok(FieldValueKind::I64)
    } else {
        Err(unsupported_type_message(name))
    }
}

/// The attributes of `create_span`: for each field with a non-empty key
/// that is not recorded in the response phase, its constant, its name, its
/// key and how it is read; or the first failure.
pub open spec fn span_fields(fields: Seq<FieldDesc>) -> Result<
    Seq<(Seq<char>, Seq<char>, Seq<char>, FieldValueKind)>,
    Seq<char>,
>
    decreases fields.len(),
{
    if fields.len() == 0 {
        Ok(seq![])
    } else {
        match span_fields(fields.drop_last()) {
            Err(e) => Err(e),
            Ok(acc) => {
                let f = fields.last();
                if field_key_of(f.attrs@).len() == 0 || is_response_phase(f.attrs@) {
                    Ok(acc)
                } else {
                    match field_kind(f.name@, f.ty) {
                        Err(e) => Err(e),
                        Ok(k) => Ok(acc.push((const_ident(f.name@), f.name@, field_key_of(f.attrs@), k))),
                    }
                }
            },
        }
    }
}

/// A key constant: its name and the attribute key it holds.
pub struct KeyConst {
    pub ident: String,
    pub key: String,
}

/// An attribute of the generated `create_span`: the key constant, the
/// field, the key, and how the field is read.
pub struct SpanField {
    pub const_ident: String,
    pub field: String,
    pub key: String,
    pub kind: FieldValueKind,
}

/// What the observability derive generates for a struct.
pub struct DerivePlan {
    pub span_name: String,
    pub key_consts: Vec<KeyConst>,
    pub span_fields: Vec<SpanField>,
}

/// The views of key constants.
pub open spec fn key_const_views(v: Seq<KeyConst>) -> Seq<(Seq<char>, Seq<char>)> {
    v.map_values(|k: KeyConst| (k.ident@, k.key@))
}

/// The views of span attributes.
pub open spec fn span_field_views(v: Seq<SpanField>) -> Seq<(Seq<char>, Seq<char>, Seq<char>, FieldValueKind)> {
    v.map_values(|f: SpanField| (f.const_ident@, f.field@, f.key@, f.kind))
}

/// The message for a struct whose fields are not named.
pub open spec fn unnamed_fields_message() -> Seq<char> {
    "Only structs with named fields are supported"@
}

/// The message for an item that is not a struct.
pub open spec fn not_struct_message() -> Seq<char> {
    "Only structs are supported"@
}

/// What the derive makes of `input`: the span name (the last
/// `#[observability(name = "...")]`, else the struct's name), the key
/// constants and the span attributes; or the message it stops with.
pub open spec fn derive_outcome(input: StructDesc) -> Result<
    (Seq<char>, Seq<(Seq<char>, Seq<char>)>, Seq<(Seq<char>, Seq<char>, Seq<char>, FieldValueKind)>),
    Seq<char>,
> {
    let span_name = attrs_name(input.attrs@, input.name@);
    match input.data {
        DataDesc::NamedStruct(fields) => match check_fields(fields@) {
            Err(e) => Err(e),
            Ok(consts) => match span_fields(fields@) {
                Err(e) => Err(e),
                Ok(sf) => Ok((span_name, consts, sf)),
            },
        },
        DataDesc::OtherStruct => Err(unnamed_fields_message()),
        DataDesc::NotStruct => Err(not_struct_message()),
    }
}

/// `r` is the plan, or the message, that the derive produces for `input`.
pub open spec fn derive_plan_for(r: Result<DerivePlan, String>, input: StructDesc) -> bool {
    match derive_outcome(input) {
        Ok(o) => r matches Ok(p) && p.span_name@ == o.0 && key_const_views(p.key_consts@) == o.1
            && span_field_views(p.span_fields@) == o.2,
        Err(e) => r matches Err(m) && m@ == e,
    }
}

fn span_name_of(attrs: &Vec<AttrDesc>, default: &str) -> (r: String)
    ensures
        r@ == attrs_name(attrs@, default@),
{
    let mut name = to_owned(default);
    let n = attrs.len();
    let mut i: usize = 0;
    assert(attrs@.subrange(0, 0) =~= Seq::<AttrDesc>::empty());
    while i < n
        invariant
            n == attrs@.len(),
            i <= n,
            name@ == attrs_name(attrs@.subrange(0, i as int), default@),
        decreases n - i,
    {
        let ghost pre = attrs@.subrange(0, i + 1);
        assert(pre.drop_last() =~= attrs@.subrange(0, i as int));
        let a = &attrs[i];
        if a.observability {
            match &a.args {
                Some(metas) => {
                    let m = metas.len();
                    let mut j: usize = 0;
                    let ghost start = name@;
                    assert(metas@.subrange(0, 0) =~= Seq::<MetaDesc>::empty());
                    while j < m
                        invariant
                            m == metas@.len(),
                            j <= m,
                            name@ == metas_name(metas@.subrange(0, j as int), start),
                        decreases m - j,
                    {
                        let ghost mp = metas@.subrange(0, j + 1);
                        assert(mp.drop_last() =~= metas@.subrange(0, j as int));
                        match &metas[j] {
                            MetaDesc::NameValue { path, value } => {
                                if path_is_exec(path, "name") {
                                    match value {
                                        MetaValue::Str(s) | MetaValue::SuffixedStr(s, _) => {
                                            name = s.clone();
                                        },
                                        _ => {},
                                    }
                                }
                            },
                            MetaDesc::Other => {},
                        }
                        j += 1;
                    }
                    assert(metas@.subrange(0, m as int) =~= metas@);
                },
                None => {},
            }
        }
        i += 1;
    }
    assert(attrs@.subrange(0, n as int) =~= attrs@);
    name
}

fn check_field_metas(name: &str, ty: &TypeDesc, metas: &Vec<MetaDesc>) -> (r: Result<
    (bool, Vec<KeyConst>),
    String,
>)
    ensures
        match check_metas(name@, *ty, metas@) {
            Ok(x) => r matches Ok(y) && y.0 == x.0 && key_const_views(y.1@) == x.1,
            Err(e) => r matches Err(m) && m@ == e,
        },
{
    let mut found = false;
    let mut consts: Vec<KeyConst> = Vec::new();
    let m = metas.len();
    let mut j: usize = 0;
    assert(metas@.subrange(0, 0) =~= Seq::<MetaDesc>::empty());
    assert(key_const_views(consts@) =~= Seq::<(Seq<char>, Seq<char>)>::empty());
    while j < m
        invariant
            m == metas@.len(),
            j <= m,
            check_metas(name@, *ty, metas@.subrange(0, j as int)) == Ok::<
                (bool, Seq<(Seq<char>, Seq<char>)>),
                Seq<char>,
            >((found, key_const_views(consts@))),
        decreases m - j,
    {
        let ghost mp = metas@.subrange(0, j + 1);
        assert(mp.drop_last() =~= metas@.subrange(0, j as int));
        match &metas[j] {
            MetaDesc::NameValue { path, value } => {
                if path_is_exec(path, "key") {
                    match value {
                        MetaValue::Str(k) | MetaValue::SuffixedStr(k, _) => {
                            if is_supported_type(ty) {
                                let ident = concat("KEY_", to_uppercase(name).as_str());
                                let ghost before = key_const_views(consts@);
                                consts.push(KeyConst { ident, key: k.clone() });
                                assert(key_const_views(consts@) =~= before.push(
                                    (const_ident(name@), k@),
                                ));
                                found = true;
                            } else {
                                let a = concat(
                                    "Unsupported field type for observability key on field: ",
                                    name,
                                );
                                let msg = concat(
                                    a.as_str(),
                                    ". Only String, i64, Option<String>, and Option<i64> are supported.",
                                );
                                assert(check_metas(name@, *ty, mp) is Err);
                                proof {
                                    lemma_check_metas_err_stays(name@, *ty, metas@, j + 1);
                                }
                                return Err(msg);
                            }
                        },
                        MetaValue::OtherLit => {
                            found = true;
                        },
                        MetaValue::NotLit => {
                            let msg = concat(
                                "Observability key must be a string literal on field: ",
                                name,
                            );
                            proof {
                                lemma_check_metas_err_stays(name@, *ty, metas@, j + 1);
                            }
                            return Err(msg);
                        },
                    }
                }
            },
            MetaDesc::Other => {},
        }
        j += 1;
    }
    assert(metas@.subrange(0, m as int) =~= metas@);
    Ok((found, consts))
}

proof fn lemma_check_metas_err_stays(name: Seq<char>, ty: TypeDesc, metas: Seq<MetaDesc>, k: int)
    requires
        0 <= k <= metas.len(),
        check_metas(name, ty, metas.subrange(0, k)) is Err,
    ensures
        check_metas(name, ty, metas) == check_metas(name, ty, metas.subrange(0, k)),
    decreases metas.len() - k,
{
    if k < metas.len() {
        let p = metas.subrange(0, k + 1);
        assert(p.drop_last() =~= metas.subrange(0, k));
        lemma_check_metas_err_stays(name, ty, metas, k + 1);
    } else {
        assert(metas.subrange(0, k) =~= metas);
    }
}

proof fn lemma_check_attrs_err_stays(name: Seq<char>, ty: TypeDesc, attrs: Seq<AttrDesc>, k: int)
    requires
        0 <= k <= attrs.len(),
        check_attrs(name, ty, attrs.subrange(0, k)) is Err,
    ensures
        check_attrs(name, ty, attrs) == check_attrs(name, ty, attrs.subrange(0, k)),
    decreases attrs.len() - k,
{
    if k < attrs.len() {
        let p = attrs.subrange(0, k + 1);
        assert(p.drop_last() =~= attrs.subrange(0, k));
        lemma_check_attrs_err_stays(name, ty, attrs, k + 1);
    } else {
        assert(attrs.subrange(0, k) =~= attrs);
    }
}

proof fn lemma_check_fields_err_stays(fields: Seq<FieldDesc>, k: int)
    requires
        0 <= k <= fields.len(),
        check_fields(fields.subrange(0, k)) is Err,
    ensures
        check_fields(fields) == check_fields(fields.subrange(0, k)),
    decreases fields.len() - k,
{
    if k < fields.len() {
        let p = fields.subrange(0, k + 1);
        assert(p.drop_last() =~= fields.subrange(0, k));
        lemma_check_fields_err_stays(fields, k + 1);
    } else {
        assert(fields.subrange(0, k) =~= fields);
    }
}

proof fn lemma_span_fields_err_stays(fields: Seq<FieldDesc>, k: int)
    requires
        0 <= k <= fields.len(),
        span_fields(fields.subrange(0, k)) is Err,
    ensures
        span_fields(fields) == span_fields(fields.subrange(0, k)),
    decreases fields.len() - k,
{
    if k < fields.len() {
        let p = fields.subrange(0, k + 1);
        assert(p.drop_last() =~= fields.subrange(0, k));
        lemma_span_fields_err_stays(fields, k + 1);
    } else {
        assert(fields.subrange(0, k) =~= fields);
    }
}

fn append_consts(dst: &mut Vec<KeyConst>, src: &Vec<KeyConst>)
    ensures
        key_const_views(final(dst)@) == key_const_views(old(dst)@) + key_const_views(src@),
{
    let ghost start = key_const_views(dst@);
    let ghost sv = key_const_views(src@);
    let n = src.len();
    let mut i: usize = 0;
    while i < n
        invariant
            n == src@.len(),
            sv == key_const_views(src@),
            i <= n,
            key_const_views(dst@) == start + sv.subrange(0, i as int),
        decreases n - i,
    {
        let ghost before = dst@;
        let item = KeyConst { ident: src[i].ident.clone(), key: src[i].key.clone() };
        assert((item.ident@, item.key@) == sv[i as int]);
        dst.push(item);
        assert(dst@ =~= before.push(item));
        assert(key_const_views(dst@) =~= key_const_views(before).push(sv[i as int]));
        assert(key_const_views(dst@) =~= start + sv.subrange(0, i + 1));
        i += 1;
    }
    assert(sv.subrange(0, n as int) =~= sv);
}

fn check_field_attrs(name: &str, ty: &TypeDesc, attrs: &Vec<AttrDesc>) -> (r: Result<
    Vec<KeyConst>,
    String,
>)
    ensures
        match check_attrs(name@, *ty, attrs@) {
            Ok(x) => r matches Ok(y) && key_const_views(y@) == x,
            Err(e) => r matches Err(m) && m@ == e,
        },
{
    let mut consts: Vec<KeyConst> = Vec::new();
    let n = attrs.len();
    let mut i: usize = 0;
    assert(attrs@.subrange(0, 0) =~= Seq::<AttrDesc>::empty());
    assert(key_const_views(consts@) =~= Seq::<(Seq<char>, Seq<char>)>::empty());
    while i < n
        invariant
            n == attrs@.len(),
            i <= n,
            check_attrs(name@, *ty, attrs@.subrange(0, i as int)) == Ok::<
                Seq<(Seq<char>, Seq<char>)>,
                Seq<char>,
            >(key_const_views(consts@)),
        decreases n - i,
    {
        let ghost pre = attrs@.subrange(0, i + 1);
        assert(pre.drop_last() =~= attrs@.subrange(0, i as int));
        let a = &attrs[i];
        if a.observability {
            let outcome = match &a.args {
                Some(metas) => check_field_metas(name, ty, metas),
                None => {
                    let empty: Vec<KeyConst> = Vec::new();
                    assert(key_const_views(empty@) =~= Seq::<(Seq<char>, Seq<char>)>::empty());
                    Ok((false, empty))
                },
            };
            match outcome {
                Err(e) => {
                    proof {
                        lemma_check_attrs_err_stays(name@, *ty, attrs@, i + 1);
                    }
                    return Err(e);
                },
                Ok((found, more)) => {
                    if !found {
                        proof {
                            lemma_check_attrs_err_stays(name@, *ty, attrs@, i + 1);
                        }
                        return Err(concat(
                            "Missing 'key' argument in #[observability] attribute on field: ",
                            name,
                        ));
                    }
                    append_consts(&mut consts, &more);
                },
            }
        }
        i += 1;
    }
    assert(attrs@.subrange(0, n as int) =~= attrs@);
    Ok(consts)
}

fn check_all_fields(fields: &Vec<FieldDesc>) -> (r: Result<Vec<KeyConst>, String>)
    ensures
        match check_fields(fields@) {
            Ok(x) => r matches Ok(y) && key_const_views(y@) == x,
            Err(e) => r matches Err(m) && m@ == e,
        },
{
    let mut consts: Vec<KeyConst> = Vec::new();
    let n = fields.len();
    let mut i: usize = 0;
    assert(fields@.subrange(0, 0) =~= Seq::<FieldDesc>::empty());
    assert(key_const_views(consts@) =~= Seq::<(Seq<char>, Seq<char>)>::empty());
    while i < n
        invariant
            n == fields@.len(),
            i <= n,
            check_fields(fields@.subrange(0, i as int)) == Ok::<
                Seq<(Seq<char>, Seq<char>)>,
                Seq<char>,
            >(key_const_views(consts@)),
        decreases n - i,
    {
        let ghost pre = fields@.subrange(0, i + 1);
        assert(pre.drop_last() =~= fields@.subrange(0, i as int));
        let f = &fields[i];
        match check_field_attrs(f.name.as_str(), &f.ty, &f.attrs) {
            Err(e) => {
                proof {
                    lemma_check_fields_err_stays(fields@, i + 1);
                }
                return Err(e);
            },
            Ok(more) => {
                append_consts(&mut consts, &more);
            },
        }
        i += 1;
    }
    assert(fields@.subrange(0, n as int) =~= fields@);
    Ok(consts)
}

fn field_arg(attrs: &Vec<AttrDesc>, arg: &str) -> (r: String)
    ensures
        r@ == attrs_arg(attrs@, arg@, ""@),
{
    proof {
        reveal_strlit("");
    }
    let mut key = String::new();
    let n = attrs.len();
    let mut i: usize = 0;
    assert(attrs@.subrange(0, 0) =~= Seq::<AttrDesc>::empty());
    while i < n
        invariant
            n == attrs@.len(),
            i <= n,
            key@ == attrs_arg(attrs@.subrange(0, i as int), arg@, ""@),
        decreases n - i,
    {
        let ghost pre = attrs@.subrange(0, i + 1);
        assert(pre.drop_last() =~= attrs@.subrange(0, i as int));
        let a = &attrs[i];
        if a.observability {
            match &a.args {
                Some(metas) => {
                    let m = metas.len();
                    let mut j: usize = 0;
                    let ghost start = key@;
                    assert(metas@.subrange(0, 0) =~= Seq::<MetaDesc>::empty());
                    while j < m
                        invariant
                            m == metas@.len(),
                            j <= m,
                            key@ == metas_arg(metas@.subrange(0, j as int), arg@, start),
                        decreases m - j,
                    {
                        let ghost mp = metas@.subrange(0, j + 1);
                        assert(mp.drop_last() =~= metas@.subrange(0, j as int));
                        match &metas[j] {
                            MetaDesc::NameValue { path, value } => {
                                if path_is_exec(path, arg) {
                                    match value {
                                        MetaValue::Str(s) | MetaValue::SuffixedStr(s, _) => {
                                            key = s.clone();
                                        },
                                        _ => {},
                                    }
                                }
                            },
                            MetaDesc::Other => {},
                        }
                        j += 1;
                    }
                    assert(metas@.subrange(0, m as int) =~= metas@);
                },
                None => {},
            }
        }
        i += 1;
    }
    assert(attrs@.subrange(0, n as int) =~= attrs@);
    key
}

fn field_value_kind(name: &str, ty: &TypeDesc) -> (r: Result<FieldValueKind, String>)
    ensures
        match field_kind(name@, *ty) {
            Ok(k) => r == Ok::<FieldValueKind, String>(k),
            Err(e) => r matches Err(m) && m@ == e,
        },
{
    if is_option_type(ty) {
        match get_option_inner_type(ty) {
            Some(inner) => {
                if is_string_type(inner) {
                    Ok(FieldValueKind::OptionString)
                } else if is_i64_type(inner) {
                    Ok(FieldValueKind::OptionI64)
                } else {
                    let a = concat("Unsupported Option inner type for observability key on field: ", name);
                    Err(concat(a.as_str(), ". Only String, i64, Option<String>, and Option<i64> are supported."))
                }
            },
            None => Err(to_owned("called `Option::unwrap()` on a `None` value")),
        }
    } else if is_string_type(ty) {
        Ok(FieldValueKind::Str)
    } else if is_i64_type(ty) {
        Ok(FieldValueKind::I64)
    } else {
        let a = concat("Unsupported field type for observability key on field: ", name);
        Err(concat(a.as_str(), ". Only String, i64, Option<String>, and Option<i64> are supported."))
    }
}

fn collect_span_fields(fields: &Vec<FieldDesc>) -> (r: Result<Vec<SpanField>, String>)
    ensures
        match span_fields(fields@) {
            Ok(x) => r matches Ok(y) && span_field_views(y@) == x,
            Err(e) => r matches Err(m) && m@ == e,
        },
{
    let mut out: Vec<SpanField> = Vec::new();
    let n = fields.len();
    let mut i: usize = 0;
    assert(fields@.subrange(0, 0) =~= Seq::<FieldDesc>::empty());
    assert(span_field_views(out@) =~= Seq::<(Seq<char>, Seq<char>, Seq<char>, FieldValueKind)>::empty());
    while i < n
        invariant
            n == fields@.len(),
            i <= n,
            span_fields(fields@.subrange(0, i as int)) == Ok::<
                Seq<(Seq<char>, Seq<char>, Seq<char>, FieldValueKind)>,
                Seq<char>,
            >(span_field_views(out@)),
        decreases n - i,
    {
        let ghost pre = fields@.subrange(0, i + 1);
        assert(pre.drop_last() =~= fields@.subrange(0, i as int));
        let f = &fields[i];
        let key = field_arg(&f.attrs, "key");
        let phase = field_arg(&f.attrs, "phase");
        proof {
            reveal_strlit("key");
            reveal_strlit("phase");
        }
        if !key.as_str().is_empty() && !str_eq(phase.as_str(), "response") {
            match field_value_kind(f.name.as_str(), &f.ty) {
                Err(e) => {
                    proof {
                        lemma_span_fields_err_stays(fields@, i + 1);
                    }
                    return Err(e);
                },
                Ok(kind) => {
                    let ident = concat("KEY_", to_uppercase(f.name.as_str()).as_str());
                    let ghost before = span_field_views(out@);
                    let ghost kv = key@;
                    out.push(SpanField { const_ident: ident, field: f.name.clone(), key, kind });
                    assert(span_field_views(out@) =~= before.push(
                        (const_ident(f.name@), f.name@, kv, kind),
                    ));
                },
            }
        }
        i += 1;
    }
    assert(fields@.subrange(0, n as int) =~= fields@);
    Ok(out)
}

/// Decides what the observability derive generates for `input`: the span
/// name, a key constant for each `key` argument, and the attributes of
/// `create_span`; or the message that rejects the input.
pub fn derive_observability_attributes(input: &StructDesc) -> (r: Result<DerivePlan, String>)
    ensures
        derive_plan_for(r, *input),
{
    let span_name = span_name_of(&input.attrs, input.name.as_str());
    match &input.data {
        DataDesc::NamedStruct(fields) => {
            match check_all_fields(fields) {
                Err(e) => Err(e),
                Ok(key_consts) => match collect_span_fields(fields) {
                    Err(e) => Err(e),
                    Ok(span_fields) => Ok(DerivePlan { span_name, key_consts, span_fields }),
                },
            }
        },
        DataDesc::OtherStruct => Err(to_owned("Only structs with named fields are supported")),
        DataDesc::NotStruct => Err(to_owned("Only structs are supported")),
    }
}

/// The value of a field of the deriving struct, as `create_span` reads it.
pub enum FieldValue {
    /// A `String` field.
    Str(String),
    /// An `i64` field.
    Int(i64),
    /// An `Option<String>` field.
    OptStr(Option<String>),
    /// An `Option<i64>` field.
    OptInt(Option<i64>),
}

/// What a field read as `kind` records for the value `v`: `Some(None)`
/// for an absent optional value (an absent `Option` records nothing),
/// `None` when the value does not have the field's type.
pub open spec fn field_value_attr(kind: FieldValueKind, v: FieldValue) -> Option<Option<AttrView>> {
    match kind {
        FieldValueKind::Str => match v {
            FieldValue::Str(s) => Some(Some(str_attr(s@))),
            _ => None,
        },
        FieldValueKind::I64 => match v {
            FieldValue::Int(i) => Some(Some(int_attr(i as int))),
            _ => None,
        },
        FieldValueKind::OptionString => match v {
            FieldValue::OptStr(o) => Some(
                match o {
                    Some(s) => Some(str_attr(s@)),
                    None => None,
                },
            ),
            _ => None,
        },
        FieldValueKind::OptionI64 => match v {
            FieldValue::OptInt(o) => Some(
                match o {
                    Some(i) => Some(int_attr(i as int)),
                    None => None,
                },
            ),
            _ => None,
        },
    }
}

/// The attributes a span created from `fields` carries for the values
/// `values` (one per field, in order): each present value under its
/// field's key. `None` when the values do not match the fields.
pub open spec fn span_attrs(
    fields: Seq<(Seq<char>, Seq<char>, Seq<char>, FieldValueKind)>,
    values: Seq<FieldValue>,
) -> Option<Seq<(Seq<char>, AttrView)>>
    decreases fields.len(),
{
    if fields.len() != values.len() {
        None
    } else if fields.len() == 0 {
        Some(seq![])
    } else {
        match span_attrs(fields.drop_last(), values.drop_last()) {
            None => None,
            Some(acc) => match field_value_attr(fields.last().3, values.last()) {
                None => None,
                Some(None) => Some(acc),
                Some(Some(a)) => Some(acc.push((fields.last().2, a))),
            },
        }
    }
}

/// The views of attribute pairs.
pub open spec fn attr_pair_views(v: Seq<(String, AttributeValue)>) -> Seq<(Seq<char>, AttrView)> {
    v.map_values(|p: (String, AttributeValue)| (p.0@, p.1@))
}

proof fn lemma_span_attrs_none_stays(
    fields: Seq<(Seq<char>, Seq<char>, Seq<char>, FieldValueKind)>,
    values: Seq<FieldValue>,
    k: int,
)
    requires
        fields.len() == values.len(),
        0 <= k <= fields.len(),
        span_attrs(fields.subrange(0, k), values.subrange(0, k)) is None,
    ensures
        span_attrs(fields, values) is None,
    decreases fields.len() - k,
{
    if k < fields.len() {
        assert(fields.subrange(0, k + 1).drop_last() =~= fields.subrange(0, k));
        assert(values.subrange(0, k + 1).drop_last() =~= values.subrange(0, k));
        lemma_span_attrs_none_stays(fields, values, k + 1);
    } else {
        assert(fields.subrange(0, k) =~= fields);
        assert(values.subrange(0, k) =~= values);
    }
}

impl DerivePlan {
    /// The attributes the generated `create_span` gives its span for a
    /// struct whose fields hold `values` (one per attribute of the plan,
    /// in order): each present value under its key; an absent optional
    /// value records nothing. `None` when the values do not fit the plan.
    pub fn span_attributes(&self, values: &Vec<FieldValue>) -> (r: Option<Vec<(String, AttributeValue)>>)
        ensures
            match span_attrs(span_field_views(self.span_fields@), values@) {
                Some(a) => r matches Some(v) && attr_pair_views(v@) == a,
                None => r is None,
            },
    {
        let ghost fv = span_field_views(self.span_fields@);
        let n = self.span_fields.len();
        if values.len() != n {
            return None;
        }
        let mut out: Vec<(String, AttributeValue)> = Vec::new();
        let mut i: usize = 0;
        assert(fv.subrange(0, 0) =~= Seq::<(Seq<char>, Seq<char>, Seq<char>, FieldValueKind)>::empty());
        assert(values@.subrange(0, 0) =~= Seq::<FieldValue>::empty());
        assert(attr_pair_views(out@) =~= Seq::<(Seq<char>, AttrView)>::empty());
        while i < n
            invariant
                n == self.span_fields@.len(),
                n == values@.len(),
                fv == span_field_views(self.span_fields@),
                i <= n,
                span_attrs(fv.subrange(0, i as int), values@.subrange(0, i as int)) == Some(
                    attr_pair_views(out@),
                ),
            decreases n - i,
        {
            let ghost fp = fv.subrange(0, i + 1);
            let ghost vp = values@.subrange(0, i + 1);
            assert(fp.drop_last() =~= fv.subrange(0, i as int));
            assert(vp.drop_last() =~= values@.subrange(0, i as int));
            let f = &self.span_fields[i];
            let ghost before = out@;
            let fits: bool = match (&f.kind, &values[i]) {
                (FieldValueKind::Str, FieldValue::Str(s)) => {
                    out.push((f.key.clone(), AttributeValue::Str(s.clone())));
                    true
                },
                (FieldValueKind::I64, FieldValue::Int(v)) => {
                    out.push((f.key.clone(), AttributeValue::Int(*v)));
                    true
                },
                (FieldValueKind::OptionString, FieldValue::OptStr(o)) => {
                    match o {
                        Some(s) => {
                            out.push((f.key.clone(), AttributeValue::Str(s.clone())));
                        },
                        None => {},
                    }
                    true
                },
                (FieldValueKind::OptionI64, FieldValue::OptInt(o)) => {
                    match o {
                        Some(v) => {
                            out.push((f.key.clone(), AttributeValue::Int(*v)));
                        },
                        None => {},
                    }
                    true
                },
                _ => false,
            };
            if !fits {
                proof {
                    lemma_span_attrs_none_stays(fv, values@, i + 1);
                }
                return None;
            }
            assert(out@.len() == before.len() ==> attr_pair_views(out@) =~= attr_pair_views(before));
            assert(out@.len() == before.len() + 1 ==> attr_pair_views(out@) =~= attr_pair_views(
                before,
            ).push(attr_pair_views(out@).last()));
            i += 1;
        }
        assert(fv.subrange(0, n as int) =~= fv);
        assert(values@.subrange(0, n as int) =~= values@);
        Some(out)
    }
}

/// What `syn::parse_str::<syn::Ident>` makes of a text: the identifier's
/// text, or the error message.
pub uninterp spec fn ident_parse(s: Seq<char>) -> Result<Seq<char>, Seq<char>>;

/// Parses `s` as an identifier with `syn::parse_str::<syn::Ident>`. The
/// contract claims only that the outcome is the one `ident_parse` names.
#[verifier::external_body]
fn parse_ident(s: &str) -> (r: Result<String, String>)
    ensures
        match r {
            Ok(i) => ident_parse(s@) == Ok::<Seq<char>, Seq<char>>(i@),
            Err(m) => ident_parse(s@) == Err::<Seq<char>, Seq<char>>(m@),
        },
{
    match syn::parse_str::<syn::Ident>(s) {
        Ok(ident) => Ok(ident.to_string()),
        Err(e) => Err(e.to_string()),
    }
}

/// The arguments of the key/field sync attribute: the struct whose fields
/// the keys must match, and the prefix of the key constants.
pub struct MacroArgs {
    pub struct_name: String,
    pub key_prefix: String,
}

/// The state of reading the attribute's arguments: the struct name so far
/// and the key prefix so far.
pub open spec fn args_step(
    acc: Result<(Option<Seq<char>>, Seq<char>), Seq<char>>,
    meta: MetaDesc,
) -> Result<(Option<Seq<char>>, Seq<char>), Seq<char>> {
    match acc {
        Err(e) => Err(e),
        Ok(st) => match meta {
            MetaDesc::NameValue { path, value } => if path_is(path, "struct_name"@) {
                match value {
                    MetaValue::Str(s) => if st.0 is Some {
                        Err("Duplicate struct_name argument"@)
                    } else {
                        match ident_parse(s@) {
                            Ok(i) => Ok((Some(i), st.1)),
                            Err(m) => Err(m),
                        }
                    },
                    MetaValue::SuffixedStr(s, suffix) => if st.0 is Some {
                        Err("Duplicate struct_name argument"@)
                    } else {
                        match ident_parse(s@) {
                            Ok(_) => Err(suffix_message(suffix@)),
                            Err(m) => Err(m),
                        }
                    },
                    MetaValue::OtherLit => Err("Expected string literal for struct_name"@),
                    MetaValue::NotLit => Err("Expected literal for struct_name"@),
                }
            } else if path_is(path, "key_prefix"@) {
                match value {
                    MetaValue::Str(s) | MetaValue::SuffixedStr(s, _) => Ok((st.0, s@)),
                    MetaValue::OtherLit => Err("Expected string literal for key_prefix"@),
                    MetaValue::NotLit => Err("Expected literal for key_prefix"@),
                }
            } else {
                Err("Unknown argument"@)
            },
            MetaDesc::Other => Err("Expected name-value argument, e.g., struct_name = \"MyStruct\""@),
        },
    }
}

/// The message for a string literal with a suffix where the literal's text
/// is parsed, as `syn::LitStr::parse` reports it.
pub open spec fn suffix_message(suffix: Seq<char>) -> Seq<char> {
    "unexpected suffix `"@ + suffix + "` on string literal"@
}

/// The state after reading `metas` in order, from the default prefix `KEY`.
pub open spec fn args_read(metas: Seq<MetaDesc>) -> Result<(Option<Seq<char>>, Seq<char>), Seq<char>>
    decreases metas.len(),
{
    if metas.len() == 0 {
        Ok((None, "KEY"@))
    } else {
        args_step(args_read(metas.drop_last()), metas.last())
    }
}

/// `r` is what reading the attribute arguments `metas` gives: the struct
/// name (required) and the key prefix, or the first error.
pub open spec fn macro_args_for(r: Result<MacroArgs, String>, metas: Seq<MetaDesc>) -> bool {
    match args_read(metas) {
        Err(e) => r matches Err(m) && m@ == e,
        Ok(st) => match st.0 {
            None => r matches Err(m) && m@ == "Missing required argument: struct_name"@,
            Some(n) => r matches Ok(a) && a.struct_name@ == n && a.key_prefix@ == st.1,
        },
    }
}

proof fn lemma_args_err_stays(metas: Seq<MetaDesc>, k: int)
    requires
        0 <= k <= metas.len(),
        args_read(metas.subrange(0, k)) is Err,
    ensures
        args_read(metas) == args_read(metas.subrange(0, k)),
    decreases metas.len() - k,
{
    if k < metas.len() {
        let p = metas.subrange(0, k + 1);
        assert(p.drop_last() =~= metas.subrange(0, k));
        lemma_args_err_stays(metas, k + 1);
    } else {
        assert(metas.subrange(0, k) =~= metas);
    }
}

impl MacroArgs {
    /// Reads the attribute's `name = value` arguments: `struct_name` (a
    /// string literal naming an identifier, given once) and `key_prefix`
    /// (a string literal, `KEY` by default).
    pub fn parse(metas: &Vec<MetaDesc>) -> (r: Result<MacroArgs, String>)
        ensures
            macro_args_for(r, metas@),
    {
        let mut struct_name: Option<String> = None;
        let mut key_prefix = to_owned("KEY");
        let n = metas.len();
        let mut i: usize = 0;
        assert(metas@.subrange(0, 0) =~= Seq::<MetaDesc>::empty());
        while i < n
            invariant
                n == metas@.len(),
                i <= n,
                args_read(metas@.subrange(0, i as int)) == Ok::<
                    (Option<Seq<char>>, Seq<char>),
                    Seq<char>,
                >(
                    (
                        match struct_name {
                            Some(s) => Some(s@),
                            None => None,
                        },
                        key_prefix@,
                    ),
                ),
            decreases n - i,
        {
            let ghost pre = metas@.subrange(0, i + 1);
            assert(pre.drop_last() =~= metas@.subrange(0, i as int));
            let err: Option<String> = match &metas[i] {
                MetaDesc::NameValue { path, value } => {
                    if path_is_exec(path, "struct_name") {
                        match value {
                            MetaValue::Str(s) => {
                                if struct_name.is_some() {
                                    Some(to_owned("Duplicate struct_name argument"))
                                } else {
                                    match parse_ident(s.as_str()) {
                                        Ok(ident) => {
                                            struct_name = Some(ident);
                                            None
                                        },
                                        Err(m) => Some(m),
                                    }
                                }
                            },
                            MetaValue::SuffixedStr(s, suffix) => {
                                if struct_name.is_some() {
                                    Some(to_owned("Duplicate struct_name argument"))
                                } else {
                                    match parse_ident(s.as_str()) {
                                        Ok(_) => {
                                            let a = concat("unexpected suffix `", suffix.as_str());
                                            Some(concat(a.as_str(), "` on string literal"))
                                        },
                                        Err(m) => Some(m),
                                    }
                                }
                            },
                            MetaValue::OtherLit => Some(to_owned("Expected string literal for struct_name")),
                            MetaValue::NotLit => Some(to_owned("Expected literal for struct_name")),
                        }
                    } else if path_is_exec(path, "key_prefix") {
                        match value {
                            MetaValue::Str(s) | MetaValue::SuffixedStr(s, _) => {
                                key_prefix = s.clone();
                                None
                            },
                            MetaValue::OtherLit => Some(to_owned("Expected string literal for key_prefix")),
                            MetaValue::NotLit => Some(to_owned("Expected literal for key_prefix")),
                        }
                    } else {
                        Some(to_owned("Unknown argument"))
                    }
                },
                MetaDesc::Other => Some(
                    to_owned("Expected name-value argument, e.g., struct_name = \"MyStruct\""),
                ),
            };
            match err {
                Some(m) => {
                    proof {
                        lemma_args_err_stays(metas@, i + 1);
                    }
                    return Err(m);
                },
                None => {},
            }
            i += 1;
        }
        assert(metas@.subrange(0, n as int) =~= metas@);
        match struct_name {
            Some(name) => Ok(MacroArgs { struct_name: name, key_prefix }),
            None => Err(to_owned("Missing required argument: struct_name")),
        }
    }
}

proof fn lemma_unsupported_metas_keep_key(name: Seq<char>, ty: TypeDesc, metas: Seq<MetaDesc>, cur: Seq<char>)
    requires
        check_metas(name, ty, metas) is Ok,
        !type_is_supported(ty),
    ensures
        metas_arg(metas, "key"@, cur) == cur,
    decreases metas.len(),
{
    if metas.len() > 0 {
        lemma_unsupported_metas_keep_key(name, ty, metas.drop_last(), cur);
    }
}

proof fn lemma_unsupported_attrs_keep_key(name: Seq<char>, ty: TypeDesc, attrs: Seq<AttrDesc>)
    requires
        check_attrs(name, ty, attrs) is Ok,
        !type_is_supported(ty),
    ensures
        attrs_arg(attrs, "key"@, ""@) == ""@,
    decreases attrs.len(),
{
    if attrs.len() > 0 {
        lemma_unsupported_attrs_keep_key(name, ty, attrs.drop_last());
        let a = attrs.last();
        if a.observability && a.args is Some {
            lemma_unsupported_metas_keep_key(name, ty, a.args->0@, attrs_arg(attrs.drop_last(), "key"@, ""@));
        }
    }
}

proof fn lemma_supported_type_has_kind(name: Seq<char>, ty: TypeDesc)
    requires
        type_is_supported(ty),
    ensures
        field_kind(name, ty) is Ok,
{
    reveal_strlit("String");
    reveal_strlit("Option");
    reveal_strlit("i64");
    if type_is_option(ty) {
        match ty {
            TypeDesc::Path(p) => {
                if path_ident(p) is Some {
                    assert(p.segments@.last() == p.segments@[0]);
                    assert("String"@[0] != "Option"@[0]);
                    assert("String"@ != "Option"@);
                    assert("i64"@ != "Option"@);
                    assert(!type_is_string(ty));
                    assert(!type_is_i64(ty));
                }
            },
            TypeDesc::Other => {},
        }
    }
}

/// The span attribute `a` comes from one of `fields` that has a non-empty
/// key and is not recorded in the response phase: it names that field and
/// carries its key.
pub open spec fn attr_from_created_field(
    fields: Seq<FieldDesc>,
    a: (Seq<char>, Seq<char>, Seq<char>, FieldValueKind),
) -> bool {
    exists|i: int|
        0 <= i < fields.len() && (#[trigger] fields[i]).name@ == a.1 && field_key_of(fields[i].attrs@)
            == a.2 && a.2.len() > 0 && !is_response_phase(fields[i].attrs@)
}

/// Every attribute of the created span comes from a field with a non-empty
/// key that is not recorded in the response phase, under that field's key:
/// response-phase fields never appear when the span is created.
pub proof fn lemma_span_attributes_exclude_response_phase(fields: Seq<FieldDesc>)
    requires
        span_fields(fields) is Ok,
    ensures
        forall|j: int|
            0 <= j < span_fields(fields)->Ok_0.len() ==> attr_from_created_field(
                fields,
                #[trigger] span_fields(fields)->Ok_0[j],
            ),
    decreases fields.len(),
{
    if fields.len() > 0 {
        let p = fields.drop_last();
        lemma_span_attributes_exclude_response_phase(p);
        let sf = span_fields(fields)->Ok_0;
        let sp = span_fields(p)->Ok_0;
        let n = fields.len() - 1;
        assert forall|j: int| 0 <= j < sf.len() implies attr_from_created_field(fields, #[trigger] sf[j]) by {
            if j < sp.len() {
                assert(sf[j] == sp[j]);
                assert(attr_from_created_field(p, sp[j]));
                let i = choose|i: int|
                    0 <= i < p.len() && (#[trigger] p[i]).name@ == sp[j].1 && field_key_of(p[i].attrs@)
                        == sp[j].2 && sp[j].2.len() > 0 && !is_response_phase(p[i].attrs@);
                assert(fields[i] == p[i]);
            } else {
                assert(fields[n] == fields.last());
            }
        }
    }
}

/// When every field passes the key checks, every keyed field has a type
/// that `create_span` can read: the derive never fails after its checks
/// pass.
pub proof fn lemma_checked_fields_have_span_attributes(fields: Seq<FieldDesc>)
    requires
        check_fields(fields) is Ok,
    ensures
        span_fields(fields) is Ok,
    decreases fields.len(),
{
    if fields.len() > 0 {
        lemma_checked_fields_have_span_attributes(fields.drop_last());
        let f = fields.last();
        if field_key_of(f.attrs@).len() != 0 && !is_response_phase(f.attrs@) {
            if !type_is_supported(f.ty) {
                lemma_unsupported_attrs_keep_key(f.name@, f.ty, f.attrs@);
                reveal_strlit("");
            }
            lemma_supported_type_has_kind(f.name@, f.ty);
        }
    }
}

} // verus!
