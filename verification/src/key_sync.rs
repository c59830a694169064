//! The key/field sync attribute: a module's key constants must match the
//! fields of its struct one to one.

use vstd::prelude::*;
use crate::macros::{args_read, upper_case, to_uppercase, MacroArgs, MetaDesc};
use crate::text::{concat, strip_prefix, strip_prefix_spec, str_eq};

verus! {

/// One item of the annotated module, as the attribute reads it.
pub enum ItemDesc {
    /// A struct: its name and the names of its named fields, in order.
    Struct { name: String, fields: Vec<String> },
    /// A constant: its name, and whether its type is `&str` (with any
    /// lifetime).
    Const { name: String, is_str: bool },
    /// Any other item.
    Other,
}

/// The string views of a list of strings.
pub open spec fn names_view(v: Seq<String>) -> Seq<Seq<char>> {
    v.map_values(|s: String| s@)
}

/// The position of the first struct named `name` at or after `from`, or
/// the number of items when there is none.
pub open spec fn first_struct(items: Seq<ItemDesc>, name: Seq<char>, from: int) -> int
    decreases items.len() - from,
{
    if from < 0 || from >= items.len() {
        items.len() as int
    } else if items[from] matches ItemDesc::Struct { name: n, .. } && n@ == name {
        from
    } else {
        first_struct(items, name, from + 1)
    }
}

/// The constant name is a key name for `prefix`: it starts with the prefix
/// and `_`.
pub open spec fn is_key_name(name: Seq<char>, prefix: Seq<char>) -> bool {
    strip_prefix_spec(name, prefix + "_"@) is Some
}

/// The key constants of `items` for `prefix`, in order: their names and
/// whether their type is `&str`.
pub open spec fn key_consts(items: Seq<ItemDesc>, prefix: Seq<char>) -> Seq<(Seq<char>, bool)>
    decreases items.len(),
{
    if items.len() == 0 {
        seq![]
    } else {
        let prev = key_consts(items.drop_last(), prefix);
        match items.last() {
            ItemDesc::Const { name, is_str } => if is_key_name(name@, prefix) {
                prev.push((name@, is_str))
            } else {
                prev
            },
            _ => prev,
        }
    }
}

/// The key constant name that the field `field` needs: the prefix, `_` and
/// the field's name in upper case.
pub open spec fn key_for_field(prefix: Seq<char>, field: Seq<char>) -> Seq<char> {
    prefix + "_"@ + upper_case(field)
}

/// The key constant names that the fields need, in field order.
pub open spec fn field_keys(fields: Seq<Seq<char>>, prefix: Seq<char>) -> Seq<Seq<char>> {
    fields.map_values(|f: Seq<char>| key_for_field(prefix, f))
}

/// The position of the first key constant at or after `from` whose type is
/// not `&str`, or the number of constants.
pub open spec fn first_not_str(consts: Seq<(Seq<char>, bool)>, from: int) -> int
    decreases consts.len() - from,
{
    if from < 0 || from >= consts.len() {
        consts.len() as int
    } else if !consts[from].1 {
        from
    } else {
        first_not_str(consts, from + 1)
    }
}

/// The position of the first name of `xs` at or after `from` that `ys`
/// does not hold, or the length of `xs`.
pub open spec fn first_missing(xs: Seq<Seq<char>>, ys: Seq<Seq<char>>, from: int) -> int
    decreases xs.len() - from,
{
    if from < 0 || from >= xs.len() {
        xs.len() as int
    } else if !ys.contains(xs[from]) {
        from
    } else {
        first_missing(xs, ys, from + 1)
    }
}

/// The message for a missing struct.
pub open spec fn struct_not_found_message(name: Seq<char>) -> Seq<char> {
    "Struct `"@ + name + "` not found in the module"@
}

/// The message for a module without key constants.
pub open spec fn no_keys_message(prefix: Seq<char>) -> Seq<char> {
    "No key constants with prefix `"@ + prefix + "_` found in the module"@
}

/// The message for a key constant whose type is not `&str`.
pub open spec fn key_type_message(name: Seq<char>) -> Seq<char> {
    "Key constant `"@ + name + "` must have type `&str`"@
}

/// The message for a key constant that names no field.
pub open spec fn key_without_field_message(name: Seq<char>, struct_name: Seq<char>) -> Seq<char> {
    "Key constant `"@ + name + "` has no matching field in struct `"@ + struct_name + "`"@
}

/// The message for a field without its key constant.
pub open spec fn field_without_key_message(field: Seq<char>, struct_name: Seq<char>, key: Seq<char>) -> Seq<
    char,
> {
    "Field `"@ + field + "` of struct `"@ + struct_name + "` has no key constant `"@ + key + "`"@
}

/// What checking `items` against the struct `struct_name` and the key
/// prefix `prefix` gives, in this order: the struct must be present, the
/// module must hold a key constant, every key constant must have type
/// `&str`, every key constant must name a field, and every field must have
/// its key constant. The first failure gives its message.
pub open spec fn sync_outcome(items: Seq<ItemDesc>, struct_name: Seq<char>, prefix: Seq<char>) -> Result<
    (),
    Seq<char>,
> {
    let si = first_struct(items, struct_name, 0);
    if si >= items.len() {
        Err(struct_not_found_message(struct_name))
    } else {
        let fields = match items[si] {
            ItemDesc::Struct { fields, .. } => names_view(fields@),
            _ => seq![],
        };
        let consts = key_consts(items, prefix);
        let names = consts.map_values(|c: (Seq<char>, bool)| c.0);
        let keys = field_keys(fields, prefix);
        let w = first_not_str(consts, 0);
        let u = first_missing(names, keys, 0);
        let f = first_missing(keys, names, 0);
        if consts.len() == 0 {
            Err(no_keys_message(prefix))
        } else if w < consts.len() {
            Err(key_type_message(consts[w].0))
        } else if u < names.len() {
            Err(key_without_field_message(names[u], struct_name))
        } else if f < keys.len() {
            Err(field_without_key_message(fields[f], struct_name, keys[f]))
        } else {
            Ok(())
        }
    }
}

/// `r` is what the attribute with arguments `args` makes of a module with
/// `items`: the argument error, or the outcome of the check.
pub open spec fn sync_result(r: Result<(), String>, args: Seq<MetaDesc>, items: Seq<ItemDesc>) -> bool {
    match args_read(args) {
        Err(e) => r matches Err(m) && m@ == e,
        Ok(st) => match st.0 {
            None => r matches Err(m) && m@ == "Missing required argument: struct_name"@,
            Some(name) => match sync_outcome(items, name, st.1) {
                Ok(()) => r is Ok,
                Err(e) => r matches Err(m) && m@ == e,
            },
        },
    }
}

fn contains_name(v: &Vec<String>, s: &str) -> (r: bool)
    ensures
        r == names_view(v@).contains(s@),
{
    let n = v.len();
    let mut i: usize = 0;
    while i < n
        invariant
            n == v@.len(),
            i <= n,
            forall|k: int| 0 <= k < i ==> v@[k]@ != s@,
        decreases n - i,
    {
        if str_eq(v[i].as_str(), s) {
            assert(names_view(v@)[i as int] == s@);
            return true;
        }
        i += 1;
    }
    proof {
        if names_view(v@).contains(s@) {
            let k = choose|k: int| 0 <= k < names_view(v@).len() && names_view(v@)[k] == s@;
            assert(v@[k]@ == s@);
        }
    }
    false
}

proof fn lemma_first_missing_skip(xs: Seq<Seq<char>>, ys: Seq<Seq<char>>, from: int, upto: int)
    requires
        0 <= from <= upto <= xs.len(),
        forall|j: int| from <= j < upto ==> ys.contains(#[trigger] xs[j]),
    ensures
        first_missing(xs, ys, from) == first_missing(xs, ys, upto),
    decreases upto - from,
{
    if from < upto {
        lemma_first_missing_skip(xs, ys, from + 1, upto);
    }
}

/// The position of the first name of `xs` that `ys` does not hold, or the
/// length of `xs`.
fn find_missing(xs: &Vec<String>, ys: &Vec<String>) -> (r: usize)
    ensures
        r as int == first_missing(names_view(xs@), names_view(ys@), 0),
{
    let ghost xv = names_view(xs@);
    let ghost yv = names_view(ys@);
    let n = xs.len();
    let mut i: usize = 0;
    while i < n
        invariant
            n == xs@.len(),
            xv == names_view(xs@),
            yv == names_view(ys@),
            i <= n,
            first_missing(xv, yv, 0) == first_missing(xv, yv, i as int),
        decreases n - i,
    {
        if !contains_name(ys, xs[i].as_str()) {
            assert(first_missing(xv, yv, i as int) == i);
            return i;
        }
        proof {
            assert(yv.contains(xv[i as int]));
            lemma_first_missing_skip(xv, yv, i as int, i + 1);
        }
        i += 1;
    }
    n
}

/// The key constant names that the fields need, in field order.
fn keys_of_fields(fields: &Vec<String>, prefix: &str) -> (r: Vec<String>)
    ensures
        names_view(r@) == field_keys(names_view(fields@), prefix@),
{
    let n = fields.len();
    let mut out: Vec<String> = Vec::new();
    let mut i: usize = 0;
    let head = concat(prefix, "_");
    while i < n
        invariant
            n == fields@.len(),
            head@ == prefix@ + "_"@,
            i <= n,
            names_view(out@) == field_keys(names_view(fields@), prefix@).subrange(0, i as int),
        decreases n - i,
    {
        let ghost before = names_view(out@);
        let k = concat(head.as_str(), to_uppercase(fields[i].as_str()).as_str());
        out.push(k);
        assert(names_view(out@) =~= before.push(key_for_field(prefix@, fields@[i as int]@)));
        assert(field_keys(names_view(fields@), prefix@).subrange(0, i + 1) =~= field_keys(
            names_view(fields@),
            prefix@,
        ).subrange(0, i as int).push(key_for_field(prefix@, fields@[i as int]@)));
        i += 1;
    }
    assert(field_keys(names_view(fields@), prefix@).subrange(0, n as int) =~= field_keys(
        names_view(fields@),
        prefix@,
    ));
    out
}

/// Checks the module's items against the struct `struct_name` and the key
/// prefix `prefix`.
pub fn check_keys_and_fields(items: &Vec<ItemDesc>, struct_name: &str, prefix: &str) -> (r: Result<
    (),
    String,
>)
    ensures
        match sync_outcome(items@, struct_name@, prefix@) {
            Ok(()) => r is Ok,
            Err(e) => r matches Err(m) && m@ == e,
        },
{
    let n = items.len();
    // The struct.
    let mut si: usize = 0;
    let mut found = false;
    while si < n && !found
        invariant
            n == items@.len(),
            si <= n,
            found ==> (si < n && (items@[si as int] matches ItemDesc::Struct { name: x, .. } && x@
                == struct_name@)),
            first_struct(items@, struct_name@, 0) == first_struct(items@, struct_name@, si as int),
        decreases n - si + (if found { 0int } else { 1int }),
    {
        let hit = match &items[si] {
            ItemDesc::Struct { name, .. } => str_eq(name.as_str(), struct_name),
            _ => false,
        };
        if hit {
            found = true;
        } else {
            si += 1;
        }
    }
    if !found {
        let a = concat("Struct `", struct_name);
        return Err(concat(a.as_str(), "` not found in the module"));
    }
    assert(first_struct(items@, struct_name@, si as int) == si);
    let fields: &Vec<String> = match &items[si] {
        ItemDesc::Struct { fields, .. } => fields,
        _ => {
            assert(false);
            return Err(String::new());
        },
    };
    // The key constants.
    let key_head = concat(prefix, "_");
    let mut names: Vec<String> = Vec::new();
    let mut types: Vec<bool> = Vec::new();
    let mut i: usize = 0;
    assert(items@.subrange(0, 0) =~= Seq::<ItemDesc>::empty());
    while i < n
        invariant
            n == items@.len(),
            key_head@ == prefix@ + "_"@,
            i <= n,
            names@.len() == types@.len(),
            key_consts(items@.subrange(0, i as int), prefix@) == Seq::new(
                names@.len(),
                |k: int| (names@[k]@, types@[k]),
            ),
        decreases n - i,
    {
        let ghost pre = items@.subrange(0, i + 1);
        assert(pre.drop_last() =~= items@.subrange(0, i as int));
        let ghost before = key_consts(items@.subrange(0, i as int), prefix@);
        match &items[i] {
            ItemDesc::Const { name, is_str } => {
                if strip_prefix(name.as_str(), key_head.as_str()).is_some() {
                    names.push(name.clone());
                    types.push(*is_str);
                    assert(Seq::new(names@.len(), |k: int| (names@[k]@, types@[k])) =~= before.push(
                        (name@, *is_str),
                    ));
                }
            },
            _ => {},
        }
        i += 1;
    }
    assert(items@.subrange(0, n as int) =~= items@);
    let ghost consts = key_consts(items@, prefix@);
    assert(names_view(names@) =~= consts.map_values(|c: (Seq<char>, bool)| c.0));
    if names.len() == 0 {
        let a = concat("No key constants with prefix `", prefix);
        return Err(concat(a.as_str(), "_` found in the module"));
    }
    // Their types.
    let m = names.len();
    let mut w: usize = 0;
    while w < m
        invariant
            m == names@.len(),
            m == types@.len(),
            consts == Seq::new(names@.len(), |k: int| (names@[k]@, types@[k])),
            consts == key_consts(items@, prefix@),
            n == items@.len(),
            si < n,
            first_struct(items@, struct_name@, 0) == si,
            w <= m,
            first_not_str(consts, 0) == first_not_str(consts, w as int),
        decreases m - w,
    {
        if !types[w] {
            assert(first_not_str(consts, w as int) == w);
            assert(consts[w as int].0 == names@[w as int]@);
            let a = concat("Key constant `", names[w].as_str());
            return Err(concat(a.as_str(), "` must have type `&str`"));
        }
        w += 1;
    }
    // Keys against fields, both ways.
    let keys = keys_of_fields(fields, prefix);
    let u = find_missing(&names, &keys);
    if u < m {
        let a = concat("Key constant `", names[u].as_str());
        let b = concat(a.as_str(), "` has no matching field in struct `");
        let c = concat(b.as_str(), struct_name);
        return Err(concat(c.as_str(), "`"));
    }
    let f = find_missing(&keys, &names);
    if f < keys.len() {
        let a = concat("Field `", fields[f].as_str());
        let b = concat(a.as_str(), "` of struct `");
        let c = concat(b.as_str(), struct_name);
        let d = concat(c.as_str(), "` has no key constant `");
        let e = concat(d.as_str(), keys[f].as_str());
        return Err(concat(e.as_str(), "`"));
    }
    Ok(())
}

/// The key/field sync attribute on a module with `items`: reads the
/// arguments (`struct_name`, and `key_prefix`, `KEY` by default) and checks
/// that the module's key constants match the struct's fields one to one.
/// On `Ok` the module is emitted unchanged; otherwise the message is the
/// compile error.
pub fn ensure_keys_and_fields_in_sync(args: &Vec<MetaDesc>, items: &Vec<ItemDesc>) -> (r: Result<
    (),
    String,
>)
    ensures
        sync_result(r, args@, items@),
{
    match MacroArgs::parse(args) {
        Err(e) => Err(e),
        Ok(a) => check_keys_and_fields(items, a.struct_name.as_str(), a.key_prefix.as_str()),
    }
}

} // verus!
