//! What every annotation shares: reading the argument text, inspecting the
//! decorations of the annotated item, and the two rewrites.

use vstd::prelude::*;
use crate::env::var_names;
use crate::error::ConfigError;
use crate::item::{
    check_before_attrs, has_test_attr, has_test_cfg, marked_serial, marked_test, marked_test_cfg,
    Attribute, Item,
};
use crate::reason::verdict_view;
use crate::text::{append_str, chars_of, string_of, string_views, views};
use crate::trim::{parse_entries, remove_char, without};

verus! {

/// The entries of the argument text `attr_str`, each without the white space
/// around it.
pub fn sanitize_env_vars_attr(attr_str: &str) -> (out: Vec<String>)
    ensures
        string_views(out@) == var_names(attr_str@),
{
    let attr = chars_of(attr_str);
    let names = parse_entries(&attr);
    let mut out: Vec<String> = Vec::new();
    let mut i: usize = 0;
    while i < names.len()
        invariant
            i <= names.len(),
            views(names@) == var_names(attr_str@),
            string_views(out@) == var_names(attr_str@).take(i as int),
        decreases names.len() - i,
    {
        let name = string_of(&names[i]);
        proof {
            assert(views(names@)[i as int] == names@[i as int]@);
            assert(string_views(out@.push(name)) == string_views(out@).push(name@));
            assert(var_names(attr_str@).take(i + 1) == var_names(attr_str@).take(i as int).push(
                var_names(attr_str@)[i as int],
            ));
        }
        out.push(name);
        i += 1;
    }
    assert(var_names(attr_str@).take(names.len() as int) == var_names(attr_str@));
    out
}

/// Whether the regular expression `pattern` matches somewhere in `text`, as
/// the crate regex decides it; nothing where `pattern` is no regular
/// expression.
pub uninterp spec fn regex_matches(pattern: Seq<char>, text: Seq<char>) -> Option<bool>;

/// `text` with every match of the regular expression `pattern` replaced by
/// `with`, as the crate regex does it; nothing where `pattern` is no regular
/// expression.
pub uninterp spec fn regex_replaced(pattern: Seq<char>, text: Seq<char>, with: Seq<char>) -> Option<
    Seq<char>,
>;

/// `regex::Regex::new` and `Regex::is_match`: whether `pattern` matches
/// somewhere in `text`. The answer is a function of the two texts alone and
/// is only named.
#[verifier::external_body]
fn regex_is_match(pattern: &str, text: &str) -> (r: Option<bool>)
    ensures
        r == regex_matches(pattern@, text@),
{
    match regex::Regex::new(pattern) {
        Ok(re) => Some(re.is_match(text)),
        Err(_) => None,
    }
}

/// `regex::Regex::new` and `Regex::replace_all`: `text` with every match of
/// `pattern` replaced by `with`. The answer is a function of the three texts
/// alone and is only named.
#[verifier::external_body]
fn regex_replace_all(pattern: &str, text: &str, with: &str) -> (r: Option<String>)
    ensures
        match r {
            Some(out) => regex_replaced(pattern@, text@, with@) == Some(out@),
            None => regex_replaced(pattern@, text@, with@) is None,
        },
{
    match regex::Regex::new(pattern) {
        Ok(re) => Some(re.replace_all(text, with).into_owned()),
        Err(_) => None,
    }
}

/// The argument text as the rewrites hand it to a condition: without any
/// blank.
pub fn strip_blanks(attr: &str) -> (out: String)
    ensures
        out@ == without(attr@, ' '),
{
    let chars = chars_of(attr);
    let kept = remove_char(&chars, ' ');
    string_of(&kept)
}

/// Whether the text of an annotated item is that of a module: whether it
/// holds the word that opens one.
pub fn is_module(context: &str) -> (r: bool)
    ensures
        r == (regex_matches("(?:pub mod |mod )"@, context@) == Some(true)),
{
    match regex_is_match("(?:pub mod |mod )", context) {
        Some(found) => found,
        None => false,
    }
}

/// The reason `msg` as it can stand in a name: every character that is
/// neither a letter, a digit nor an underscore replaced by an underscore.
pub open spec fn sanitized(msg: Seq<char>) -> Option<Seq<char>> {
    regex_replaced("[^\\w]"@, msg, "_"@)
}

/// The name `ident` with the reason `sanitized` behind it.
pub open spec fn name_with_reason(ident: Seq<char>, sanitized: Seq<char>) -> Seq<char> {
    ident + "__"@ + sanitized
}

/// The name `ident` with the reason `sanitized`, which can stand in a name,
/// behind two underscores.
pub fn join_name_and_reason(ident: &str, sanitized: &str) -> (out: String)
    ensures
        out@ == name_with_reason(ident@, sanitized@),
{
    let mut name: Vec<char> = Vec::new();
    append_str(&mut name, ident);
    append_str(&mut name, "__");
    append_str(&mut name, sanitized);
    string_of(&name)
}

/// The name that tells the reason: `ident`, two underscores, and `msg` as
/// it can stand in a name.
pub fn rewrite_fn_ident_with_msg(ident: &str, msg: &str) -> (r: Option<String>)
    ensures
        match r {
            Some(name) => sanitized(msg@) matches Some(tail) && name@ == name_with_reason(
                ident@,
                tail,
            ),
            None => sanitized(msg@) is None,
        },
{
    match regex_replace_all("[^\\w]", msg, "_") {
        Some(tail) => Some(join_name_and_reason(ident, tail.as_str())),
        None => None,
    }
}

/// How a function that carries a condition is rewritten.
#[derive(Debug, Clone, PartialEq, Eq)]
pub struct FnRewrite {
    /// Whether the test marker is added.
    pub add_test: bool,
    /// The reason of the skip marker that is added, if one is.
    pub ignore: Option<String>,
    /// The name of the function after the rewrite.
    pub name: String,
}

/// The name of a function after the rewrite.
pub open spec fn rewritten_name(
    ident: Seq<char>,
    satisfied: bool,
    reason: Seq<char>,
    tell_reason: bool,
) -> Seq<char> {
    if !satisfied && tell_reason && sanitized(reason) is Some {
        name_with_reason(ident, sanitized(reason)->0)
    } else {
        ident
    }
}

fn rewrite_name(ident: &str, satisfied: bool, reason: &str, tell_reason: bool) -> (out: String)
    ensures
        out@ == rewritten_name(ident@, satisfied, reason@, tell_reason),
{
    if !satisfied && tell_reason {
        match rewrite_fn_ident_with_msg(ident, reason) {
            Some(name) => name,
            None => ident.to_owned(),
        }
    } else {
        ident.to_owned()
    }
}

/// Whether `r` is the rewrite of a function with the decorations `attrs`
/// and the name `ident` for the verdict `(satisfied, reason)`: a fault
/// where the function carries `serial`; else the test marker is added where
/// the function has none, the skip marker where the condition is not
/// satisfied, and the name is that of `rewritten_name`.
pub open spec fn is_fn_rewrite(
    r: Result<FnRewrite, ConfigError>,
    attrs: Seq<Attribute>,
    ident: Seq<char>,
    satisfied: bool,
    reason: Seq<char>,
    tell_reason: bool,
) -> bool {
    match r {
        Err(fault) => marked_serial(attrs) && fault == ConfigError::BeforeSerial,
        Ok(plan) => {
            &&& !marked_serial(attrs)
            &&& plan.add_test == !marked_test(attrs)
            &&& match plan.ignore {
                Some(text) => !satisfied && text@ == reason,
                None => satisfied,
            }
            &&& plan.name@ == rewritten_name(ident, satisfied, reason, tell_reason)
        },
    }
}

/// The rewrite of a function with the decorations `attrs` and the name
/// `ident` that carries a condition with the verdict `(satisfied, reason)`.
/// The test marker is added where the function has none. Where the
/// condition is not satisfied, the skip marker is added with the reason,
/// and with `tell_reason` the name tells the reason too. A function that
/// carries `serial` below the condition is a fault.
pub fn fn_macro(
    attrs: &Vec<Attribute>,
    ident: &str,
    satisfied: bool,
    reason: &str,
    tell_reason: bool,
) -> (r: Result<FnRewrite, ConfigError>)
    ensures
        is_fn_rewrite(r, attrs@, ident@, satisfied, reason@, tell_reason),
{
    match check_before_attrs(attrs) {
        Err(fault) => {
            return Err(fault);
        },
        Ok(_) => {},
    }
    let add_test = !has_test_attr(attrs);
    let ignore = if satisfied {
        None
    } else {
        Some(reason.to_owned())
    };
    let name = rewrite_name(ident, satisfied, reason, tell_reason);
    Ok(FnRewrite { add_test, ignore, name })
}

/// How a module that carries a condition is rewritten.
#[derive(Debug, Clone, PartialEq, Eq)]
pub enum ModRewrite {
    /// The module stays as it is; the marker to build for tests only is
    /// added where `add_test_cfg` holds.
    Keep { add_test_cfg: bool },
    /// Each function of the module gives way to an empty test with the skip
    /// marker and the reason; nothing else of the module is kept.
    Stubs { add_test_cfg: bool, reason: String, names: Vec<String> },
}

/// The names of the functions among `items`, in order, each as it is after
/// the rewrite of a module whose condition is not satisfied.
pub open spec fn stub_names(items: Seq<Item>, reason: Seq<char>, tell_reason: bool) -> Seq<
    Seq<char>,
>
    decreases items.len(),
{
    if items.len() == 0 {
        Seq::empty()
    } else {
        let front = stub_names(items.drop_last(), reason, tell_reason);
        match items.last() {
            Item::Fn(decl) => front.push(rewritten_name(decl.name@, false, reason, tell_reason)),
            _ => front,
        }
    }
}

/// How many of `items` are functions.
pub open spec fn count_fns(items: Seq<Item>) -> nat
    decreases items.len(),
{
    if items.len() == 0 {
        0
    } else {
        count_fns(items.drop_last()) + if items.last() is Fn {
            1nat
        } else {
            0nat
        }
    }
}

/// A module whose condition is not satisfied gets one stub for each of its
/// functions.
pub proof fn law_one_stub_per_function(items: Seq<Item>, reason: Seq<char>, tell_reason: bool)
    ensures
        stub_names(items, reason, tell_reason).len() == count_fns(items),
    decreases items.len(),
{
    if items.len() > 0 {
        law_one_stub_per_function(items.drop_last(), reason, tell_reason);
    }
}

/// Whether `r` is the rewrite of a module with the decorations `attrs` and
/// the items `items` for the verdict `(satisfied, reason)`: a fault where
/// the module has no body; the module kept where the condition is
/// satisfied; else a stub for each of its functions.
pub open spec fn is_mod_rewrite(
    r: Result<ModRewrite, ConfigError>,
    attrs: Seq<Attribute>,
    items: Option<Seq<Item>>,
    satisfied: bool,
    reason: Seq<char>,
    tell_reason: bool,
) -> bool {
    match r {
        Err(fault) => items is None && fault == ConfigError::ModuleWithoutBody,
        Ok(ModRewrite::Keep { add_test_cfg }) => {
            &&& items is Some
            &&& satisfied
            &&& add_test_cfg == marked_test_cfg(attrs)
        },
        Ok(ModRewrite::Stubs { add_test_cfg, reason: text, names }) => {
            &&& items is Some
            &&& !satisfied
            &&& add_test_cfg == !marked_test_cfg(attrs)
            &&& text@ == reason
            &&& string_views(names@) == stub_names(items->0, reason, tell_reason)
        },
    }
}

/// The items of a module, where it has a body.
pub open spec fn item_list(items: Option<&Vec<Item>>) -> Option<Seq<Item>> {
    match items {
        Some(list) => Some(list@),
        None => None,
    }
}

/// The rewrite of a module with the decorations `attrs` and the items
/// `items` that carries a condition with the verdict `(satisfied, reason)`.
/// A module without a body is a fault. A satisfied module stays as it is,
/// and the marker to build for tests only is set again where it had one. An
/// unsatisfied module keeps none of its items: each function gives way to a
/// stub that is skipped with the reason, and the module gets the marker
/// where it had none.
pub fn mod_macro(
    attrs: &Vec<Attribute>,
    items: Option<&Vec<Item>>,
    satisfied: bool,
    reason: &str,
    tell_reason: bool,
) -> (r: Result<ModRewrite, ConfigError>)
    ensures
        is_mod_rewrite(r, attrs@, item_list(items), satisfied, reason@, tell_reason),
{
    let list = match items {
        None => {
            return Err(ConfigError::ModuleWithoutBody);
        },
        Some(list) => list,
    };
    let has_cfg = has_test_cfg(attrs);
    if satisfied {
        return Ok(ModRewrite::Keep { add_test_cfg: has_cfg });
    }
    let mut names: Vec<String> = Vec::new();
    let mut i: usize = 0;
    while i < list.len()
        invariant
            i <= list.len(),
            string_views(names@) == stub_names(list@.take(i as int), reason@, tell_reason),
        decreases list.len() - i,
    {
        proof {
            assert(list@.take(i + 1).drop_last() == list@.take(i as int));
            assert(list@.take(i + 1).last() == list@[i as int]);
        }
        match &list[i] {
            Item::Fn(decl) => {
                let name = rewrite_name(decl.name.as_str(), false, reason, tell_reason);
                assert(string_views(names@.push(name)) == string_views(names@).push(name@));
                names.push(name);
            },
            _ => {},
        }
        i += 1;
    }
    assert(list@.take(list.len() as int) == list@);
    Ok(ModRewrite::Stubs { add_test_cfg: !has_cfg, reason: reason.to_owned(), names })
}

/// An item that carries an annotation: a function, or a module with its
/// decorations and, where it has a body, its items.
#[derive(Debug, Clone, PartialEq, Eq)]
pub enum Annotated {
    Fn(crate::item::FnDecl),
    Mod { attrs: Vec<Attribute>, items: Option<Vec<Item>> },
}

/// How an annotated item is rewritten.
#[derive(Debug, Clone, PartialEq, Eq)]
pub enum Rewrite {
    Fn(FnRewrite),
    Mod(ModRewrite),
}

/// Whether `r` is the rewrite of `item` for the verdict
/// `(satisfied, reason)`.
pub open spec fn is_rewrite(
    r: Result<Rewrite, ConfigError>,
    item: Annotated,
    satisfied: bool,
    reason: Seq<char>,
    tell_reason: bool,
) -> bool {
    match item {
        Annotated::Fn(decl) => match r {
            Ok(Rewrite::Fn(plan)) => is_fn_rewrite(
                Ok(plan),
                decl.attrs@,
                decl.name@,
                satisfied,
                reason,
                tell_reason,
            ),
            Ok(Rewrite::Mod(_)) => false,
            Err(fault) => is_fn_rewrite(
                Err(fault),
                decl.attrs@,
                decl.name@,
                satisfied,
                reason,
                tell_reason,
            ),
        },
        Annotated::Mod { attrs, items } => {
            let list = match items {
                Some(v) => Some(v@),
                None => None,
            };
            match r {
                Ok(Rewrite::Mod(plan)) => is_mod_rewrite(
                    Ok(plan),
                    attrs@,
                    list,
                    satisfied,
                    reason,
                    tell_reason,
                ),
                Ok(Rewrite::Fn(_)) => false,
                Err(fault) => is_mod_rewrite(
                    Err(fault),
                    attrs@,
                    list,
                    satisfied,
                    reason,
                    tell_reason,
                ),
            }
        },
    }
}

/// Whether `item` is a module without a body.
pub open spec fn has_no_body(item: Annotated) -> bool {
    item matches Annotated::Mod { items, .. } && items is None
}

/// Whether `r` is what comes of `item` for the outcome `verdict` of its
/// condition. A module without a body is a fault, whatever its condition.
/// Else a fault of the condition is handed on, and a verdict gives the
/// rewrite for it.
pub open spec fn is_rewrite_for(
    r: Result<Rewrite, ConfigError>,
    item: Annotated,
    verdict: Result<(bool, Seq<char>), ConfigError>,
    tell_reason: bool,
) -> bool {
    if has_no_body(item) {
        r == Err::<Rewrite, ConfigError>(ConfigError::ModuleWithoutBody)
    } else {
        match verdict {
            Err(fault) => r == Err::<Rewrite, ConfigError>(fault),
            Ok(v) => is_rewrite(r, item, v.0, v.1, tell_reason),
        }
    }
}

/// Whether `item` is a module without a body. Of such a module no condition
/// is judged.
pub fn lacks_body(item: &Annotated) -> (r: bool)
    ensures
        r == has_no_body(*item),
{
    match item {
        Annotated::Mod { items, .. } => items.is_none(),
        Annotated::Fn(_) => false,
    }
}

/// The rewrite of `item` for the verdict `(satisfied, reason)` of its
/// condition: that of a function or that of a module, as the item is one.
pub fn rewrite(item: &Annotated, satisfied: bool, reason: &str, tell_reason: bool) -> (r: Result<
    Rewrite,
    ConfigError,
>)
    ensures
        is_rewrite(r, *item, satisfied, reason@, tell_reason),
{
    match item {
        Annotated::Fn(decl) => {
            match fn_macro(&decl.attrs, decl.name.as_str(), satisfied, reason, tell_reason) {
                Ok(plan) => Ok(Rewrite::Fn(plan)),
                Err(fault) => Err(fault),
            }
        },
        Annotated::Mod { attrs, items } => {
            let list = match items {
                Some(v) => Some(v),
                None => None,
            };
            match mod_macro(attrs, list, satisfied, reason, tell_reason) {
                Ok(plan) => Ok(Rewrite::Mod(plan)),
                Err(fault) => Err(fault),
            }
        },
    }
}

/// What comes of `item` for the outcome `verdict` of its condition: a
/// module without a body is a fault; else a fault of the condition stops
/// the build, and no rewrite is made.
pub fn rewrite_for(
    item: &Annotated,
    verdict: Result<(bool, String), ConfigError>,
    tell_reason: bool,
) -> (r: Result<Rewrite, ConfigError>)
    ensures
        is_rewrite_for(r, *item, verdict_view(verdict), tell_reason),
{
    if lacks_body(item) {
        return Err(ConfigError::ModuleWithoutBody);
    }
    match verdict {
        Err(fault) => Err(fault),
        Ok(v) => rewrite(item, v.0, v.1.as_str(), tell_reason),
    }
}

} // verus!
