//! The template-context builder: the key/value substitution map that an
//! option set yields, and lookup over it. Values are already rendered to
//! text: booleans as their lowercase literals, lists joined by spaces.

use vstd::prelude::*;

use crate::manifest::bool_str;
use crate::options::{channel_name, Options};
use crate::text::str_eq;

verus! {

/// The text of a space-joined list.
pub open spec fn join_spaced_spec(parts: Seq<Seq<char>>) -> Seq<char>
    decreases parts.len(),
{
    if parts.len() == 0 {
        Seq::empty()
    } else if parts.len() == 1 {
        parts[0]
    } else {
        parts[0] + seq![' '] + join_spaced_spec(parts.drop_first())
    }
}

/// Joining after appending one part appends a space separator (when the
/// sequence was non-empty) and the part's text.
pub proof fn lemma_join_spaced_push(parts: Seq<Seq<char>>, p: Seq<char>)
    ensures
        join_spaced_spec(parts.push(p)) == if parts.len() == 0 {
            p
        } else {
            join_spaced_spec(parts) + seq![' '] + p
        },
    decreases parts.len(),
{
    let q = parts.push(p);
    if parts.len() == 0 {
        assert(q.len() == 1);
        assert(q[0] == p);
    } else if parts.len() == 1 {
        assert(q.drop_first() =~= seq![p]);
        assert(join_spaced_spec(seq![p]) == p);
    } else {
        assert(q.drop_first() =~= parts.drop_first().push(p));
        lemma_join_spaced_push(parts.drop_first(), p);
        assert(parts[0] + seq![' '] + (join_spaced_spec(parts.drop_first()) + seq![' '] + p) =~= (
        parts[0] + seq![' '] + join_spaced_spec(parts.drop_first())) + seq![' '] + p);
    }
}

/// Join parts with single spaces.
pub fn join_spaced(parts: &Vec<String>) -> (r: String)
    ensures
        r@ == join_spaced_spec(parts.deep_view()),
{
    let mut r = String::new();
    let mut i: usize = 0;
    proof {
        assert(parts.deep_view().take(0) =~~= Seq::<Seq<char>>::empty());
    }
    while i < parts.len()
        invariant
            i <= parts.len(),
            parts.deep_view().len() == parts.len(),
            r@ == join_spaced_spec(parts.deep_view().take(i as int)),
        decreases parts.len() - i,
    {
        let ghost dv = parts.deep_view();
        if i > 0 {
            r.append(" ");
        }
        r.append(parts[i].as_str());
        proof {
            reveal_strlit(" ");
            assert(" "@ =~= seq![' ']);
            assert(dv[i as int] == parts@[i as int]@);
            lemma_join_spaced_push(dv.take(i as int), dv[i as int]);
            assert(dv.take(i as int).push(dv[i as int]) =~~= dv.take(i + 1));
            if i == 0 {
                assert(r@ =~= join_spaced_spec(dv.take(i + 1)));
            } else {
                assert(r@ =~= join_spaced_spec(dv.take(i as int)) + seq![' '] + dv[i as int]);
            }
        }
        i += 1;
    }
    proof {
        assert(parts.deep_view().take(parts.len() as int) =~~= parts.deep_view());
    }
    r
}

/// The pair a present optional value contributes, nothing otherwise.
pub open spec fn opt_pair(key: Seq<char>, v: Option<String>) -> Seq<(Seq<char>, Seq<char>)> {
    match v {
        Some(s) => seq![(key, s@)],
        None => Seq::<(Seq<char>, Seq<char>)>::empty(),
    }
}

/// The resolved executable name: the explicit override, else the package
/// name, else nothing.
pub open spec fn executable_pair(o: Options) -> Seq<(Seq<char>, Seq<char>)> {
    match o.package_executable {
        Some(e) => seq![("executable"@, e@)],
        None => match o.package_name {
            Some(n) => seq![("executable"@, n@)],
            None => Seq::<(Seq<char>, Seq<char>)>::empty(),
        },
    }
}

/// The supported-systems pair: the list joined by spaces, when present.
pub open spec fn systems_pair(o: Options) -> Seq<(Seq<char>, Seq<char>)> {
    match o.package_systems {
        Some(l) => seq![("systems"@, join_spaced_spec(l.deep_view()))],
        None => Seq::<(Seq<char>, Seq<char>)>::empty(),
    }
}

/// The toolchain pair: the channel name, absent when the toolchain is
/// pinned through an external file (the pin file then governs).
pub open spec fn toolchain_pair(o: Options) -> Seq<(Seq<char>, Seq<char>)> {
    if o.rust_toolchain_file {
        Seq::<(Seq<char>, Seq<char>)>::empty()
    } else {
        seq![("toolchain"@, channel_name(o.rust_toolchain_channel))]
    }
}

/// The cache pairs: the cache name when present; the public key only when
/// both the name and the key are present.
pub open spec fn cachix_pairs(o: Options) -> Seq<(Seq<char>, Seq<char>)> {
    match o.cachix_name {
        Some(n) => seq![("cachixName"@, n@)] + (match o.cachix_public_key {
            Some(k) => seq![("cachixKey"@, k@)],
            None => Seq::<(Seq<char>, Seq<char>)>::empty(),
        }),
        None => Seq::<(Seq<char>, Seq<char>)>::empty(),
    }
}

/// The desktop pairs: present fields only, and only when a desktop entry
/// was requested on a non-library package.
pub open spec fn desktop_pairs(o: Options) -> Seq<(Seq<char>, Seq<char>)> {
    if o.make_desktop_file && !o.package_lib {
        opt_pair("desktopName"@, o.package_xdg_desktop_name) + opt_pair(
            "genericName"@,
            o.package_xdg_generic_name,
        ) + opt_pair("categories"@, o.package_xdg_categories) + opt_pair(
            "desktopComment"@,
            o.package_xdg_comment,
        ) + opt_pair("icon"@, o.package_icon)
    } else {
        Seq::<(Seq<char>, Seq<char>)>::empty()
    }
}

/// The full substitution map of an option set, in a fixed order.
pub open spec fn context_spec(o: Options) -> Seq<(Seq<char>, Seq<char>)> {
    opt_pair("name"@, o.package_name) + executable_pair(o) + opt_pair("license"@, o.package_license)
        + systems_pair(o) + toolchain_pair(o) + opt_pair("description"@, o.package_description)
        + opt_pair("longDescription"@, o.package_long_description) + opt_pair(
        "homepage"@,
        o.package_homepage,
    ) + cachix_pairs(o) + desktop_pairs(o)
}

/// Append the pair of a present optional value to the context.
fn push_opt(ctx: &mut Vec<(String, String)>, key: &str, v: &Option<String>)
    ensures
        final(ctx).deep_view() == old(ctx).deep_view() + opt_pair(key@, *v),
{
    if let Some(s) = v {
        ctx.push((String::from_str(key), s.clone()));
    }
    proof {
        assert(ctx.deep_view() =~~= old(ctx).deep_view() + opt_pair(key@, *v));
    }
}

/// Append the cache pairs to the context.
fn push_cachix_pairs(ctx: &mut Vec<(String, String)>, o: &Options)
    ensures
        final(ctx).deep_view() == old(ctx).deep_view() + cachix_pairs(*o),
{
    if let Some(n) = &o.cachix_name {
        ctx.push((String::from_str("cachixName"), n.clone()));
        if let Some(k) = &o.cachix_public_key {
            ctx.push((String::from_str("cachixKey"), k.clone()));
        }
    }
    proof {
        assert(ctx.deep_view() =~~= old(ctx).deep_view() + cachix_pairs(*o));
    }
}

/// Append the desktop pairs to the context.
fn push_desktop_pairs(ctx: &mut Vec<(String, String)>, o: &Options)
    ensures
        final(ctx).deep_view() == old(ctx).deep_view() + desktop_pairs(*o),
{
    if o.make_desktop_file && !o.package_lib {
        push_opt(ctx, "desktopName", &o.package_xdg_desktop_name);
        push_opt(ctx, "genericName", &o.package_xdg_generic_name);
        push_opt(ctx, "categories", &o.package_xdg_categories);
        push_opt(ctx, "desktopComment", &o.package_xdg_comment);
        push_opt(ctx, "icon", &o.package_icon);
    }
    proof {
        assert(ctx.deep_view() =~~= old(ctx).deep_view() + desktop_pairs(*o));
    }
}

/// Build the substitution map of an option set. Total over valid options:
/// no error paths; every conditional key is either present or left out.
pub fn build_context(o: &Options) -> (r: Vec<(String, String)>)
    ensures
        r.deep_view() == context_spec(*o),
{
    let mut ctx: Vec<(String, String)> = Vec::new();
    push_opt(&mut ctx, "name", &o.package_name);
    if let Some(e) = &o.package_executable {
        ctx.push((String::from_str("executable"), e.clone()));
    } else if let Some(n) = &o.package_name {
        ctx.push((String::from_str("executable"), n.clone()));
    }
    let ghost c1 = opt_pair("name"@, o.package_name) + executable_pair(*o);
    proof {
        assert(ctx.deep_view() =~~= c1);
    }
    push_opt(&mut ctx, "license", &o.package_license);
    if let Some(systems) = &o.package_systems {
        let joined = join_spaced(systems);
        ctx.push((String::from_str("systems"), joined));
    }
    if !o.rust_toolchain_file {
        ctx.push(
            (String::from_str("toolchain"), String::from_str(o.rust_toolchain_channel.as_str())),
        );
    }
    let ghost c2 = c1 + opt_pair("license"@, o.package_license) + systems_pair(*o) + toolchain_pair(
        *o,
    );
    proof {
        assert(ctx.deep_view() =~~= c2);
    }
    push_opt(&mut ctx, "description", &o.package_description);
    push_opt(&mut ctx, "longDescription", &o.package_long_description);
    push_opt(&mut ctx, "homepage", &o.package_homepage);
    push_cachix_pairs(&mut ctx, o);
    push_desktop_pairs(&mut ctx, o);
    proof {
        assert(ctx.deep_view() =~~= context_spec(*o));
    }
    ctx
}

/// The value bound to the first occurrence of `key` in the map, if any.
pub open spec fn lookup_spec(entries: Seq<(Seq<char>, Seq<char>)>, key: Seq<char>) -> Option<
    Seq<char>,
>
    decreases entries.len(),
{
    if entries.len() == 0 {
        None
    } else if entries[0].0 == key {
        Some(entries[0].1)
    } else {
        lookup_spec(entries.drop_first(), key)
    }
}

/// Look a key up in the context.
pub fn ctx_lookup(ctx: &Vec<(String, String)>, key: &str) -> (r: Option<String>)
    ensures
        match r {
            Some(v) => lookup_spec(ctx.deep_view(), key@) == Some(v@),
            None => lookup_spec(ctx.deep_view(), key@) is None,
        },
{
    let ghost dv = ctx.deep_view();
    let mut i: usize = 0;
    proof {
        assert(dv.skip(0) =~~= dv);
    }
    while i < ctx.len()
        invariant
            dv == ctx.deep_view(),
            dv.len() == ctx.len(),
            i <= ctx.len(),
            lookup_spec(dv, key@) == lookup_spec(dv.skip(i as int), key@),
        decreases ctx.len() - i,
    {
        proof {
            assert(dv.skip(i as int)[0] == dv[i as int]);
            assert(dv.skip(i as int).drop_first() =~~= dv.skip(i + 1));
            assert(dv[i as int] == (ctx@[i as int].0@, ctx@[i as int].1@));
        }
        if str_eq(ctx[i].0.as_str(), key) {
            return Some(ctx[i].1.clone());
        }
        i += 1;
    }
    proof {
        assert(dv.skip(ctx.len() as int) =~~= Seq::<(Seq<char>, Seq<char>)>::empty());
    }
    None
}

/// The keys the templates may reference: each is either bound in the
/// context or recognized as intentionally absent.
pub open spec fn recognized_key_spec(k: Seq<char>) -> bool {
    ||| k == "name"@
    ||| k == "executable"@
    ||| k == "license"@
    ||| k == "systems"@
    ||| k == "toolchain"@
    ||| k == "description"@
    ||| k == "longDescription"@
    ||| k == "homepage"@
    ||| k == "cachixName"@
    ||| k == "cachixKey"@
    ||| k == "desktopName"@
    ||| k == "genericName"@
    ||| k == "categories"@
    ||| k == "desktopComment"@
    ||| k == "icon"@
}

/// Whether the key is one the templates may reference.
pub fn recognized_key(k: &str) -> (r: bool)
    ensures
        r == recognized_key_spec(k@),
{
    str_eq(k, "name") || str_eq(k, "executable") || str_eq(k, "license") || str_eq(k, "systems")
        || str_eq(k, "toolchain") || str_eq(k, "description") || str_eq(k, "longDescription")
        || str_eq(k, "homepage") || str_eq(k, "cachixName") || str_eq(k, "cachixKey") || str_eq(
        k,
        "desktopName",
    ) || str_eq(k, "genericName") || str_eq(k, "categories") || str_eq(k, "desktopComment")
        || str_eq(k, "icon")
}

/// Every key the context binds is a recognized key: templates can reference
/// any bound key, and every recognized key they reference is either bound
/// or tolerated as absent.
#[verifier::rlimit(100)]
pub proof fn lemma_context_keys_recognized(o: Options)
    ensures
        forall|i: int|
            0 <= i < context_spec(o).len() ==> recognized_key_spec(#[trigger] context_spec(o)[i].0),
{
}

} // verus!
