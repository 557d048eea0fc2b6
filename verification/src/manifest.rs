//! The manifest patcher: fills gaps in the project-identity section of a
//! text manifest (license, description) and appends the tool-metadata
//! section, while preserving every pre-existing line.

use vstd::prelude::*;

use crate::options::{channel_name, Options, RustToolchainChannel};
use crate::quote;
use crate::quoted;
use crate::text::contains_seq;
use crate::text::contains_str;
use crate::text::join_lines;
use crate::text::join_lines_spec;
use crate::text::split_lines;
use crate::text::split_of;
use crate::text::starts_with_seq;
use crate::text::starts_with_str;

verus! {

/// A key/value line of the manifest: `key = value`.
pub open spec fn kv_line(key: Seq<char>, value: Seq<char>) -> Seq<char> {
    key + " = "@ + value
}

/// A comment line: `# text`.
pub open spec fn comment_line(text: Seq<char>) -> Seq<char> {
    "# "@ + text
}

/// A section-header line: `[name]`.
pub open spec fn attrset_line(name: Seq<char>) -> Seq<char> {
    "["@ + name + "]"@
}

/// The textual form of a boolean: the lowercase literal.
pub open spec fn bool_str(b: bool) -> Seq<char> {
    if b {
        "true"@
    } else {
        "false"@
    }
}

/// Render a boolean as its lowercase textual literal.
pub fn to_str(b: bool) -> (r: &'static str)
    ensures
        r@ == bool_str(b),
{
    if b {
        "true"
    } else {
        "false"
    }
}

/// Build a `key = value` line.
fn kv_string(key: &str, value: &str) -> (r: String)
    ensures
        r@ == kv_line(key@, value@),
{
    let mut l = String::from_str(key);
    l.append(" = ");
    l.append(value);
    l
}

/// Append a `key = value` line to the line buffer.
pub fn kv(buf: &mut Vec<String>, key: &str, value: &str)
    ensures
        final(buf).deep_view() == old(buf).deep_view().push(kv_line(key@, value@)),
{
    let l = kv_string(key, value);
    buf.push(l);
    proof {
        assert(buf.deep_view() =~~= old(buf).deep_view().push(kv_line(key@, value@)));
    }
}

/// Append a `# text` comment line to the line buffer.
pub fn comment(buf: &mut Vec<String>, text: &str)
    ensures
        final(buf).deep_view() == old(buf).deep_view().push(comment_line(text@)),
{
    let mut l = String::from_str("# ");
    l.append(text);
    buf.push(l);
    proof {
        assert(buf.deep_view() =~~= old(buf).deep_view().push(comment_line(text@)));
    }
}

/// Append a `[name]` section-header line to the line buffer.
pub fn attrset(buf: &mut Vec<String>, name: &str)
    ensures
        final(buf).deep_view() == old(buf).deep_view().push(attrset_line(name@)),
{
    let mut l = String::from_str("[");
    l.append(name);
    l.append("]");
    buf.push(l);
    proof {
        assert(buf.deep_view() =~~= old(buf).deep_view().push(attrset_line(name@)));
    }
}

/// The line prefix that establishes package identity.
pub open spec fn identity_key() -> Seq<char> {
    "name = "@
}

/// The text whose presence anywhere in the document suppresses license
/// insertion.
pub open spec fn license_key() -> Seq<char> {
    "license = "@
}

/// The text whose presence anywhere in the document suppresses description
/// insertion.
pub open spec fn description_key() -> Seq<char> {
    "description = "@
}

/// Some line of the document holds `pat`.
pub open spec fn any_line_contains(lines: Seq<Seq<char>>, pat: Seq<char>) -> bool {
    exists|i: int| 0 <= i < lines.len() && contains_seq(#[trigger] lines[i], pat)
}

/// The index of the first line that establishes package identity, if any.
pub open spec fn first_identity_line(lines: Seq<Seq<char>>) -> Option<int>
    decreases lines.len(),
{
    if lines.len() == 0 {
        None
    } else if starts_with_seq(lines[0], identity_key()) {
        Some(0int)
    } else {
        match first_identity_line(lines.drop_first()) {
            None => None,
            Some(j) => Some(j + 1),
        }
    }
}

/// What `first_identity_line` returns: the first index whose line starts
/// with the identity key, none earlier; or no such line at all.
pub proof fn lemma_first_identity_line(lines: Seq<Seq<char>>)
    ensures
        match first_identity_line(lines) {
            Some(i) => 0 <= i < lines.len() && starts_with_seq(lines[i], identity_key())
                && forall|j: int| 0 <= j < i ==> !starts_with_seq(lines[j], identity_key()),
            None => forall|j: int|
                0 <= j < lines.len() ==> !starts_with_seq(lines[j], identity_key()),
        },
    decreases lines.len(),
{
    if lines.len() == 0 {
    } else if starts_with_seq(lines[0], identity_key()) {
    } else {
        let d = lines.drop_first();
        lemma_first_identity_line(d);
        match first_identity_line(d) {
            None => {
                assert forall|j: int| 0 <= j < lines.len() implies !starts_with_seq(
                    lines[j],
                    identity_key(),
                ) by {
                    if j >= 1 {
                        assert(lines[j] == d[j - 1]);
                        assert(!starts_with_seq(d[j - 1], identity_key()));
                    }
                }
            },
            Some(k) => {
                assert(lines[k + 1] == d[k]);
                assert forall|j: int| 0 <= j < k + 1 implies !starts_with_seq(
                    lines[j],
                    identity_key(),
                ) by {
                    if j >= 1 {
                        assert(lines[j] == d[j - 1]);
                        assert(!starts_with_seq(d[j - 1], identity_key()));
                    }
                }
            },
        }
    }
}

/// Find the first line that starts with the identity key.
fn find_identity_line(lines: &Vec<String>) -> (r: Option<usize>)
    ensures
        match r {
            Some(i) => i < lines.len() && first_identity_line(lines.deep_view()) == Some(i as int),
            None => first_identity_line(lines.deep_view()) is None,
        },
{
    let ghost dv = lines.deep_view();
    let mut i: usize = 0;
    while i < lines.len()
        invariant
            dv == lines.deep_view(),
            dv.len() == lines.len(),
            i <= lines.len(),
            forall|j: int| 0 <= j < i ==> !starts_with_seq(#[trigger] dv[j], identity_key()),
        decreases lines.len() - i,
    {
        if starts_with_str(lines[i].as_str(), "name = ") {
            proof {
                lemma_first_identity_line(dv);
                match first_identity_line(dv) {
                    Some(k) => {
                        if k < i as int {
                            assert(starts_with_seq(dv[k], identity_key()));
                        }
                        if k > i as int {
                            assert(!starts_with_seq(dv[i as int], identity_key()));
                        }
                    },
                    None => {
                        assert(!starts_with_seq(dv[i as int], identity_key()));
                    },
                }
            }
            return Some(i);
        }
        i += 1;
    }
    proof {
        lemma_first_identity_line(dv);
        if first_identity_line(dv) is Some {
            let k = first_identity_line(dv)->Some_0;
            assert(starts_with_seq(dv[k], identity_key()));
        }
    }
    None
}

/// Whether some line of the buffer holds `pat`.
fn lines_contain(lines: &Vec<String>, pat: &str) -> (r: bool)
    ensures
        r == any_line_contains(lines.deep_view(), pat@),
{
    let ghost dv = lines.deep_view();
    let mut i: usize = 0;
    while i < lines.len()
        invariant
            dv == lines.deep_view(),
            dv.len() == lines.len(),
            i <= lines.len(),
            forall|j: int| 0 <= j < i ==> !contains_seq(#[trigger] dv[j], pat@),
        decreases lines.len() - i,
    {
        if contains_str(lines[i].as_str(), pat) {
            proof {
                assert(dv[i as int] == lines@[i as int]@);
                assert(0 <= (i as int) && (i as int) < dv.len() && contains_seq(
                    dv[i as int],
                    pat@,
                ));
            }
            return true;
        }
        i += 1;
    }
    false
}

/// The license line to insert after the identity line: present only when a
/// license was supplied and no line of the document holds the license key.
pub open spec fn license_insertion(lines: Seq<Seq<char>>, o: Options) -> Seq<Seq<char>> {
    if any_line_contains(lines, license_key()) {
        Seq::<Seq<char>>::empty()
    } else {
        match o.package_license {
            Some(l) => seq![kv_line("license"@, quoted(l@))],
            None => Seq::<Seq<char>>::empty(),
        }
    }
}

/// The description line to insert after the identity line (and after a
/// just-inserted license line): present only when a description was supplied
/// and no line of the document holds the description key.
pub open spec fn description_insertion(lines: Seq<Seq<char>>, o: Options) -> Seq<Seq<char>> {
    if any_line_contains(lines, description_key()) {
        Seq::<Seq<char>>::empty()
    } else {
        match o.package_description {
            Some(d) => seq![kv_line("description"@, quoted(d@))],
            None => Seq::<Seq<char>>::empty(),
        }
    }
}

/// The document after gap-filling: with an identity line, the missing
/// license and description lines are inserted right after it; without one,
/// the document is unchanged.
pub open spec fn inserted_lines(lines: Seq<Seq<char>>, o: Options) -> Seq<Seq<char>> {
    match first_identity_line(lines) {
        None => lines,
        Some(i) => lines.take(i + 1) + license_insertion(lines, o) + description_insertion(
            lines,
            o,
        ) + lines.skip(i + 1),
    }
}

/// The nesting scope of the appended metadata: `package` when an identity
/// line exists, `workspace` otherwise.
pub open spec fn scope_name(lines: Seq<Seq<char>>) -> Seq<char> {
    if first_identity_line(lines) is Some {
        "package"@
    } else {
        "workspace"@
    }
}

/// A `key = "value"` line for a present optional value, nothing otherwise.
pub open spec fn opt_kv_lines(key: Seq<char>, v: Option<String>) -> Seq<Seq<char>> {
    match v {
        Some(s) => seq![kv_line(key, quoted(s@))],
        None => Seq::<Seq<char>>::empty(),
    }
}

/// The toolchain lines: the channel is recorded only when the toolchain is
/// not pinned through an external file and differs from the default.
pub open spec fn toolchain_lines(o: Options) -> Seq<Seq<char>> {
    if !o.rust_toolchain_file && o.rust_toolchain_channel != RustToolchainChannel::Stable {
        seq![
            comment_line("Toolchain to be used"@),
            kv_line("toolchain"@, quoted(channel_name(o.rust_toolchain_channel))),
        ]
    } else {
        Seq::<Seq<char>>::empty()
    }
}

/// The cache sub-section: present only when a cache name is configured; the
/// public key line only when a key is also configured.
pub open spec fn cache_lines(o: Options, scope: Seq<char>) -> Seq<Seq<char>> {
    match o.cachix_name {
        None => Seq::<Seq<char>>::empty(),
        Some(name) => seq![
            attrset_line(scope + ".metadata.tool.cache"@),
            comment_line("Name of the cachix binary cache"@),
            kv_line("name"@, quoted(name@)),
        ] + match o.cachix_public_key {
            Some(key) => seq![
                comment_line("Public key of this cache"@),
                kv_line("key"@, quoted(key@)),
            ],
            None => Seq::<Seq<char>>::empty(),
        },
    }
}

/// The desktop sub-section: present only when a desktop entry was requested
/// and the package is not a library; holds whichever fields are present.
pub open spec fn desktop_lines(o: Options, scope: Seq<char>) -> Seq<Seq<char>> {
    if o.make_desktop_file && !o.package_lib {
        seq![attrset_line(scope + ".metadata.tool.desktop"@)] + opt_kv_lines(
            "name"@,
            o.package_xdg_desktop_name,
        ) + opt_kv_lines("genericName"@, o.package_xdg_generic_name) + opt_kv_lines(
            "categories"@,
            o.package_xdg_categories,
        ) + opt_kv_lines("comment"@, o.package_xdg_comment) + opt_kv_lines(
            "icon"@,
            o.package_icon,
        )
    } else {
        Seq::<Seq<char>>::empty()
    }
}

/// The tool-metadata section appended at the end of the document: a blank
/// line, the section header under `scope`, the app and build booleans, then
/// the optional long description, toolchain, cache and desktop parts.
pub open spec fn metadata_tail_lines(o: Options, scope: Seq<char>) -> Seq<Seq<char>> {
    seq![
        Seq::<char>::empty(),
        attrset_line(scope + ".metadata.tool"@),
        comment_line("Toggle app flake output"@),
        kv_line("app"@, bool_str(!o.disable_app && !o.disable_build)),
        comment_line("Toggle flake outputs that build (checks, package and app)"@),
        kv_line("build"@, bool_str(!o.disable_build)),
    ] + opt_kv_lines("longDescription"@, o.package_long_description) + toolchain_lines(o)
        + cache_lines(o, scope) + desktop_lines(o, scope)
}

/// The patched document: the gap-filled lines followed by the appended
/// tool-metadata section.
pub open spec fn patched_lines(lines: Seq<Seq<char>>, o: Options) -> Seq<Seq<char>> {
    inserted_lines(lines, o) + metadata_tail_lines(o, scope_name(lines))
}

/// Append the optional long-description line to the line buffer.
fn push_long_description(buf: &mut Vec<String>, o: &Options)
    ensures
        final(buf).deep_view() == old(buf).deep_view() + opt_kv_lines(
            "longDescription"@,
            o.package_long_description,
        ),
{
    if let Some(d) = &o.package_long_description {
        let q = quote(d.as_str());
        kv(buf, "longDescription", q.as_str());
    }
    proof {
        assert(buf.deep_view() =~~= old(buf).deep_view() + opt_kv_lines(
            "longDescription"@,
            o.package_long_description,
        ));
    }
}

/// Append the toolchain lines to the line buffer.
fn push_toolchain(buf: &mut Vec<String>, o: &Options)
    ensures
        final(buf).deep_view() == old(buf).deep_view() + toolchain_lines(*o),
{
    if !o.rust_toolchain_file && !matches!(o.rust_toolchain_channel, RustToolchainChannel::Stable) {
        comment(buf, "Toolchain to be used");
        let q = quote(o.rust_toolchain_channel.as_str());
        kv(buf, "toolchain", q.as_str());
    }
    proof {
        assert(buf.deep_view() =~~= old(buf).deep_view() + toolchain_lines(*o));
    }
}

/// Append the cache sub-section to the line buffer.
fn push_cache(buf: &mut Vec<String>, o: &Options, scope: &str)
    ensures
        final(buf).deep_view() == old(buf).deep_view() + cache_lines(*o, scope@),
{
    if let Some(name) = &o.cachix_name {
        let mut sec = String::from_str(scope);
        sec.append(".metadata.tool.cache");
        attrset(buf, sec.as_str());
        comment(buf, "Name of the cachix binary cache");
        let q = quote(name.as_str());
        kv(buf, "name", q.as_str());
        if let Some(key) = &o.cachix_public_key {
            comment(buf, "Public key of this cache");
            let q2 = quote(key.as_str());
            kv(buf, "key", q2.as_str());
        }
    }
    proof {
        assert(buf.deep_view() =~~= old(buf).deep_view() + cache_lines(*o, scope@));
    }
}

/// Append the desktop sub-section to the line buffer.
fn push_desktop(buf: &mut Vec<String>, o: &Options, scope: &str)
    ensures
        final(buf).deep_view() == old(buf).deep_view() + desktop_lines(*o, scope@),
{
    if o.make_desktop_file && !o.package_lib {
        let mut sec = String::from_str(scope);
        sec.append(".metadata.tool.desktop");
        attrset(buf, sec.as_str());
        if let Some(n) = &o.package_xdg_desktop_name {
            let q = quote(n.as_str());
            kv(buf, "name", q.as_str());
        }
        if let Some(g) = &o.package_xdg_generic_name {
            let q = quote(g.as_str());
            kv(buf, "genericName", q.as_str());
        }
        if let Some(c) = &o.package_xdg_categories {
            let q = quote(c.as_str());
            kv(buf, "categories", q.as_str());
        }
        if let Some(c) = &o.package_xdg_comment {
            let q = quote(c.as_str());
            kv(buf, "comment", q.as_str());
        }
        if let Some(ic) = &o.package_icon {
            let q = quote(ic.as_str());
            kv(buf, "icon", q.as_str());
        }
    }
    proof {
        assert(buf.deep_view() =~~= old(buf).deep_view() + desktop_lines(*o, scope@));
    }
}

/// Append the tool-metadata section to the line buffer.
pub fn push_metadata_tail(buf: &mut Vec<String>, o: &Options, scope: &str)
    ensures
        final(buf).deep_view() == old(buf).deep_view() + metadata_tail_lines(*o, scope@),
{
    let ghost base = buf.deep_view();
    buf.push(String::new());
    {
        let mut sec = String::from_str(scope);
        sec.append(".metadata.tool");
        attrset(buf, sec.as_str());
    }
    comment(buf, "Toggle app flake output");
    kv(buf, "app", to_str(!o.disable_app && !o.disable_build));
    comment(buf, "Toggle flake outputs that build (checks, package and app)");
    kv(buf, "build", to_str(!o.disable_build));
    let ghost head = seq![
        Seq::<char>::empty(),
        attrset_line(scope@ + ".metadata.tool"@),
        comment_line("Toggle app flake output"@),
        kv_line("app"@, bool_str(!o.disable_app && !o.disable_build)),
        comment_line("Toggle flake outputs that build (checks, package and app)"@),
        kv_line("build"@, bool_str(!o.disable_build)),
    ];
    proof {
        assert(buf.deep_view() =~~= base + head);
    }
    push_long_description(buf, o);
    push_toolchain(buf, o);
    push_cache(buf, o, scope);
    push_desktop(buf, o, scope);
    proof {
        assert(buf.deep_view() =~~= base + metadata_tail_lines(*o, scope@));
    }
}


/// Patch the document given as lines: fill the missing identity fields and
/// append the tool-metadata section.
pub fn patch_manifest_lines(lines: Vec<String>, o: &Options) -> (r: Vec<String>)
    ensures
        r.deep_view() == patched_lines(lines.deep_view(), *o),
{
    let ghost orig = lines.deep_view();
    let mut out = lines;
    let idx = find_identity_line(&out);
    let has_license = lines_contain(&out, "license = ");
    let has_desc = lines_contain(&out, "description = ");
    if let Some(i) = idx {
        let mut pos: usize = i + 1;
        if !has_license {
            if let Some(license) = &o.package_license {
                let q = quote(license.as_str());
                let line = kv_string("license", q.as_str());
                out.insert(pos, line);
                let grown = out.len();
                proof {
                    assert(pos < grown);
                }
                pos = pos + 1;
            }
        }
        if !has_desc {
            if let Some(desc) = &o.package_description {
                let q = quote(desc.as_str());
                let line = kv_string("description", q.as_str());
                out.insert(pos, line);
            }
        }
        proof {
            assert(out.deep_view() =~~= orig.take(i + 1) + license_insertion(orig, *o)
                + description_insertion(orig, *o) + orig.skip(i + 1));
        }
        push_metadata_tail(&mut out, o, "package");
        proof {
            assert(out.deep_view() =~~= patched_lines(orig, *o));
        }
    } else {
        push_metadata_tail(&mut out, o, "workspace");
        proof {
            assert(out.deep_view() =~~= patched_lines(orig, *o));
        }
    }
    out
}

/// Patch the manifest text: split it into lines, fill the missing identity
/// fields, append the tool-metadata section, and join the result. Never
/// fails: a document without an identity line is handled in workspace scope.
pub fn patch_manifest(text: &str, o: &Options) -> (r: String)
    ensures
        r@ == join_lines_spec(patched_lines(split_of(text@), *o)),
{
    let lines = split_lines(text);
    let patched = patch_manifest_lines(lines, o);
    join_lines(&patched)
}


/// How many lines of the document start with `pat`.
pub open spec fn count_lines_starting(lines: Seq<Seq<char>>, pat: Seq<char>) -> nat
    decreases lines.len(),
{
    if lines.len() == 0 {
        0
    } else {
        (if starts_with_seq(lines[0], pat) {
            1nat
        } else {
            0nat
        }) + count_lines_starting(lines.drop_first(), pat)
    }
}

/// Counting distributes over concatenation.
pub proof fn lemma_count_concat(a: Seq<Seq<char>>, b: Seq<Seq<char>>, pat: Seq<char>)
    ensures
        count_lines_starting(a + b, pat) == count_lines_starting(a, pat) + count_lines_starting(
            b,
            pat,
        ),
    decreases a.len(),
{
    if a.len() == 0 {
        assert(a + b =~~= b);
    } else {
        assert((a + b).drop_first() =~~= a.drop_first() + b);
        assert((a + b)[0] == a[0]);
        lemma_count_concat(a.drop_first(), b, pat);
    }
}

/// A document none of whose lines starts with `pat` counts zero.
pub proof fn lemma_count_zero_when_none(lines: Seq<Seq<char>>, pat: Seq<char>)
    requires
        forall|i: int| 0 <= i < lines.len() ==> !starts_with_seq(#[trigger] lines[i], pat),
    ensures
        count_lines_starting(lines, pat) == 0,
    decreases lines.len(),
{
    if lines.len() > 0 {
        assert(forall|i: int| 0 <= i < lines.drop_first().len() ==> lines.drop_first()[i] == lines[
            i + 1
        ]);
        lemma_count_zero_when_none(lines.drop_first(), pat);
    }
}

/// A line that is shorter than the license key or differs from it in one of
/// its first two characters does not start with it.
proof fn lemma_line_not_license(l: Seq<char>)
    requires
        l.len() < 10 || l[0] != 'l' || l[1] != 'i',
    ensures
        !starts_with_seq(l, license_key()),
{
    reveal_strlit("license = ");
    if starts_with_seq(l, license_key()) {
        assert(l.subrange(0, license_key().len() as int) == license_key());
        assert(l.subrange(0, license_key().len() as int)[0] == license_key()[0]);
        assert(l.subrange(0, license_key().len() as int)[1] == license_key()[1]);
        assert(l[0] == 'l' && l[1] == 'i');
    }
}

/// A section-header line begins with the opening bracket.
proof fn lemma_attrset_first(name: Seq<char>)
    ensures
        attrset_line(name).len() >= 2,
        attrset_line(name)[0] == '[',
{
    reveal_strlit("[");
    reveal_strlit("]");
    assert(attrset_line(name)[0] == ("["@ + name)[0]);
    assert(("["@ + name)[0] == "["@[0]);
}

/// A comment line begins with the hash mark.
proof fn lemma_comment_first(text: Seq<char>)
    ensures
        comment_line(text).len() >= 2,
        comment_line(text)[0] == '#',
{
    reveal_strlit("# ");
    assert(comment_line(text)[0] == "# "@[0]);
}

/// A key/value line begins with its key's first two characters.
proof fn lemma_kv_first(key: Seq<char>, value: Seq<char>)
    requires
        key.len() >= 2,
    ensures
        kv_line(key, value).len() >= 2,
        kv_line(key, value)[0] == key[0],
        kv_line(key, value)[1] == key[1],
{
    assert(kv_line(key, value)[0] == (key + " = "@)[0]);
    assert((key + " = "@)[0] == key[0]);
    assert(kv_line(key, value)[1] == (key + " = "@)[1]);
    assert((key + " = "@)[1] == key[1]);
}

/// A key/value line whose key differs from the license key within its
/// first two characters is not a license line.
proof fn lemma_kv_not_license(key: Seq<char>, value: Seq<char>)
    requires
        key.len() >= 2,
        key[0] != 'l' || key[1] != 'i',
    ensures
        !starts_with_seq(kv_line(key, value), license_key()),
{
    lemma_kv_first(key, value);
    lemma_line_not_license(kv_line(key, value));
}

/// A section-header line is not a license line.
proof fn lemma_attrset_not_license(name: Seq<char>)
    ensures
        !starts_with_seq(attrset_line(name), license_key()),
{
    lemma_attrset_first(name);
    lemma_line_not_license(attrset_line(name));
}

/// A comment line is not a license line.
proof fn lemma_comment_not_license(text: Seq<char>)
    ensures
        !starts_with_seq(comment_line(text), license_key()),
{
    lemma_comment_first(text);
    lemma_line_not_license(comment_line(text));
}

/// No line of the appended tool-metadata section is a license line.
#[verifier::rlimit(100)]
proof fn lemma_tail_no_license(o: Options, scope: Seq<char>)
    ensures
        count_lines_starting(metadata_tail_lines(o, scope), license_key()) == 0,
{
    reveal_strlit("app");
    reveal_strlit("build");
    reveal_strlit("longDescription");
    reveal_strlit("toolchain");
    reveal_strlit("name");
    reveal_strlit("key");
    reveal_strlit("genericName");
    reveal_strlit("categories");
    reveal_strlit("comment");
    reveal_strlit("icon");
    let pat = license_key();
    let head = seq![
        Seq::<char>::empty(),
        attrset_line(scope + ".metadata.tool"@),
        comment_line("Toggle app flake output"@),
        kv_line("app"@, bool_str(!o.disable_app && !o.disable_build)),
        comment_line("Toggle flake outputs that build (checks, package and app)"@),
        kv_line("build"@, bool_str(!o.disable_build)),
    ];
    let ld = opt_kv_lines("longDescription"@, o.package_long_description);
    let tc = toolchain_lines(o);
    let ca = cache_lines(o, scope);
    let de = desktop_lines(o, scope);
    assert(metadata_tail_lines(o, scope) == head + ld + tc + ca + de);
    assert(count_lines_starting(head, pat) == 0) by {
        assert forall|i: int| 0 <= i < head.len() implies !starts_with_seq(
            #[trigger] head[i],
            pat,
        ) by {
            lemma_line_not_license(Seq::<char>::empty());
            lemma_attrset_not_license(scope + ".metadata.tool"@);
            lemma_comment_not_license("Toggle app flake output"@);
            lemma_kv_not_license("app"@, bool_str(!o.disable_app && !o.disable_build));
            lemma_comment_not_license("Toggle flake outputs that build (checks, package and app)"@);
            lemma_kv_not_license("build"@, bool_str(!o.disable_build));
        }
        lemma_count_zero_when_none(head, pat);
    }
    assert(count_lines_starting(ld, pat) == 0) by {
        assert forall|i: int| 0 <= i < ld.len() implies !starts_with_seq(#[trigger] ld[i], pat) by {
            if o.package_long_description is Some {
                lemma_kv_not_license("longDescription"@, quoted(o.package_long_description->Some_0@));
            }
        }
        lemma_count_zero_when_none(ld, pat);
    }
    assert(count_lines_starting(tc, pat) == 0) by {
        assert forall|i: int| 0 <= i < tc.len() implies !starts_with_seq(#[trigger] tc[i], pat) by {
            lemma_comment_not_license("Toolchain to be used"@);
            lemma_kv_not_license("toolchain"@, quoted(channel_name(o.rust_toolchain_channel)));
        }
        lemma_count_zero_when_none(tc, pat);
    }
    assert(count_lines_starting(ca, pat) == 0) by {
        assert forall|i: int| 0 <= i < ca.len() implies !starts_with_seq(#[trigger] ca[i], pat) by {
            lemma_attrset_not_license(scope + ".metadata.tool.cache"@);
            lemma_comment_not_license("Name of the cachix binary cache"@);
            lemma_comment_not_license("Public key of this cache"@);
            if o.cachix_name is Some {
                lemma_kv_not_license("name"@, quoted(o.cachix_name->Some_0@));
            }
            if o.cachix_public_key is Some {
                lemma_kv_not_license("key"@, quoted(o.cachix_public_key->Some_0@));
            }
        }
        lemma_count_zero_when_none(ca, pat);
    }
    assert(count_lines_starting(de, pat) == 0) by {
        assert forall|i: int| 0 <= i < de.len() implies !starts_with_seq(#[trigger] de[i], pat) by {
            lemma_attrset_not_license(scope + ".metadata.tool.desktop"@);
            if o.package_xdg_desktop_name is Some {
                lemma_kv_not_license("name"@, quoted(o.package_xdg_desktop_name->Some_0@));
            }
            if o.package_xdg_generic_name is Some {
                lemma_kv_not_license("genericName"@, quoted(o.package_xdg_generic_name->Some_0@));
            }
            if o.package_xdg_categories is Some {
                lemma_kv_not_license("categories"@, quoted(o.package_xdg_categories->Some_0@));
            }
            if o.package_xdg_comment is Some {
                lemma_kv_not_license("comment"@, quoted(o.package_xdg_comment->Some_0@));
            }
            if o.package_icon is Some {
                lemma_kv_not_license("icon"@, quoted(o.package_icon->Some_0@));
            }
        }
        lemma_count_zero_when_none(de, pat);
    }
    lemma_count_concat(head, ld, pat);
    lemma_count_concat(head + ld, tc, pat);
    lemma_count_concat(head + ld + tc, ca, pat);
    lemma_count_concat(head + ld + tc + ca, de, pat);
}

/// The patch is additive on licenses: for a document that already holds a
/// license line anywhere, patching leaves the number of license lines
/// unchanged -- no second one is ever inserted.
pub proof fn lemma_patch_license_additive(lines: Seq<Seq<char>>, o: Options)
    requires
        any_line_contains(lines, license_key()),
    ensures
        count_lines_starting(patched_lines(lines, o), license_key()) == count_lines_starting(
            lines,
            license_key(),
        ),
{
    let scope = scope_name(lines);
    let ins = inserted_lines(lines, o);
    lemma_tail_no_license(o, scope);
    lemma_count_concat(ins, metadata_tail_lines(o, scope), license_key());
    match first_identity_line(lines) {
        None => {},
        Some(i) => {
            lemma_first_identity_line(lines);
            let head = lines.take(i + 1);
            let lic = license_insertion(lines, o);
            let desc = description_insertion(lines, o);
            let rest = lines.skip(i + 1);
            assert(lic =~~= Seq::<Seq<char>>::empty());
            lemma_count_concat(head, lic, license_key());
            lemma_count_concat(head + lic, desc, license_key());
            lemma_count_concat(head + lic + desc, rest, license_key());
            assert(count_lines_starting(desc, license_key()) == 0) by {
                reveal_strlit("description");
                if o.package_description is Some && !any_line_contains(lines, description_key()) {
                    lemma_kv_first("description"@, quoted(o.package_description->Some_0@));
                    lemma_line_not_license(desc[0]);
                    assert(desc.drop_first() =~~= Seq::<Seq<char>>::empty());
                } else {
                    assert(desc =~~= Seq::<Seq<char>>::empty());
                }
            }
            assert(head + rest =~~= lines);
            lemma_count_concat(head, rest, license_key());
        },
    }
}

/// The patch deletes and reorders nothing: every pre-existing line stands
/// in the patched document at its old position, shifted past the insertion
/// point by the number of inserted lines.
pub proof fn lemma_patch_preserves_lines(lines: Seq<Seq<char>>, o: Options)
    ensures
        forall|k: int|
            0 <= k < lines.len() ==> patched_lines(lines, o)[patched_position(lines, o, k)]
                == lines[k],
{
    let ins = inserted_lines(lines, o);
    let t = metadata_tail_lines(o, scope_name(lines));
    match first_identity_line(lines) {
        None => {
            assert forall|k: int| 0 <= k < lines.len() implies patched_lines(lines, o)[
                patched_position(lines, o, k)
            ] == lines[k] by {
                assert(patched_lines(lines, o)[k] == ins[k]);
            }
        },
        Some(i) => {
            lemma_first_identity_line(lines);
            let head = lines.take(i + 1);
            let lic = license_insertion(lines, o);
            let desc = description_insertion(lines, o);
            let rest = lines.skip(i + 1);
            let shift = lic.len() + desc.len();
            assert forall|k: int| 0 <= k < lines.len() implies patched_lines(lines, o)[
                patched_position(lines, o, k)
            ] == lines[k] by {
                if k <= i {
                    assert(ins[k] == head[k]);
                    assert(patched_lines(lines, o)[k] == ins[k]);
                } else {
                    assert(ins[k + shift] == rest[k - (i + 1)]);
                    assert(rest[k - (i + 1)] == lines[k]);
                    assert(patched_lines(lines, o)[k + shift] == ins[k + shift]);
                }
            }
        },
    }
}

/// Where line `k` of the original document stands in the patched one.
pub open spec fn patched_position(lines: Seq<Seq<char>>, o: Options, k: int) -> int {
    match first_identity_line(lines) {
        None => k,
        Some(i) => if k <= i {
            k
        } else {
            k + license_insertion(lines, o).len() + description_insertion(lines, o).len()
        },
    }
}

/// Scope selection: the appended section header carries workspace scope
/// exactly when the document has no identity line, package scope when it
/// has one.
pub proof fn lemma_patch_scope_header(lines: Seq<Seq<char>>, o: Options)
    ensures
        first_identity_line(lines) is None ==> patched_lines(lines, o)[lines.len() as int + 1]
            == attrset_line("workspace.metadata.tool"@),
        first_identity_line(lines) is Some ==> patched_lines(lines, o)[inserted_lines(
            lines,
            o,
        ).len() as int + 1] == attrset_line("package.metadata.tool"@),
{
    reveal_strlit("workspace");
    reveal_strlit("package");
    reveal_strlit(".metadata.tool");
    reveal_strlit("workspace.metadata.tool");
    reveal_strlit("package.metadata.tool");
    assert("workspace"@ + ".metadata.tool"@ =~= "workspace.metadata.tool"@);
    assert("package"@ + ".metadata.tool"@ =~= "package.metadata.tool"@);
    let ins = inserted_lines(lines, o);
    let t = metadata_tail_lines(o, scope_name(lines));
    assert(t[1] == attrset_line(scope_name(lines) + ".metadata.tool"@));
    assert(patched_lines(lines, o)[ins.len() as int + 1] == t[1]);
    if first_identity_line(lines) is None {
        assert(ins == lines);
    }
}

/// With a cache name but no public key, the cache sub-section holds exactly
/// the header, its comment and the name line -- and no key line at all.
pub proof fn lemma_cache_section_omits_key(o: Options, scope: Seq<char>)
    requires
        o.cachix_name is Some,
        o.cachix_public_key is None,
    ensures
        cache_lines(o, scope).len() == 3,
        cache_lines(o, scope)[2] == kv_line("name"@, quoted(o.cachix_name->Some_0@)),
        forall|i: int|
            0 <= i < cache_lines(o, scope).len() ==> !starts_with_seq(
                #[trigger] cache_lines(o, scope)[i],
                "key = "@,
            ),
{
    reveal_strlit("key = ");
    reveal_strlit("name");
    let c = cache_lines(o, scope);
    assert(c.len() == 3);
    assert forall|i: int| 0 <= i < c.len() implies !starts_with_seq(c[i], "key = "@) by {
        let l = c[i];
        lemma_attrset_first(scope + ".metadata.tool.cache"@);
        lemma_comment_first("Name of the cachix binary cache"@);
        lemma_kv_first("name"@, quoted(o.cachix_name->Some_0@));
        if starts_with_seq(l, "key = "@) {
            assert(l.subrange(0, 6) == "key = "@);
            assert(l.subrange(0, 6)[0] == "key = "@[0]);
            assert(l[0] == 'k');
        }
    }
}

/// A desktop entry requested on a library package yields no desktop
/// sub-section in the appended metadata.
pub proof fn lemma_no_desktop_section_for_library(o: Options, scope: Seq<char>)
    requires
        o.package_lib,
    ensures
        desktop_lines(o, scope) == Seq::<Seq<char>>::empty(),
{
}

} // verus!

