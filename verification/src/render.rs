//! The template renderer: substitutes `{{key}}` placeholders with context
//! values and includes `{{#key}}...{{/key}}` blocks only when the key is
//! bound. A placeholder whose key is neither bound nor recognized as
//! intentionally absent fails with the template error.

use vstd::prelude::*;

use crate::context::{ctx_lookup, lookup_spec, recognized_key, recognized_key_spec};
use crate::error::Error;
use crate::text::{find_from, matches_at};

verus! {

/// The opening marker of a placeholder.
pub open spec fn open_marker() -> Seq<char> {
    "{{"@
}

/// The closing marker of a placeholder.
pub open spec fn close_marker() -> Seq<char> {
    "}}"@
}

/// The closing tag of a conditional block over `key`.
pub open spec fn block_close(key: Seq<char>) -> Seq<char> {
    "{{/"@ + key + "}}"@
}

/// The first occurrence of `pat` in `s` at or after `from`, if any.
pub open spec fn first_at(s: Seq<char>, pat: Seq<char>, from: int) -> Option<int>
    decreases s.len() - from,
{
    if from + pat.len() > s.len() {
        None
    } else if pat.len() == 0 {
        Some(from)
    } else if matches_at(s, from, pat) {
        Some(from)
    } else {
        first_at(s, pat, from + 1)
    }
}

/// What `first_at` returns: the first match position at or after `from`,
/// none earlier; or no match at all.
pub proof fn lemma_first_at(s: Seq<char>, pat: Seq<char>, from: int)
    requires
        0 <= from,
    ensures
        match first_at(s, pat, from) {
            Some(k) => from <= k && matches_at(s, k, pat) && forall|j: int|
                from <= j < k ==> !matches_at(s, j, pat),
            None => forall|j: int| from <= j ==> !matches_at(s, j, pat),
        },
    decreases s.len() - from,
{
    if from + pat.len() > s.len() {
    } else if pat.len() == 0 {
        assert(s.subrange(from, from) =~= pat);
        assert(matches_at(s, from, pat));
    } else if matches_at(s, from, pat) {
    } else {
        lemma_first_at(s, pat, from + 1);
    }
}

/// A result that satisfies the first-match characterization is what
/// `first_at` returns.
pub proof fn lemma_first_at_is(s: Seq<char>, pat: Seq<char>, from: int, r: Option<int>)
    requires
        0 <= from,
        match r {
            Some(k) => from <= k && matches_at(s, k, pat) && forall|j: int|
                from <= j < k ==> !matches_at(s, j, pat),
            None => forall|j: int| from <= j ==> !matches_at(s, j, pat),
        },
    ensures
        first_at(s, pat, from) == r,
{
    lemma_first_at(s, pat, from);
    match (first_at(s, pat, from), r) {
        (Some(a), Some(b)) => {
            if a < b {
                assert(!matches_at(s, a, pat));
            }
            if b < a {
                assert(!matches_at(s, b, pat));
            }
        },
        (Some(a), None) => {
            assert(!matches_at(s, a, pat));
        },
        (None, Some(b)) => {
            assert(!matches_at(s, b, pat));
        },
        (None, None) => {},
    }
}

/// The rendering of a template body under a context: every `{{key}}` is
/// replaced by the bound value (or nothing, for a recognized absent key);
/// every `{{#key}}...{{/key}}` block is kept, rendered, exactly when the
/// key is bound; an unbound, unrecognized key is the error.
pub open spec fn render_spec(s: Seq<char>, ctx: Seq<(Seq<char>, Seq<char>)>) -> Result<
    Seq<char>,
    Seq<char>,
>
    decreases s.len(),
    via render_spec_dec
{
    match first_at(s, open_marker(), 0) {
        None => Ok(s),
        Some(i) => {
            let prefix = s.take(i);
            if i + 2 < s.len() && s[i + 2] == '#' {
                match first_at(s, close_marker(), i + 3) {
                    None => Err(s.skip(i + 3)),
                    Some(j) => {
                        let key = s.subrange(i + 3, j);
                        match first_at(s, block_close(key), j + 2) {
                            None => Err(key),
                            Some(c) => {
                                let body = s.subrange(j + 2, c);
                                let tail = s.skip(c + block_close(key).len());
                                if lookup_spec(ctx, key) is Some {
                                    match render_spec(body, ctx) {
                                        Err(e) => Err(e),
                                        Ok(b) => match render_spec(tail, ctx) {
                                            Err(e) => Err(e),
                                            Ok(t) => Ok(prefix + b + t),
                                        },
                                    }
                                } else if recognized_key_spec(key) {
                                    match render_spec(tail, ctx) {
                                        Err(e) => Err(e),
                                        Ok(t) => Ok(prefix + t),
                                    }
                                } else {
                                    Err(key)
                                }
                            },
                        }
                    },
                }
            } else {
                match first_at(s, close_marker(), i + 2) {
                    None => Err(s.skip(i + 2)),
                    Some(j) => {
                        let key = s.subrange(i + 2, j);
                        let tail = s.skip(j + 2);
                        match lookup_spec(ctx, key) {
                            Some(v) => match render_spec(tail, ctx) {
                                Err(e) => Err(e),
                                Ok(t) => Ok(prefix + v + t),
                            },
                            None => if recognized_key_spec(key) {
                                match render_spec(tail, ctx) {
                                    Err(e) => Err(e),
                                    Ok(t) => Ok(prefix + t),
                                }
                            } else {
                                Err(key)
                            },
                        }
                    },
                }
            }
        },
    }
}

#[via_fn]
proof fn render_spec_dec(s: Seq<char>, ctx: Seq<(Seq<char>, Seq<char>)>) {
    reveal_strlit("{{");
    reveal_strlit("}}");
    reveal_strlit("{{/");
    lemma_first_at(s, open_marker(), 0);
    match first_at(s, open_marker(), 0) {
        None => {},
        Some(i) => {
            if i + 2 < s.len() && s[i + 2] == '#' {
                lemma_first_at(s, close_marker(), i + 3);
                match first_at(s, close_marker(), i + 3) {
                    None => {},
                    Some(j) => {
                        let key = s.subrange(i + 3, j);
                        lemma_first_at(s, block_close(key), j + 2);
                    },
                }
            } else {
                lemma_first_at(s, close_marker(), i + 2);
            }
        },
    }
}

/// Render a template body under a context. Errs with the template error,
/// naming the offending key, exactly when the body references a key that
/// is neither bound nor recognized, or holds an unterminated placeholder
/// or block.
pub fn render_template(body: &str, ctx: &Vec<(String, String)>) -> (r: Result<String, Error>)
    ensures
        match r {
            Ok(out) => render_spec(body@, ctx.deep_view()) == Ok::<Seq<char>, Seq<char>>(out@),
            Err(e) => match e {
                Error::Template(k) => render_spec(body@, ctx.deep_view()) == Err::<
                    Seq<char>,
                    Seq<char>,
                >(k@),
                _ => false,
            },
        },
    decreases body@.len(),
{
    proof {
        reveal_strlit("{{");
        reveal_strlit("}}");
        reveal_strlit("{{/");
    }
    let n = body.unicode_len();
    let found_open = find_from(body, 0, "{{");
    proof {
        match found_open {
            Some(k) => lemma_first_at_is(body@, open_marker(), 0, Some(k as int)),
            None => lemma_first_at_is(body@, open_marker(), 0, None),
        }
    }
    let i = match found_open {
        None => {
            return Ok(String::from_str(body));
        },
        Some(i) => i,
    };
    let prefix = body.substring_char(0, i);
    proof {
        assert(prefix@ =~= body@.take(i as int));
    }
    if i + 2 < n && body.get_char(i + 2) == '#' {
        let found_close = find_from(body, i + 3, "}}");
        proof {
            match found_close {
                Some(k) => lemma_first_at_is(body@, close_marker(), i + 3, Some(k as int)),
                None => lemma_first_at_is(body@, close_marker(), i + 3, None),
            }
        }
        match found_close {
            None => {
                let rest = body.substring_char(i + 3, n);
                proof {
                    assert(rest@ =~= body@.skip(i + 3));
                }
                Err(Error::Template(String::from_str(rest)))
            },
            Some(j) => {
                let key = body.substring_char(i + 3, j);
                let mut closepat = String::from_str("{{/");
                closepat.append(key);
                closepat.append("}}");
                let found_block = find_from(body, j + 2, closepat.as_str());
                proof {
                    assert(closepat@ == block_close(key@));
                    match found_block {
                        Some(k) => lemma_first_at_is(
                            body@,
                            block_close(key@),
                            j + 2,
                            Some(k as int),
                        ),
                        None => lemma_first_at_is(body@, block_close(key@), j + 2, None),
                    }
                }
                match found_block {
                    None => Err(Error::Template(String::from_str(key))),
                    Some(c) => {
                        let clen = closepat.as_str().unicode_len();
                        let inner = body.substring_char(j + 2, c);
                        let tail = body.substring_char(c + clen, n);
                        proof {
                            assert(inner@ =~= body@.subrange(j + 2, c as int));
                            assert(tail@ =~= body@.skip(c + block_close(key@).len()));
                            assert(inner@.len() < body@.len());
                            assert(tail@.len() < body@.len());
                        }
                        let hit = ctx_lookup(ctx, key);
                        if hit.is_some() {
                            match render_template(inner, ctx) {
                                Err(e) => Err(e),
                                Ok(b) => match render_template(tail, ctx) {
                                    Err(e) => Err(e),
                                    Ok(t) => {
                                        let mut out = String::from_str(prefix);
                                        out.append(b.as_str());
                                        out.append(t.as_str());
                                        Ok(out)
                                    },
                                },
                            }
                        } else if recognized_key(key) {
                            match render_template(tail, ctx) {
                                Err(e) => Err(e),
                                Ok(t) => {
                                    let mut out = String::from_str(prefix);
                                    out.append(t.as_str());
                                    Ok(out)
                                },
                            }
                        } else {
                            Err(Error::Template(String::from_str(key)))
                        }
                    },
                }
            },
        }
    } else {
        let found_close = find_from(body, i + 2, "}}");
        proof {
            match found_close {
                Some(k) => lemma_first_at_is(body@, close_marker(), i + 2, Some(k as int)),
                None => lemma_first_at_is(body@, close_marker(), i + 2, None),
            }
        }
        match found_close {
            None => {
                let rest = body.substring_char(i + 2, n);
                proof {
                    assert(rest@ =~= body@.skip(i + 2));
                }
                Err(Error::Template(String::from_str(rest)))
            },
            Some(j) => {
                let key = body.substring_char(i + 2, j);
                let tail = body.substring_char(j + 2, n);
                proof {
                    assert(tail@ =~= body@.skip(j + 2));
                    assert(tail@.len() < body@.len());
                }
                let hit = ctx_lookup(ctx, key);
                match hit {
                    Some(v) => match render_template(tail, ctx) {
                        Err(e) => Err(e),
                        Ok(t) => {
                            let mut out = String::from_str(prefix);
                            out.append(v.as_str());
                            out.append(t.as_str());
                            Ok(out)
                        },
                    },
                    None => if recognized_key(key) {
                        match render_template(tail, ctx) {
                            Err(e) => Err(e),
                            Ok(t) => {
                                let mut out = String::from_str(prefix);
                                out.append(t.as_str());
                                Ok(out)
                            },
                        }
                    } else {
                        Err(Error::Template(String::from_str(key)))
                    },
                }
            },
        }
    }
}

} // verus!
