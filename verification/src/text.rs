//! Character-level text utilities: substring search and line-oriented
//! splitting and joining. Everything here is pure and specified over
//! `Seq<char>`.

use vstd::prelude::*;

verus! {

/// `pat` occurs in `s` starting at index `i`.
pub open spec fn matches_at(s: Seq<char>, i: int, pat: Seq<char>) -> bool {
    0 <= i && i + pat.len() <= s.len() && s.subrange(i, i + pat.len() as int) == pat
}

/// `pat` occurs somewhere in `s`.
pub open spec fn contains_seq(s: Seq<char>, pat: Seq<char>) -> bool {
    exists|i: int| matches_at(s, i, pat)
}

/// `s` begins with `pat`.
pub open spec fn starts_with_seq(s: Seq<char>, pat: Seq<char>) -> bool {
    matches_at(s, 0, pat)
}

/// Whether `pat` occurs in `s` at position `i`.
fn matches_at_exec(s: &str, i: usize, pat: &str) -> (r: bool)
    requires
        i + pat@.len() <= s@.len(),
    ensures
        r == matches_at(s@, i as int, pat@),
{
    let n = s.unicode_len();
    let m = pat.unicode_len();
    let mut j: usize = 0;
    while j < m
        invariant
            n == s@.len(),
            m == pat@.len(),
            i + m <= n,
            j <= m,
            forall|k: int| 0 <= k < j ==> s@[i + k] == pat@[k],
        decreases m - j,
    {
        if s.get_char(i + j) != pat.get_char(j) {
            proof {
                if matches_at(s@, i as int, pat@) {
                    assert(s@.subrange(i as int, i + pat@.len())[j as int] == pat@[j as int]);
                }
            }
            return false;
        }
        j += 1;
    }
    proof {
        assert(s@.subrange(i as int, i + pat@.len()) =~= pat@);
    }
    true
}

/// The first occurrence of `pat` in `s` at or after position `from`, if any.
pub fn find_from(s: &str, from: usize, pat: &str) -> (r: Option<usize>)
    ensures
        match r {
            Some(k) => from <= k && matches_at(s@, k as int, pat@) && forall|j: int|
                from <= j < k ==> !matches_at(s@, j, pat@),
            None => forall|j: int| from <= j ==> !matches_at(s@, j, pat@),
        },
{
    let n = s.unicode_len();
    let m = pat.unicode_len();
    if from > n {
        return None;
    }
    if m == 0 {
        proof {
            assert(s@.subrange(from as int, from as int) =~= pat@);
        }
        return Some(from);
    }
    if m > n || from > n - m {
        return None;
    }
    let mut i: usize = from;
    while i <= n - m
        invariant
            n == s@.len(),
            m == pat@.len(),
            1 <= m <= n,
            from <= i <= n - m + 1,
            forall|j: int| from <= j < i ==> !matches_at(s@, j, pat@),
        decreases n - i,
    {
        if matches_at_exec(s, i, pat) {
            return Some(i);
        }
        i += 1;
    }
    None
}

/// Whether `pat` occurs anywhere in `s`.
pub fn contains_str(s: &str, pat: &str) -> (r: bool)
    ensures
        r == contains_seq(s@, pat@),
{
    let r = find_from(s, 0, pat);
    proof {
        if r is None && contains_seq(s@, pat@) {
            let i = choose|i: int| matches_at(s@, i, pat@);
            assert(!matches_at(s@, i, pat@));
        }
    }
    r.is_some()
}

/// Whether `s` begins with `pat`.
pub fn starts_with_str(s: &str, pat: &str) -> (r: bool)
    ensures
        r == starts_with_seq(s@, pat@),
{
    let n = s.unicode_len();
    let m = pat.unicode_len();
    if m > n {
        false
    } else {
        matches_at_exec(s, 0, pat)
    }
}

/// Whether the characters of `s` and `t` coincide.
pub fn str_eq(s: &str, t: &str) -> (r: bool)
    ensures
        r == (s@ == t@),
{
    let n = s.unicode_len();
    let m = t.unicode_len();
    if n != m {
        return false;
    }
    let r = matches_at_exec(s, 0, t);
    proof {
        if r {
            assert(s@.subrange(0, s@.len() as int) =~= s@);
        } else {
            if s@ == t@ {
                assert(s@.subrange(0, t@.len() as int) =~= t@);
            }
        }
    }
    r
}

/// A line holds no newline character.
pub open spec fn line_ok(l: Seq<char>) -> bool {
    forall|j: int| 0 <= j < l.len() ==> l[j] != '\n'
}

/// A valid line decomposition: at least one line, none holding a newline.
pub open spec fn lines_ok(lines: Seq<Seq<char>>) -> bool {
    &&& lines.len() >= 1
    &&& forall|i: int| 0 <= i < lines.len() ==> line_ok(#[trigger] lines[i])
}

/// The text that a sequence of lines denotes: the lines joined by newlines.
pub open spec fn join_lines_spec(lines: Seq<Seq<char>>) -> Seq<char>
    decreases lines.len(),
{
    if lines.len() == 0 {
        Seq::empty()
    } else if lines.len() == 1 {
        lines[0]
    } else {
        lines[0] + seq!['\n'] + join_lines_spec(lines.drop_first())
    }
}

/// The line decomposition of `s`: the unique newline-free line sequence whose
/// joining gives back `s` (unique by `lemma_join_lines_injective`).
pub open spec fn split_of(s: Seq<char>) -> Seq<Seq<char>> {
    choose|lines: Seq<Seq<char>>| lines_ok(lines) && join_lines_spec(lines) == s
}

/// Joining after appending one line appends a newline separator (when the
/// sequence was non-empty) and the line's text.
pub proof fn lemma_join_push(lines: Seq<Seq<char>>, l: Seq<char>)
    ensures
        join_lines_spec(lines.push(l)) == if lines.len() == 0 {
            l
        } else {
            join_lines_spec(lines) + seq!['\n'] + l
        },
    decreases lines.len(),
{
    let p = lines.push(l);
    if lines.len() == 0 {
        assert(p.len() == 1);
        assert(p[0] == l);
    } else if lines.len() == 1 {
        assert(p.drop_first() =~= seq![l]);
        assert(join_lines_spec(p) == p[0] + seq!['\n'] + join_lines_spec(seq![l]));
        assert(join_lines_spec(seq![l]) == l);
        assert(p[0] == lines[0]);
        assert(join_lines_spec(lines) == lines[0]);
    } else {
        assert(p.drop_first() =~= lines.drop_first().push(l));
        lemma_join_push(lines.drop_first(), l);
        assert(join_lines_spec(p) == lines[0] + seq!['\n'] + (join_lines_spec(
            lines.drop_first(),
        ) + seq!['\n'] + l));
        assert(join_lines_spec(lines) == lines[0] + seq!['\n'] + join_lines_spec(
            lines.drop_first(),
        ));
        assert(lines[0] + seq!['\n'] + (join_lines_spec(lines.drop_first()) + seq!['\n'] + l) =~= (
        lines[0] + seq!['\n'] + join_lines_spec(lines.drop_first())) + seq!['\n'] + l);
    }
}

/// Two newline-free line decompositions of the same text are the same
/// decomposition: joining is injective on valid line sequences.
pub proof fn lemma_join_lines_injective(a: Seq<Seq<char>>, b: Seq<Seq<char>>)
    requires
        lines_ok(a),
        lines_ok(b),
        join_lines_spec(a) == join_lines_spec(b),
    ensures
        a == b,
    decreases a.len(),
{
    let ja = join_lines_spec(a);
    let jb = join_lines_spec(b);
    if a.len() == 1 && b.len() == 1 {
        assert(a =~~= b);
    } else if a.len() == 1 {
        // b has at least two lines, so its joining holds a newline where
        // a's single newline-free line cannot.
        let l0 = b[0].len() as int;
        assert(jb == b[0] + seq!['\n'] + join_lines_spec(b.drop_first()));
        assert(jb[l0] == '\n');
        assert(ja == a[0]);
        assert(ja[l0] != '\n');
    } else if b.len() == 1 {
        let l0 = a[0].len() as int;
        assert(ja == a[0] + seq!['\n'] + join_lines_spec(a.drop_first()));
        assert(ja[l0] == '\n');
        assert(jb == b[0]);
        assert(jb[l0] != '\n');
    } else {
        let la = a[0].len() as int;
        let lb = b[0].len() as int;
        assert(ja == a[0] + seq!['\n'] + join_lines_spec(a.drop_first()));
        assert(jb == b[0] + seq!['\n'] + join_lines_spec(b.drop_first()));
        assert(ja[la] == '\n');
        assert(jb[lb] == '\n');
        if la < lb {
            assert(jb[la] == b[0][la]);
            assert(jb[la] != '\n');
            assert(false);
        }
        if lb < la {
            assert(ja[lb] == a[0][lb]);
            assert(ja[lb] != '\n');
            assert(false);
        }
        assert(la == lb);
        assert forall|k: int| 0 <= k < la implies a[0][k] == b[0][k] by {
            assert(ja[k] == (a[0] + seq!['\n'])[k]);
            assert(ja[k] == a[0][k]);
            assert(jb[k] == (b[0] + seq!['\n'])[k]);
            assert(jb[k] == b[0][k]);
        }
        assert(a[0] =~= b[0]);
        assert(join_lines_spec(a.drop_first()) =~= join_lines_spec(b.drop_first())) by {
            let ra = join_lines_spec(a.drop_first());
            let rb = join_lines_spec(b.drop_first());
            assert(ja.len() == la + 1 + ra.len());
            assert(jb.len() == lb + 1 + rb.len());
            assert(forall|k: int| 0 <= k < ra.len() ==> ja[la + 1 + k] == ra[k]);
            assert(forall|k: int| 0 <= k < rb.len() ==> jb[lb + 1 + k] == rb[k]);
        }
        assert(lines_ok(a.drop_first())) by {
            assert(forall|i: int| 0 <= i < a.drop_first().len() ==> a.drop_first()[i] == a[i + 1]);
        }
        assert(lines_ok(b.drop_first())) by {
            assert(forall|i: int| 0 <= i < b.drop_first().len() ==> b.drop_first()[i] == b[i + 1]);
        }
        lemma_join_lines_injective(a.drop_first(), b.drop_first());
        assert(a =~~= b) by {
            assert(forall|i: int| 1 <= i < a.len() ==> a[i] == a.drop_first()[i - 1] && b[i]
                == b.drop_first()[i - 1]);
        }
    }
}

/// Split `s` into its lines at newline characters.
pub fn split_lines(s: &str) -> (r: Vec<String>)
    ensures
        lines_ok(r.deep_view()),
        join_lines_spec(r.deep_view()) == s@,
        r.deep_view() == split_of(s@),
{
    let n = s.unicode_len();
    let mut r: Vec<String> = Vec::new();
    let mut start: usize = 0;
    let mut i: usize = 0;
    proof {
        assert(s@.subrange(0, 0) =~= Seq::<char>::empty());
    }
    while i < n
        invariant
            n == s@.len(),
            start <= i <= n,
            forall|k: int| 0 <= k < r.deep_view().len() ==> line_ok(#[trigger] r.deep_view()[k]),
            line_ok(s@.subrange(start as int, i as int)),
            r.len() == 0 ==> start == 0,
            join_lines_spec(r.deep_view().push(s@.subrange(start as int, i as int))) == s@.subrange(
                0,
                i as int,
            ),
        decreases n - i,
    {
        let ghost dv = r.deep_view();
        let ghost cur = s@.subrange(start as int, i as int);
        let c = s.get_char(i);
        if c == '\n' {
            let line = String::from_str(s.substring_char(start, i));
            r.push(line);
            proof {
                assert(r.deep_view() =~~= dv.push(cur));
                lemma_join_push(dv, cur);
                lemma_join_push(dv.push(cur), s@.subrange(i + 1, i + 1));
                assert(s@.subrange(i + 1, i + 1) =~= Seq::<char>::empty());
                assert(join_lines_spec(dv.push(cur).push(s@.subrange(i + 1, i + 1)))
                    =~= join_lines_spec(dv.push(cur)) + seq!['\n'] + Seq::<char>::empty());
                assert(s@.subrange(0, i + 1) =~= s@.subrange(0, i as int) + seq![s@[i as int]]);
                assert(join_lines_spec(dv.push(cur)) + seq!['\n'] + Seq::<char>::empty()
                    =~= s@.subrange(0, i as int) + seq![s@[i as int]]);
            }
            start = i + 1;
        } else {
            proof {
                let cur2 = s@.subrange(start as int, i + 1);
                assert(cur2 =~= cur + seq![s@[i as int]]);
                lemma_join_push(dv, cur);
                lemma_join_push(dv, cur2);
                assert(s@.subrange(0, i + 1) =~= s@.subrange(0, i as int) + seq![s@[i as int]]);
                if dv.len() == 0 {
                    assert(join_lines_spec(dv.push(cur2)) =~= s@.subrange(0, i + 1));
                } else {
                    assert(join_lines_spec(dv) + seq!['\n'] + cur2 =~= (join_lines_spec(dv)
                        + seq!['\n'] + cur) + seq![s@[i as int]]);
                }
            }
        }
        i += 1;
    }
    let ghost dv = r.deep_view();
    let line = String::from_str(s.substring_char(start, n));
    r.push(line);
    proof {
        let w = r.deep_view();
        assert(w =~~= dv.push(s@.subrange(start as int, n as int)));
        assert(join_lines_spec(w) == s@.subrange(0, n as int));
        assert(s@.subrange(0, n as int) =~= s@);
        assert(exists|lines: Seq<Seq<char>>| lines_ok(lines) && join_lines_spec(lines) == s@) by {
            assert(lines_ok(w) && join_lines_spec(w) == s@);
        }
        assert(lines_ok(split_of(s@)) && join_lines_spec(split_of(s@)) == s@);
        lemma_join_lines_injective(w, split_of(s@));
    }
    r
}

/// Join lines with newline separators.
pub fn join_lines(lines: &Vec<String>) -> (r: String)
    ensures
        r@ == join_lines_spec(lines.deep_view()),
{
    let mut r = String::new();
    let mut i: usize = 0;
    proof {
        assert(lines.deep_view().take(0) =~~= Seq::<Seq<char>>::empty());
    }
    while i < lines.len()
        invariant
            i <= lines.len(),
            lines.deep_view().len() == lines.len(),
            r@ == join_lines_spec(lines.deep_view().take(i as int)),
        decreases lines.len() - i,
    {
        let ghost dv = lines.deep_view();
        if i > 0 {
            r.append("\n");
        }
        r.append(lines[i].as_str());
        proof {
            reveal_strlit("\n");
            assert("\n"@ =~= seq!['\n']);
            assert(dv[i as int] == lines@[i as int]@);
            lemma_join_push(dv.take(i as int), dv[i as int]);
            assert(dv.take(i as int).push(dv[i as int]) =~~= dv.take(i + 1));
            if i == 0 {
                assert(r@ =~= join_lines_spec(dv.take(i + 1)));
            } else {
                assert(r@ =~= join_lines_spec(dv.take(i as int)) + seq!['\n'] + dv[i as int]);
            }
        }
        i += 1;
    }
    proof {
        assert(lines.deep_view().take(lines.len() as int) =~~= lines.deep_view());
    }
    r
}

} // verus!
