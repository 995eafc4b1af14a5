//! What replacing does to a text made of plain pieces and placeholders.

use vstd::prelude::*;

use crate::template::{
    brackets_balanced, first_pair_from, lemma_first_pair_from, ordered_from, pair_at, pair_count, placeholder,
    placeholders_ordered, replace_all, substitute_from, substituted,
};

verus! {

// ---------------------------------------------------------------------------
// A text made of plain pieces and placeholders
// ---------------------------------------------------------------------------
/// No `{` and no `}` stand in `s`.
pub open spec fn brace_free(s: Seq<char>) -> bool {
    forall|i: int| 0 <= i < s.len() ==> s[i] != '{' && s[i] != '}'
}

/// The text `s0`, then, for each `(name, text)` of `items`, the placeholder
/// of the name followed by the text.
pub open spec fn template_of(s0: Seq<char>, items: Seq<(Seq<char>, Seq<char>)>) -> Seq<char>
    decreases items.len(),
{
    if items.len() == 0 {
        s0
    } else {
        s0 + placeholder(items[0].0) + template_of(items[0].1, items.skip(1))
    }
}

/// What stands for the placeholder of `name` once it is filled: the value
/// of a known variable, the placeholder itself otherwise.
pub open spec fn filled_placeholder(name: Seq<char>, vars: Map<Seq<char>, Seq<char>>) -> Seq<char> {
    if vars.contains_key(name) {
        vars[name]
    } else {
        placeholder(name)
    }
}

/// `template_of(s0, items)` with each placeholder filled.
pub open spec fn filled_of(
    s0: Seq<char>,
    items: Seq<(Seq<char>, Seq<char>)>,
    vars: Map<Seq<char>, Seq<char>>,
) -> Seq<char>
    decreases items.len(),
{
    if items.len() == 0 {
        s0
    } else {
        s0 + filled_placeholder(items[0].0, vars) + filled_of(items[0].1, items.skip(1), vars)
    }
}

/// The plain pieces and the names of a template hold no brace.
pub open spec fn pieces_brace_free(s0: Seq<char>, items: Seq<(Seq<char>, Seq<char>)>) -> bool {
    &&& brace_free(s0)
    &&& forall|i: int| #![trigger items[i]] 0 <= i < items.len() ==> brace_free(items[i].0) && brace_free(items[i].1)
}

/// No value of the variables holds a brace.
pub open spec fn values_brace_free(vars: Map<Seq<char>, Seq<char>>) -> bool {
    forall|k: Seq<char>| vars.contains_key(k) ==> brace_free(#[trigger] vars[k])
}

/// The template with the placeholders of the names in `done` filled.
spec fn rendered(
    s0: Seq<char>,
    items: Seq<(Seq<char>, Seq<char>)>,
    done: Set<Seq<char>>,
    vars: Map<Seq<char>, Seq<char>>,
) -> Seq<char>
    decreases items.len(),
{
    if items.len() == 0 {
        s0
    } else {
        s0 + (if done.contains(items[0].0) {
            filled_placeholder(items[0].0, vars)
        } else {
            placeholder(items[0].0)
        }) + rendered(items[0].1, items.skip(1), done, vars)
    }
}

/// One step of the scan: the placeholders of `name` replaced in `acc` when
/// the variables hold it.
spec fn scan_step(acc: Seq<char>, name: Seq<char>, vars: Map<Seq<char>, Seq<char>>) -> Seq<char> {
    if vars.contains_key(name) {
        replace_all(acc, placeholder(name), vars[name])
    } else {
        acc
    }
}

/// The steps of the scan for the names of `items`, in order.
spec fn scan_steps(acc: Seq<char>, items: Seq<(Seq<char>, Seq<char>)>, vars: Map<Seq<char>, Seq<char>>) -> Seq<
    char,
>
    decreases items.len(),
{
    if items.len() == 0 {
        acc
    } else {
        scan_steps(scan_step(acc, items[0].0, vars), items.skip(1), vars)
    }
}

/// The names of `items`.
spec fn names_of(items: Seq<(Seq<char>, Seq<char>)>) -> Set<Seq<char>>
    decreases items.len(),
{
    if items.len() == 0 {
        Set::empty()
    } else {
        names_of(items.skip(1)).insert(items[0].0)
    }
}

proof fn lemma_pieces_rest(s0: Seq<char>, items: Seq<(Seq<char>, Seq<char>)>)
    requires
        pieces_brace_free(s0, items),
        items.len() > 0,
    ensures
        pieces_brace_free(items[0].1, items.skip(1)),
        brace_free(items[0].0),
{
    assert(items.skip(1).len() == items.len() - 1);
    assert forall|i: int| #![trigger items.skip(1)[i]] 0 <= i < items.skip(1).len() implies brace_free(
        items.skip(1)[i].0,
    ) && brace_free(items.skip(1)[i].1) by {
        assert(items.skip(1)[i] == items[i + 1]);
    }
    assert(items[0] == items[0]);
}

proof fn lemma_first_pair_shift(a: Seq<char>, y: Seq<char>, c: char, i: nat)
    ensures
        first_pair_from(a + y, c, a.len() + i) == match first_pair_from(y, c, i) {
            Some(k) => Some(a.len() + k),
            None => None::<nat>,
        },
    decreases y.len() - i,
{
    let x = a + y;
    if i + 1 < y.len() {
        assert(x[a.len() + i as int] == y[i as int]);
        assert(x[a.len() + i + 1int] == y[i + 1int]);
        if !(y[i as int] == c && y[i + 1int] == c) {
            lemma_first_pair_shift(a, y, c, i + 1);
            assert(a.len() + i + 1 == a.len() + (i + 1));
        }
    }
}

proof fn lemma_substitute_shift(a: Seq<char>, y: Seq<char>, i: nat, acc: Seq<char>, vars: Map<Seq<char>, Seq<char>>)
    ensures
        substitute_from(a + y, a.len() + i, acc, vars) == substitute_from(y, i, acc, vars),
        ordered_from(a + y, a.len() + i) == ordered_from(y, i),
    decreases y.len() - i,
{
    let x = a + y;
    lemma_first_pair_shift(a, y, '{', i);
    lemma_first_pair_shift(a, y, '}', i);
    lemma_first_pair_from(y, '}', i);
    lemma_first_pair_from(x, '}', a.len() + i);
    match (first_pair_from(y, '{', i), first_pair_from(y, '}', i)) {
        (Some(st), Some(en)) => {
            if st + 2 <= en {
                assert(x.subrange(a.len() + st + 2int, a.len() + en as int) =~= y.subrange(st + 2int, en as int));
                let name = y.subrange(st + 2int, en as int);
                let next = if vars.contains_key(name) {
                    replace_all(acc, placeholder(name), vars[name])
                } else {
                    acc
                };
                lemma_substitute_shift(a, y, en + 2, next, vars);
                lemma_substitute_shift(a, y, en + 2, acc, vars);
                assert(a.len() + en + 2 == a.len() + (en + 2));
            }
        },
        _ => {},
    }
}

/// The scan meets the placeholder of `name` right after the plain `s`.
proof fn lemma_scan_one(s: Seq<char>, name: Seq<char>, y: Seq<char>, acc: Seq<char>, vars: Map<Seq<char>, Seq<char>>)
    requires
        brace_free(s),
        brace_free(name),
    ensures
        substitute_from(s + placeholder(name) + y, 0, acc, vars) == substitute_from(y, 0, scan_step(acc, name, vars), vars),
        ordered_from(s + placeholder(name) + y, 0) == ordered_from(y, 0),
{
    let p = placeholder(name);
    let a = s + p;
    let x = a + y;
    let n: int = s.len() as int;
    let m: int = name.len() as int;
    assert(x[n] == '{' && x[n + 1] == '{');
    assert(pair_at(x, '{', n));
    lemma_first_pair_from(x, '{', 0);
    assert(first_pair_from(x, '{', 0) == Some(n as nat)) by {
        match first_pair_from(x, '{', 0) {
            Some(k) => {
                if k < n {
                    assert(x[k as int] == s[k as int]);
                }
            },
            None => {},
        }
    }
    let en: int = n + 2 + m;
    assert(x[en] == '}' && x[en + 1] == '}');
    assert(pair_at(x, '}', en));
    lemma_first_pair_from(x, '}', 0);
    assert(first_pair_from(x, '}', 0) == Some(en as nat)) by {
        match first_pair_from(x, '}', 0) {
            Some(k) => {
                if k < en {
                    if k < n {
                        assert(x[k as int] == s[k as int]);
                    } else if k < n + 2 {
                        assert(x[k as int] == '{');
                    } else {
                        assert(x[k as int] == name[k - n - 2]);
                    }
                }
            },
            None => {},
        }
    }
    assert(x.subrange(n + 2, en) =~= name);
    assert(a.len() == en + 2);
    lemma_substitute_shift(a, y, 0, scan_step(acc, name, vars), vars);
    assert(a.len() + 0 == en + 2);
}

proof fn lemma_scan(s0: Seq<char>, items: Seq<(Seq<char>, Seq<char>)>, acc: Seq<char>, vars: Map<Seq<char>, Seq<char>>)
    requires
        pieces_brace_free(s0, items),
    ensures
        substitute_from(template_of(s0, items), 0, acc, vars) == scan_steps(acc, items, vars),
        ordered_from(template_of(s0, items), 0),
    decreases items.len(),
{
    if items.len() == 0 {
        lemma_first_pair_from(s0, '{', 0);
        assert(first_pair_from(s0, '{', 0) is None) by {
            if let Some(k) = first_pair_from(s0, '{', 0) {
                assert(s0[k as int] == '{');
            }
        }
    } else {
        lemma_pieces_rest(s0, items);
        let y = template_of(items[0].1, items.skip(1));
        lemma_scan_one(s0, items[0].0, y, acc, vars);
        lemma_scan(items[0].1, items.skip(1), scan_step(acc, items[0].0, vars), vars);
    }
}

proof fn lemma_pair_count_concat(a: Seq<char>, b: Seq<char>, c: char)
    ensures
        pair_count(a + b, c) == pair_count(a, c) + pair_count(b, c) + (if a.len() > 0 && b.len() > 0
            && a.last() == c && b[0] == c {
            1nat
        } else {
            0nat
        }),
    decreases b.len(),
{
    if b.len() == 0 {
        assert(a + b =~= a);
    } else {
        let x = a + b;
        assert(x.drop_last() =~= a + b.drop_last());
        lemma_pair_count_concat(a, b.drop_last(), c);
        if b.len() >= 2 {
            assert(x[x.len() - 2] == b[b.len() - 2]);
            assert(x[x.len() - 1] == b[b.len() - 1]);
            assert(b.drop_last()[0] == b[0]);
        } else if x.len() >= 2 {
            assert(x[x.len() - 2] == a.last());
            assert(x[x.len() - 1] == b[0]);
        }
    }
}

proof fn lemma_pair_count_absent(s: Seq<char>, c: char)
    requires
        forall|j: int| 0 <= j < s.len() ==> s[j] != c,
    ensures
        pair_count(s, c) == 0,
    decreases s.len(),
{
    if s.len() >= 2 {
        lemma_pair_count_absent(s.drop_last(), c);
    }
}

proof fn lemma_placeholder_counts(name: Seq<char>)
    requires
        brace_free(name),
    ensures
        pair_count(placeholder(name), '{') == 1,
        pair_count(placeholder(name), '}') == 1,
{
    let open = seq!['{', '{'];
    let close = seq!['}', '}'];
    let a = open + name;
    assert(placeholder(name) == a + close);
    assert(open.drop_last() =~= seq!['{']);
    assert(close.drop_last() =~= seq!['}']);
    assert(open.len() == 2 && open[0] == '{' && open[1] == '{');
    assert(close.len() == 2 && close[0] == '}' && close[1] == '}');
    assert(pair_count(open.drop_last(), '{') == 0);
    assert(pair_count(close.drop_last(), '}') == 0);
    assert(pair_count(open, '{') == 1);
    assert(pair_count(close, '}') == 1);
    lemma_pair_count_absent(open, '}');
    lemma_pair_count_absent(close, '{');
    lemma_pair_count_absent(name, '{');
    lemma_pair_count_absent(name, '}');
    lemma_pair_count_concat(open, name, '{');
    lemma_pair_count_concat(open, name, '}');
    lemma_pair_count_concat(a, close, '{');
    lemma_pair_count_concat(a, close, '}');
    if name.len() > 0 {
        assert(a.last() == name.last());
    } else {
        assert(a.last() == '{');
    }
}

proof fn lemma_template_counts(s0: Seq<char>, items: Seq<(Seq<char>, Seq<char>)>)
    requires
        pieces_brace_free(s0, items),
    ensures
        pair_count(template_of(s0, items), '{') == items.len(),
        pair_count(template_of(s0, items), '}') == items.len(),
        template_of(s0, items).len() > 0 ==> template_of(s0, items)[0] != '}',
    decreases items.len(),
{
    lemma_pair_count_absent(s0, '{');
    lemma_pair_count_absent(s0, '}');
    if items.len() > 0 {
        lemma_pieces_rest(s0, items);
        let name = items[0].0;
        let p = placeholder(name);
        let y = template_of(items[0].1, items.skip(1));
        lemma_template_counts(items[0].1, items.skip(1));
        lemma_placeholder_counts(name);
        lemma_pair_count_concat(s0, p, '{');
        lemma_pair_count_concat(s0, p, '}');
        let a = s0 + p;
        assert(a.last() == '}');
        lemma_pair_count_concat(a, y, '{');
        lemma_pair_count_concat(a, y, '}');
        assert(template_of(s0, items) == a + y);
        if s0.len() == 0 {
            assert(template_of(s0, items)[0] == '{');
        } else {
            assert(template_of(s0, items)[0] == s0[0]);
        }
    }
}

proof fn lemma_replace_no_match(s: Seq<char>, pat: Seq<char>, rep: Seq<char>)
    requires
        s.len() >= 1,
        pat.len() > 0,
        !(s.len() >= pat.len() && s.take(pat.len() as int) == pat),
    ensures
        replace_all(s, pat, rep) == seq![s[0]] + replace_all(s.skip(1), pat, rep),
{
    if s.len() < pat.len() {
        assert(seq![s[0]] + s.skip(1) =~= s);
    }
}

/// A lead holding no `{` is kept as it is before a pattern that starts with
/// `{`.
proof fn lemma_replace_after_open_free(a: Seq<char>, b: Seq<char>, pat: Seq<char>, rep: Seq<char>)
    requires
        pat.len() > 0,
        pat[0] == '{',
        forall|j: int| 0 <= j < a.len() ==> a[j] != '{',
    ensures
        replace_all(a + b, pat, rep) == a + replace_all(b, pat, rep),
    decreases a.len(),
{
    if a.len() == 0 {
        assert(a + b =~= b);
        assert(a + replace_all(b, pat, rep) =~= replace_all(b, pat, rep));
    } else {
        let x = a + b;
        assert(x[0] == a[0]);
        if x.len() >= pat.len() {
            assert(x.take(pat.len() as int)[0] != pat[0]);
        }
        lemma_replace_no_match(x, pat, rep);
        assert(x.skip(1) =~= a.skip(1) + b);
        lemma_replace_after_open_free(a.skip(1), b, pat, rep);
        assert(seq![a[0]] + (a.skip(1) + replace_all(b, pat, rep)) =~= a + replace_all(b, pat, rep));
    }
}

proof fn lemma_replace_own_placeholder(name: Seq<char>, rest: Seq<char>, rep: Seq<char>)
    ensures
        replace_all(placeholder(name) + rest, placeholder(name), rep) == rep + replace_all(rest, placeholder(name), rep),
{
    let p = placeholder(name);
    let x = p + rest;
    assert(x.take(p.len() as int) =~= p);
    assert(x.skip(p.len() as int) =~= rest);
}

proof fn lemma_replace_other_placeholder(other: Seq<char>, name: Seq<char>, rest: Seq<char>, rep: Seq<char>)
    requires
        other != name,
        brace_free(other),
        brace_free(name),
    ensures
        replace_all(placeholder(other) + rest, placeholder(name), rep) == placeholder(other) + replace_all(
            rest,
            placeholder(name),
            rep,
        ),
{
    let p = placeholder(name);
    let q = placeholder(other);
    let x = q + rest;
    let m: int = name.len() as int;
    let o: int = other.len() as int;
    if x.len() >= p.len() && x.take(p.len() as int) == p {
        if m == o {
            assert(q =~= x.take(p.len() as int));
            assert(other =~= q.subrange(2, o + 2));
            assert(name =~= p.subrange(2, m + 2));
        } else if m < o {
            assert(x.take(p.len() as int)[m + 2] == p[m + 2]);
            assert(x[m + 2] == other[m]);
        } else {
            assert(x.take(p.len() as int)[o + 2] == p[o + 2]);
            assert(p[o + 2] == name[o]);
            assert(x[o + 2] == '}');
        }
    }
    lemma_replace_no_match(x, p, rep);
    let x1 = x.skip(1);
    assert(x1[0] == '{');
    assert(x1[1] != '{') by {
        if o > 0 {
            assert(x1[1] == other[0]);
        } else {
            assert(x1[1] == '}');
        }
    }
    if x1.len() >= p.len() {
        assert(x1.take(p.len() as int)[1] != p[1]);
    }
    lemma_replace_no_match(x1, p, rep);
    let tail = other + seq!['}', '}'];
    assert(x1.skip(1) =~= tail + rest);
    lemma_replace_after_open_free(tail, rest, p, rep);
    assert(seq![x[0]] + (seq![x1[0]] + (tail + replace_all(rest, p, rep))) =~= q + replace_all(rest, p, rep));
}

proof fn lemma_rendered_step(
    s0: Seq<char>,
    items: Seq<(Seq<char>, Seq<char>)>,
    done: Set<Seq<char>>,
    name: Seq<char>,
    vars: Map<Seq<char>, Seq<char>>,
)
    requires
        pieces_brace_free(s0, items),
        values_brace_free(vars),
        brace_free(name),
    ensures
        scan_step(rendered(s0, items, done, vars), name, vars) == rendered(s0, items, done.insert(name), vars),
    decreases items.len(),
{
    let p = placeholder(name);
    let after = done.insert(name);
    if items.len() == 0 {
        if vars.contains_key(name) {
            lemma_replace_after_open_free(s0, Seq::empty(), p, vars[name]);
            assert(s0 + Seq::<char>::empty() =~= s0);
        }
    } else {
        lemma_pieces_rest(s0, items);
        let k = items[0].0;
        lemma_rendered_step(items[0].1, items.skip(1), done, name, vars);
        if vars.contains_key(name) {
            let v = vars[name];
            let piece = if done.contains(k) {
                filled_placeholder(k, vars)
            } else {
                placeholder(k)
            };
            let rest = rendered(items[0].1, items.skip(1), done, vars);
            lemma_replace_after_open_free(s0, piece + rest, p, v);
            assert(s0 + piece + rest =~= s0 + (piece + rest));
            if piece == placeholder(k) {
                if k == name {
                    lemma_replace_own_placeholder(name, rest, v);
                } else {
                    lemma_replace_other_placeholder(k, name, rest, v);
                }
            } else {
                assert(piece == vars[k]);
                assert(brace_free(vars[k]));
                lemma_replace_after_open_free(piece, rest, p, v);
            }
            assert(s0 + (piece + replace_all(rest, p, v)) =~= s0 + piece + replace_all(rest, p, v));
            if k == name && !done.contains(k) {
                assert(after.contains(k));
            } else if k != name {
                assert(after.contains(k) == done.contains(k));
            }
        } else {
            if k == name {
                assert(filled_placeholder(k, vars) == placeholder(k));
            } else {
                assert(after.contains(k) == done.contains(k));
            }
        }
    }
}

proof fn lemma_scan_steps_rendered(
    s0: Seq<char>,
    items: Seq<(Seq<char>, Seq<char>)>,
    names: Seq<(Seq<char>, Seq<char>)>,
    done: Set<Seq<char>>,
    vars: Map<Seq<char>, Seq<char>>,
)
    requires
        pieces_brace_free(s0, items),
        values_brace_free(vars),
        forall|i: int| #![trigger names[i]] 0 <= i < names.len() ==> brace_free(names[i].0),
    ensures
        scan_steps(rendered(s0, items, done, vars), names, vars) == rendered(
            s0,
            items,
            done.union(names_of(names)),
            vars,
        ),
    decreases names.len(),
{
    if names.len() == 0 {
        assert(done.union(names_of(names)) =~= done);
    } else {
        let k = names[0].0;
        assert(brace_free(names[0].0));
        lemma_rendered_step(s0, items, done, k, vars);
        assert forall|i: int| #![trigger names.skip(1)[i]] 0 <= i < names.skip(1).len() implies brace_free(
            names.skip(1)[i].0,
        ) by {
            assert(names.skip(1)[i] == names[i + 1]);
        }
        lemma_scan_steps_rendered(s0, items, names.skip(1), done.insert(k), vars);
        assert(done.insert(k).union(names_of(names.skip(1))) =~= done.union(names_of(names)));
    }
}

proof fn lemma_names_of(items: Seq<(Seq<char>, Seq<char>)>)
    ensures
        forall|i: int| #![trigger items[i]] 0 <= i < items.len() ==> names_of(items).contains(items[i].0),
    decreases items.len(),
{
    if items.len() > 0 {
        lemma_names_of(items.skip(1));
        assert forall|i: int| #![trigger items[i]] 0 <= i < items.len() implies names_of(items).contains(
            items[i].0,
        ) by {
            if i > 0 {
                assert(items.skip(1)[i - 1] == items[i]);
            }
        }
    }
}

proof fn lemma_rendered_ends(s0: Seq<char>, items: Seq<(Seq<char>, Seq<char>)>, done: Set<Seq<char>>, vars: Map<Seq<char>, Seq<char>>)
    ensures
        done.len() == 0 && done =~= Set::empty() ==> rendered(s0, items, done, vars) == template_of(s0, items),
        (forall|i: int| #![trigger items[i]] 0 <= i < items.len() ==> done.contains(items[i].0)) ==> rendered(
            s0,
            items,
            done,
            vars,
        ) == filled_of(s0, items, vars),
    decreases items.len(),
{
    if items.len() > 0 {
        lemma_rendered_ends(items[0].1, items.skip(1), done, vars);
        if forall|i: int| #![trigger items[i]] 0 <= i < items.len() ==> done.contains(items[i].0) {
            assert(done.contains(items[0].0));
            assert forall|i: int| #![trigger items.skip(1)[i]] 0 <= i < items.skip(1).len() implies done.contains(
                items.skip(1)[i].0,
            ) by {
                assert(items.skip(1)[i] == items[i + 1]);
            }
        }
    }
}

/// A text made of plain pieces and placeholders, where no piece, no name
/// and no value of the variables holds a brace, is balanced and in order,
/// so `replace_variables` succeeds on it; and it gives the pieces in order
/// with every placeholder of a known variable replaced by its value and
/// every other placeholder kept.
pub proof fn law_placeholders_replaced(
    s0: Seq<char>,
    items: Seq<(Seq<char>, Seq<char>)>,
    vars: Map<Seq<char>, Seq<char>>,
)
    requires
        pieces_brace_free(s0, items),
        values_brace_free(vars),
    ensures
        brackets_balanced(template_of(s0, items)),
        placeholders_ordered(template_of(s0, items)),
        substituted(template_of(s0, items), vars) == filled_of(s0, items, vars),
{
    let t = template_of(s0, items);
    lemma_template_counts(s0, items);
    lemma_scan(s0, items, t, vars);
    lemma_rendered_ends(s0, items, Set::empty(), vars);
    assert(rendered(s0, items, Set::empty(), vars) == t);
    assert forall|i: int| #![trigger items[i]] 0 <= i < items.len() implies brace_free(items[i].0) by {}
    lemma_scan_steps_rendered(s0, items, items, Set::empty(), vars);
    lemma_names_of(items);
    let all = Set::<Seq<char>>::empty().union(names_of(items));
    assert(all =~= names_of(items));
    lemma_rendered_ends(s0, items, all, vars);
}


} // verus!
