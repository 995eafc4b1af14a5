//! Substitution of `{{name}}` placeholders by project variables.
//!
//! The text is first checked for balance: the number of places where two
//! `{` stand side by side must equal the number of places where two `}` do
//! (overlapping places count, so `{{{` holds two). Then, scanning the input
//! from left to right, each time both a `{{` and a later `}}` remain, the
//! name between the first `{{` and the first `}}` is looked up; when the
//! variables hold it, every `{{name}}` of the text built so far is replaced
//! by its value. Scanning resumes after that `}}`.

use vstd::prelude::*;

use crate::text::chars_of;
use crate::text::string_of;
use crate::variables::Variables;

verus! {

/// First index at or after `i` where `c` stands twice in a row in `s`.
pub open spec fn first_pair_from(s: Seq<char>, c: char, i: nat) -> Option<nat>
    decreases s.len() - i,
{
    if i + 1 >= s.len() {
        None
    } else if s[i as int] == c && s[i + 1int] == c {
        Some(i)
    } else {
        first_pair_from(s, c, i + 1)
    }
}

/// `c` stands twice in a row at index `k` of `s`.
pub open spec fn pair_at(s: Seq<char>, c: char, k: int) -> bool {
    0 <= k && k + 1 < s.len() && s[k] == c && s[k + 1] == c
}

pub proof fn lemma_first_pair_from(s: Seq<char>, c: char, i: nat)
    ensures
        match first_pair_from(s, c, i) {
            Some(k) => i <= k && pair_at(s, c, k as int) && forall|j: int|
                i <= j < k ==> !pair_at(s, c, j),
            None => forall|j: int| i <= j ==> !pair_at(s, c, j),
        },
    decreases s.len() - i,
{
    if i + 1 < s.len() && !(s[i as int] == c && s[i + 1int] == c) {
        lemma_first_pair_from(s, c, i + 1);
    }
}

/// Number of places (overlapping ones included) where `c` stands twice in a
/// row in `s`.
pub open spec fn pair_count(s: Seq<char>, c: char) -> nat
    decreases s.len(),
{
    if s.len() < 2 {
        0
    } else {
        pair_count(s.drop_last(), c) + if s[s.len() - 2] == c && s[s.len() - 1] == c {
            1nat
        } else {
            0nat
        }
    }
}

/// As many `{{` as `}}` (each counted with overlaps).
pub open spec fn brackets_balanced(s: Seq<char>) -> bool {
    pair_count(s, '{') == pair_count(s, '}')
}

/// Scanning from `i`, whenever both a `{{` and a `}}` remain, the first `}}`
/// does not start before the name that follows the first `{{`.
pub open spec fn ordered_from(s: Seq<char>, i: nat) -> bool
    decreases s.len() - i,
{
    match (first_pair_from(s, '{', i), first_pair_from(s, '}', i)) {
        (Some(st), Some(en)) => {
            proof {
                lemma_first_pair_from(s, '}', i);
            }
            st + 2 <= en && ordered_from(s, en + 2)
        },
        _ => true,
    }
}

/// Every placeholder the scan meets is opened before it is closed.
pub open spec fn placeholders_ordered(s: Seq<char>) -> bool {
    ordered_from(s, 0)
}

/// `{{name}}`.
pub open spec fn placeholder(name: Seq<char>) -> Seq<char> {
    seq!['{', '{'] + name + seq!['}', '}']
}

/// `s` with every occurrence of the non-empty `pat` replaced by `rep`,
/// occurrences taken from left to right without overlap.
pub open spec fn replace_all(s: Seq<char>, pat: Seq<char>, rep: Seq<char>) -> Seq<char>
    decreases s.len(),
{
    if pat.len() == 0 || s.len() < pat.len() {
        s
    } else if s.take(pat.len() as int) == pat {
        rep + replace_all(s.skip(pat.len() as int), pat, rep)
    } else {
        seq![s[0]] + replace_all(s.skip(1), pat, rep)
    }
}

/// The text `acc` after the scan of `s` from index `i` has replaced the
/// placeholders it meets.
pub open spec fn substitute_from(
    s: Seq<char>,
    i: nat,
    acc: Seq<char>,
    vars: Map<Seq<char>, Seq<char>>,
) -> Seq<char>
    decreases s.len() - i,
{
    match (first_pair_from(s, '{', i), first_pair_from(s, '}', i)) {
        (Some(st), Some(en)) => {
            proof {
                lemma_first_pair_from(s, '}', i);
            }
            if st + 2 <= en {
                let name = s.subrange(st + 2int, en as int);
                let next = if vars.contains_key(name) {
                    replace_all(acc, placeholder(name), vars[name])
                } else {
                    acc
                };
                substitute_from(s, en + 2, next, vars)
            } else {
                acc
            }
        },
        _ => acc,
    }
}

/// `s` with its placeholders replaced by the values of `vars`.
pub open spec fn substituted(s: Seq<char>, vars: Map<Seq<char>, Seq<char>>) -> Seq<char> {
    substitute_from(s, 0, s, vars)
}

/// Why a text could not have its variables replaced.
#[derive(Debug, PartialEq, Eq, Clone, Copy)]
pub enum ReplaceError {
    /// The counts of `{{` and `}}` differ.
    ImbalancedBrackets,
}

impl ReplaceError {
    /// The message shown for this error.
    pub fn message(&self) -> (r: &'static str)
        ensures
            r@ == "The opening and closing brackets are imbalanced"@,
    {
        "The opening and closing brackets are imbalanced"
    }
}

fn count_pairs(s: &Vec<char>, c: char) -> (r: usize)
    ensures
        r == pair_count(s@, c),
{
    let mut count: usize = 0;
    let mut i: usize = 0;
    while i < s.len()
        invariant
            i <= s@.len(),
            count <= i,
            count == pair_count(s@.take(i as int), c),
        decreases s@.len() - i,
    {
        assert(s@.take(i + 1).drop_last() =~= s@.take(i as int));
        if i >= 1 && s[i - 1] == c && s[i] == c {
            count += 1;
        }
        i += 1;
    }
    assert(s@.take(i as int) =~= s@);
    count
}

pub(crate) fn find_pair(s: &Vec<char>, c: char, from: usize) -> (r: Option<usize>)
    ensures
        match r {
            Some(k) => first_pair_from(s@, c, from as nat) == Some(k as nat),
            None => first_pair_from(s@, c, from as nat) is None,
        },
{
    let mut i = from;
    while i < s.len() && i + 1 < s.len()
        invariant
            from <= i,
            first_pair_from(s@, c, from as nat) == first_pair_from(s@, c, i as nat),
        decreases s@.len() - i,
    {
        if s[i] == c && s[i + 1] == c {
            return Some(i);
        }
        i += 1;
    }
    None
}

/// Whether `pat` occurs in `s` at index `i`.
fn occurs_at(s: &Vec<char>, i: usize, pat: &Vec<char>) -> (r: bool)
    requires
        i <= s@.len(),
    ensures
        r == (pat@.len() <= s@.len() - i && s@.skip(i as int).take(pat@.len() as int) == pat@),
{
    if pat.len() > s.len() - i {
        return false;
    }
    let mut j: usize = 0;
    while j < pat.len()
        invariant
            i <= s@.len() <= usize::MAX,
            pat@.len() <= s@.len() - i,
            j <= pat@.len(),
            forall|k: int| 0 <= k < j ==> s@[i + k] == pat@[k],
        decreases pat@.len() - j,
    {
        if s[i + j] != pat[j] {
            assert(s@.skip(i as int).take(pat@.len() as int)[j as int] != pat@[j as int]);
            return false;
        }
        j += 1;
    }
    assert(s@.skip(i as int).take(pat@.len() as int) =~= pat@);
    true
}

fn replace_all_exec(s: &Vec<char>, pat: &Vec<char>, rep: &Vec<char>) -> (r: Vec<char>)
    requires
        pat@.len() > 0,
    ensures
        r@ == replace_all(s@, pat@, rep@),
{
    let mut out: Vec<char> = Vec::new();
    let mut i: usize = 0;
    assert(s@.skip(0) =~= s@);
    while i < s.len()
        invariant
            pat@.len() > 0,
            i <= s@.len(),
            out@ + replace_all(s@.skip(i as int), pat@, rep@) == replace_all(s@, pat@, rep@),
        decreases s@.len() - i,
    {
        let ghost rest = s@.skip(i as int);
        if occurs_at(s, i, pat) {
            assert(rest.skip(pat@.len() as int) =~= s@.skip(i + pat@.len()));
            let mut j: usize = 0;
            let ghost before = out@;
            while j < rep.len()
                invariant
                    j <= rep@.len(),
                    out@ == before + rep@.take(j as int),
                decreases rep@.len() - j,
            {
                out.push(rep[j]);
                assert(rep@.take(j + 1) =~= rep@.take(j as int).push(rep@[j as int]));
                j += 1;
            }
            assert(rep@.take(j as int) =~= rep@);
            assert(before + (rep@ + replace_all(s@.skip(i + pat@.len()), pat@, rep@)) =~= before
                + rep@ + replace_all(s@.skip(i + pat@.len()), pat@, rep@));
            i += pat.len();
        } else {
            assert(rest.skip(1) =~= s@.skip(i + 1));
            let ghost before = out@;
            out.push(s[i]);
            proof {
                if rest.len() < pat@.len() {
                    assert(rest =~= seq![s@[i as int]] + rest.skip(1));
                }
            }
            assert(before + (seq![s@[i as int]] + replace_all(s@.skip(i + 1), pat@, rep@))
                =~= before.push(s@[i as int]) + replace_all(s@.skip(i + 1), pat@, rep@));
            i += 1;
        }
    }
    assert(s@.skip(i as int) =~= Seq::<char>::empty());
    assert(out@ + Seq::<char>::empty() =~= out@);
    out
}

/// `s` with every occurrence of the non-empty `pat` replaced by `rep`, the
/// occurrences taken from left to right without overlap.
pub fn replace_text(s: &str, pat: &str, rep: &str) -> (r: String)
    requires
        pat@.len() > 0,
    ensures
        r@ == replace_all(s@, pat@, rep@),
{
    let sv = chars_of(s);
    let pv = chars_of(pat);
    let rv = chars_of(rep);
    let out = replace_all_exec(&sv, &pv, &rv);
    string_of(out.as_slice())
}

fn placeholder_exec(name: &Vec<char>) -> (r: Vec<char>)
    ensures
        r@ == placeholder(name@),
{
    let mut r: Vec<char> = Vec::new();
    r.push('{');
    r.push('{');
    let mut j: usize = 0;
    while j < name.len()
        invariant
            j <= name@.len(),
            r@ == seq!['{', '{'] + name@.take(j as int),
        decreases name@.len() - j,
    {
        r.push(name[j]);
        assert(name@.take(j + 1) =~= name@.take(j as int).push(name@[j as int]));
        j += 1;
    }
    assert(name@.take(j as int) =~= name@);
    r.push('}');
    r.push('}');
    assert(r@ =~= placeholder(name@));
    r
}

fn sub_chars(s: &Vec<char>, a: usize, b: usize) -> (r: Vec<char>)
    requires
        a <= b <= s@.len(),
    ensures
        r@ == s@.subrange(a as int, b as int),
{
    let mut r: Vec<char> = Vec::new();
    let mut j = a;
    while j < b
        invariant
            a <= j <= b,
            b <= s@.len(),
            r@ == s@.subrange(a as int, j as int),
        decreases b - j,
    {
        r.push(s[j]);
        assert(s@.subrange(a as int, j + 1) =~= s@.subrange(a as int, j as int).push(
            s@[j as int],
        ));
        j += 1;
    }
    r
}

/// Whether `input` holds the same number of `{{` and `}}`.
pub fn brackets_are_balanced(input: &str) -> (r: bool)
    ensures
        r == brackets_balanced(input@),
{
    let s = chars_of(input);
    count_pairs(&s, '{') == count_pairs(&s, '}')
}

/// Whether every placeholder of `input` that the scan meets is opened before
/// it is closed. `replace_variables` asks this of balanced input.
pub fn placeholders_in_order(input: &str) -> (r: bool)
    ensures
        r == placeholders_ordered(input@),
{
    let s = chars_of(input);
    let mut pos: usize = 0;
    loop
        invariant
            s@ == input@,
            pos <= s@.len() + 2,
            placeholders_ordered(s@) == ordered_from(s@, pos as nat),
        decreases s@.len() + 2 - pos,
    {
        let open = find_pair(&s, '{', pos);
        let close = find_pair(&s, '}', pos);
        proof {
            lemma_first_pair_from(s@, '{', pos as nat);
            lemma_first_pair_from(s@, '}', pos as nat);
        }
        match (open, close) {
            (Some(st), Some(en)) => {
                if st + 2 > en {
                    return false;
                }
                assert(en + 2 <= s@.len());
                pos = en + 2;
            },
            _ => {
                return true;
            },
        }
    }
}

/// Replaces the `{{name}}` placeholders of `input` by the values of
/// `variables`; names that the variables lack stay as they are.
///
/// Fails when the counts of `{{` and `}}` differ.
pub fn replace_variables(input: &str, variables: &Variables) -> (r: Result<String, ReplaceError>)
    requires
        variables.wf(),
        brackets_balanced(input@) ==> placeholders_ordered(input@),
    ensures
        r is Err <==> !brackets_balanced(input@),
        r matches Ok(s) ==> s@ == substituted(input@, variables@),
{
    let s = chars_of(input);
    let left = count_pairs(&s, '{');
    let right = count_pairs(&s, '}');
    if left != right {
        return Err(ReplaceError::ImbalancedBrackets);
    }
    let mut replaced = chars_of(input);
    let mut pos: usize = 0;
    let n = s.len();
    loop
        invariant
            variables.wf(),
            s@ == input@,
            n == s@.len(),
            brackets_balanced(input@),
            pos <= s@.len() + 2,
            ordered_from(s@, pos as nat),
            substitute_from(s@, pos as nat, replaced@, variables@) == substituted(s@, variables@),
        decreases s@.len() + 2 - pos,
    {
        let open = find_pair(&s, '{', pos);
        let close = find_pair(&s, '}', pos);
        proof {
            lemma_first_pair_from(s@, '{', pos as nat);
            lemma_first_pair_from(s@, '}', pos as nat);
        }
        match (open, close) {
            (Some(st), Some(en)) => {
                let name = sub_chars(&s, st + 2, en);
                match variables.get_chars(name.as_slice()) {
                    Some(value) => {
                        let pat = placeholder_exec(&name);
                        replaced = replace_all_exec(&replaced, &pat, value);
                    },
                    None => {},
                }
                assert(en + 2 <= n);
                pos = en + 2;
            },
            _ => {
                return Ok(string_of(replaced.as_slice()));
            },
        }
    }
}

// ---------------------------------------------------------------------------
// Laws
// ---------------------------------------------------------------------------
proof fn lemma_substitute_without_variables(s: Seq<char>, i: nat, acc: Seq<char>)
    ensures
        substitute_from(s, i, acc, Map::empty()) == acc,
    decreases s.len() - i,
{
    lemma_first_pair_from(s, '}', i);
    match (first_pair_from(s, '{', i), first_pair_from(s, '}', i)) {
        (Some(st), Some(en)) => {
            if st + 2 <= en {
                lemma_substitute_without_variables(s, en + 2, acc);
            }
        },
        _ => {},
    }
}

/// Without variables, or in a text where no `{{` stands, replacing leaves
/// the text as it is.
pub proof fn law_nothing_to_replace(s: Seq<char>, vars: Map<Seq<char>, Seq<char>>)
    ensures
        substituted(s, Map::empty()) == s,
        first_pair_from(s, '{', 0) is None ==> substituted(s, vars) == s,
{
    lemma_substitute_without_variables(s, 0, s);
}

/// A text that is one placeholder of a known variable becomes that
/// variable's value.
pub proof fn law_single_placeholder(name: Seq<char>, vars: Map<Seq<char>, Seq<char>>)
    requires
        vars.contains_key(name),
        forall|k: int| 0 <= k < name.len() ==> name[k] != '{' && name[k] != '}',
    ensures
        substituted(placeholder(name), vars) == vars[name],
{
    let s = placeholder(name);
    let n = name.len();
    assert(pair_at(s, '{', 0));
    lemma_first_pair_from(s, '{', 0);
    assert(first_pair_from(s, '{', 0) == Some(0nat));
    assert forall|j: int| 0 <= j < n + 2 implies !pair_at(s, '}', j) by {
        if 0 <= j && j + 1 < s.len() && s[j] == '}' && s[j + 1] == '}' {
            assert(j + 1 < n + 2);
            if j >= 2 {
                assert(s[j] == name[j - 2]);
            } else {
                assert(s[j] == '{');
            }
        }
    }
    assert(pair_at(s, '}', (n + 2) as int));
    lemma_first_pair_from(s, '}', 0);
    assert(first_pair_from(s, '}', 0) == Some((n + 2) as nat));
    assert(s.subrange(2, (n + 2) as int) =~= name);
    lemma_first_pair_from(s, '{', n + 4);
    lemma_first_pair_from(s, '}', n + 4);
    assert(first_pair_from(s, '{', n + 4) is None);
    lemma_replace_whole(s, vars[name]);
    assert(substitute_from(s, (n + 4) as nat, vars[name], vars) == vars[name]);
    assert(substitute_from(s, 0, s, vars) == substitute_from(s, (n + 4) as nat, vars[name], vars));
}

/// Replacing a text by itself as the pattern gives the replacement.
proof fn lemma_replace_whole(s: Seq<char>, rep: Seq<char>)
    requires
        s.len() > 0,
    ensures
        replace_all(s, s, rep) == rep,
{
    assert(s.take(s.len() as int) =~= s);
    assert(s.skip(s.len() as int) =~= Seq::<char>::empty());
    assert(replace_all(Seq::<char>::empty(), s, rep) == Seq::<char>::empty());
    assert(rep + Seq::<char>::empty() =~= rep);
}

} // verus!
