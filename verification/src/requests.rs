//! What a request is made of: its variables, URL, headers and body, worked
//! out from the open project and endpoint; and what a response tells the
//! dashboard (its label and the extension its body is shown with).

use vstd::prelude::*;

use crate::projects::{chars_or_empty, opt_chars, EndpointData, HeaderData, PersistedEndpoint, PersistedProject, VariableData};
use crate::template::{brackets_balanced, brackets_are_balanced, placeholders_in_order, placeholders_ordered, replace_variables, substituted, ReplaceError};
use crate::text::{chars_of, str_is, string_of};
use crate::variables::Variables;

verus! {

// ---------------------------------------------------------------------------
// Outside calls
// ---------------------------------------------------------------------------
/// What std's `str::to_lowercase` makes of `s`: its Unicode lowercase form.
pub uninterp spec fn spec_lowercase(s: Seq<char>) -> Seq<char>;

/// The ASCII lowercase form of a character: `A`-`Z` become `a`-`z`.
pub open spec fn ascii_lower(c: char) -> char {
    if 'A' <= c <= 'Z' {
        ((c as u32) + 32) as char
    } else {
        c
    }
}

/// Trusted: calls std's `str::to_lowercase`. The contract names the result
/// as a function of the characters of `s`, and states the case its
/// documentation and Unicode make plain: a text of ASCII characters is
/// lowered character by character, `A`-`Z` to `a`-`z`. What other characters
/// become (a character may become several) is left unsaid.
#[verifier::external_body]
pub(crate) fn to_lowercase(s: &str) -> (r: String)
    ensures
        r@ == spec_lowercase(s@),
        (forall|i: int| 0 <= i < s@.len() ==> (s@[i] as u32) < 128) ==> r@ == s@.map_values(
            |c: char| ascii_lower(c),
        ),
{
    s.to_lowercase()
}

/// The subtype that the `mime` crate parses out of `content_type` (for
/// instance `json` for `application/json; charset=utf-8`), or none when the
/// text is not a media type.
pub uninterp spec fn mime_subtype(content_type: Seq<char>) -> Option<Seq<char>>;

/// Trusted: parses `content_type` with `mime`'s `FromStr for Mime` and takes
/// `Mime::subtype` as text; the contract only names the outcome as a function
/// of the characters of `content_type`.
#[verifier::external_body]
fn parse_mime_subtype(content_type: &str) -> (r: Option<String>)
    ensures
        opt_chars(r) == mime_subtype(content_type@),
{
    match content_type.parse::<mime::Mime>() {
        Ok(parsed) => Some(parsed.subtype().as_str().to_owned()),
        Err(_) => None,
    }
}

/// Trusted: the subtype of `mime::TEXT_PLAIN`, which `mime`'s documentation
/// gives as `plain`.
#[verifier::external_body]
fn text_plain_subtype() -> (r: String)
    ensures
        r@ == "plain"@,
{
    mime::TEXT_PLAIN.subtype().as_str().to_owned()
}

// ---------------------------------------------------------------------------
// Content type and extension
// ---------------------------------------------------------------------------
/// The media type of a raw body, by its (lowercased) kind.
pub open spec fn raw_content_type(kind: Seq<char>) -> Option<Seq<char>> {
    if kind == "text"@ {
        Some("text/plain"@)
    } else if kind == "javascript"@ {
        Some("application/javascript"@)
    } else if kind == "json"@ {
        Some("application/json"@)
    } else if kind == "html"@ {
        Some("text/html"@)
    } else if kind == "xml"@ {
        Some("text/xml"@)
    } else {
        None
    }
}

/// The media type a request body is sent with, by the endpoint's body mode
/// and raw kind.
pub open spec fn content_type_for(body_mode: Seq<char>, raw_type: Seq<char>) -> Option<Seq<char>> {
    if body_mode == "none"@ {
        None
    } else if body_mode == "formdata"@ {
        Some("multipart/form-data"@)
    } else if body_mode == "x-www-form-urlencoded"@ {
        Some("application/x-www-form-urlencoded"@)
    } else if body_mode == "graphql"@ {
        Some("application/json"@)
    } else if body_mode == "raw"@ {
        raw_content_type(spec_lowercase(raw_type))
    } else {
        None
    }
}

fn some_text(s: &str) -> (r: Option<String>)
    ensures
        opt_chars(r) == Some(s@),
{
    Some(s.to_owned())
}

/// The media type the endpoint's body is sent with.
pub fn get_content_type(endpoint: &PersistedEndpoint) -> (r: Option<String>)
    ensures
        opt_chars(r) == content_type_for(endpoint.body_mode@, endpoint.raw_type@),
{
    let mode = endpoint.body_mode.as_str();
    if str_is(mode, "none") {
        None
    } else if str_is(mode, "formdata") {
        some_text("multipart/form-data")
    } else if str_is(mode, "x-www-form-urlencoded") {
        some_text("application/x-www-form-urlencoded")
    } else if str_is(mode, "graphql") {
        some_text("application/json")
    } else if str_is(mode, "raw") {
        let kind = to_lowercase(endpoint.raw_type.as_str());
        let k = kind.as_str();
        if str_is(k, "text") {
            some_text("text/plain")
        } else if str_is(k, "javascript") {
            some_text("application/javascript")
        } else if str_is(k, "json") {
            some_text("application/json")
        } else if str_is(k, "html") {
            some_text("text/html")
        } else if str_is(k, "xml") {
            some_text("text/xml")
        } else {
            None
        }
    } else {
        None
    }
}

/// The file extension for a media subtype: `txt` for `plain`, the subtype
/// itself otherwise.
pub open spec fn extension_of(subtype: Seq<char>) -> Seq<char> {
    if subtype == "plain"@ {
        "txt"@
    } else {
        subtype
    }
}

/// The extension a response body is shown with, by its media subtype.
pub fn extension_for_subtype(subtype: &str) -> (r: String)
    ensures
        r@ == extension_of(subtype@),
{
    if str_is(subtype, "plain") {
        "txt".to_owned()
    } else {
        subtype.to_owned()
    }
}

/// The extension for a content type: its subtype, with text taken as plain
/// when it does not parse.
pub open spec fn extension_for(content_type: Seq<char>) -> Seq<char> {
    extension_of(
        match mime_subtype(content_type) {
            Some(s) => s,
            None => "plain"@,
        },
    )
}

/// The extension a response body with this content type is shown with.
pub fn get_extension(content_type: &str) -> (r: String)
    ensures
        r@ == extension_for(content_type@),
{
    let subtype = match parse_mime_subtype(content_type) {
        Some(s) => s,
        None => text_plain_subtype(),
    };
    extension_for_subtype(subtype.as_str())
}

// ---------------------------------------------------------------------------
// Variables of a request
// ---------------------------------------------------------------------------
/// The key and the value a stored variable binds in a request: its private
/// value when it has one, its public value otherwise.
pub open spec fn binding_of(v: VariableData) -> (Seq<char>, Seq<char>) {
    (
        chars_or_empty(v.key),
        match v.private {
            Some(p) => p,
            None => chars_or_empty(v.value),
        },
    )
}

/// The variables a request is built with: later variables override earlier
/// ones with the same key.
pub open spec fn bindings_map(vs: Seq<VariableData>) -> Map<Seq<char>, Seq<char>>
    decreases vs.len(),
{
    if vs.len() == 0 {
        Map::empty()
    } else {
        bindings_map(vs.drop_last()).insert(binding_of(vs.last()).0, binding_of(vs.last()).1)
    }
}

/// The variables of the project, as a request uses them.
pub fn request_variables(project: &PersistedProject) -> (r: Variables)
    ensures
        r.wf(),
        r@ == bindings_map(project@.variable),
{
    let mut vars = Variables::new();
    let ghost all = project@.variable;
    let mut i: usize = 0;
    while i < project.variable.len()
        invariant
            i <= project.variable@.len(),
            all == project@.variable,
            vars.wf(),
            vars@ == bindings_map(all.take(i as int)),
        decreases project.variable@.len() - i,
    {
        let v = &project.variable[i];
        let key: String = match &v.key {
            Some(k) => k.clone(),
            None => String::new(),
        };
        let value: String = match &v.private {
            Some(p) => p.clone(),
            None => match &v.value {
                Some(x) => x.clone(),
                None => String::new(),
            },
        };
        assert(all.take(i + 1).drop_last() =~= all.take(i as int));
        assert(all.take(i + 1).last() == all[i as int]);
        vars.insert(key.as_str(), value.as_str());
        i += 1;
    }
    assert(all.take(i as int) =~= all);
    vars
}

// ---------------------------------------------------------------------------
// URL and headers
// ---------------------------------------------------------------------------
/// `replace_variables` can be asked of `s`: when its brackets balance, its
/// placeholders are in order.
pub open spec fn template_safe(s: Seq<char>) -> bool {
    brackets_balanced(s) ==> placeholders_ordered(s)
}

/// Whether `replace_variables` can be asked of `s`.
pub fn template_is_safe(s: &str) -> (r: bool)
    ensures
        r == template_safe(s@),
{
    !brackets_are_balanced(s) || placeholders_in_order(s)
}

/// The URL of the endpoint with its variables replaced.
pub fn resolve_url(endpoint: &PersistedEndpoint, variables: &Variables) -> (r: Result<String, ReplaceError>)
    requires
        variables.wf(),
        template_safe(endpoint.url@),
    ensures
        r is Err <==> !brackets_balanced(endpoint.url@),
        r matches Ok(u) ==> u@ == substituted(endpoint.url@, variables@),
{
    replace_variables(endpoint.url.as_str(), variables)
}

/// Replacing the variables of the headers, one after the other, meets no
/// text that `replace_variables` cannot be asked of before it stops.
pub open spec fn headers_safe(hs: Seq<HeaderData>) -> bool
    decreases hs.len(),
{
    hs.len() == 0 || {
        &&& template_safe(hs[0].name)
        &&& brackets_balanced(hs[0].name) ==> template_safe(hs[0].value)
        &&& brackets_balanced(hs[0].name) && brackets_balanced(hs[0].value) ==> headers_safe(
            hs.skip(1),
        )
    }
}

/// The headers a request is sent with: each name and value with its variables
/// replaced, the first imbalanced name or value failing the whole, and the
/// `content-type` headers left out (the body decides that one).
pub open spec fn resolved_headers(hs: Seq<HeaderData>, vars: Map<Seq<char>, Seq<char>>) -> Result<
    Seq<(Seq<char>, Seq<char>)>,
    ReplaceError,
>
    decreases hs.len(),
{
    if hs.len() == 0 {
        Ok(Seq::empty())
    } else if !brackets_balanced(hs[0].name) || !brackets_balanced(hs[0].value) {
        Err(ReplaceError::ImbalancedBrackets)
    } else {
        let name = substituted(hs[0].name, vars);
        let value = substituted(hs[0].value, vars);
        match resolved_headers(hs.skip(1), vars) {
            Err(e) => Err(e),
            Ok(rest) => Ok(
                if name == "content-type"@ {
                    rest
                } else {
                    seq![(name, value)] + rest
                },
            ),
        }
    }
}

/// Whether some header's name or value has unbalanced brackets.
pub open spec fn some_header_unbalanced(hs: Seq<HeaderData>) -> bool {
    exists|i: int| 0 <= i < hs.len() && !(brackets_balanced(#[trigger] hs[i].name) && brackets_balanced(hs[i].value))
}

proof fn lemma_unbalanced_split(hs: Seq<HeaderData>)
    requires
        hs.len() > 0,
    ensures
        some_header_unbalanced(hs) <==> (!(brackets_balanced(hs[0].name) && brackets_balanced(hs[0].value))
            || some_header_unbalanced(hs.skip(1))),
{
    let rest = hs.skip(1);
    if !some_header_unbalanced(hs) {
        assert(brackets_balanced(hs[0].name) && brackets_balanced(hs[0].value));
        assert forall|j: int| 0 <= j < rest.len() implies brackets_balanced(#[trigger] rest[j].name)
            && brackets_balanced(rest[j].value) by {
            assert(rest[j] == hs[j + 1]);
            assert(brackets_balanced(hs[j + 1].name) && brackets_balanced(hs[j + 1].value));
        }
    } else {
        if brackets_balanced(hs[0].name) && brackets_balanced(hs[0].value) && !some_header_unbalanced(rest) {
            assert forall|j: int| 0 <= j < hs.len() implies brackets_balanced(#[trigger] hs[j].name)
                && brackets_balanced(hs[j].value) by {
                if j > 0 {
                    assert(rest[j - 1] == hs[j]);
                    assert(brackets_balanced(rest[j - 1].name) && brackets_balanced(rest[j - 1].value));
                }
            }
        }
    }
}

/// The headers of a request: resolving fails exactly when some header's name
/// or value has unbalanced brackets; otherwise every header is sent, in
/// order, with the variables replaced in its name and value, except those
/// whose name becomes `content-type`.
pub proof fn law_every_header_sent(hs: Seq<HeaderData>, vars: Map<Seq<char>, Seq<char>>)
    ensures
        resolved_headers(hs, vars) is Err <==> some_header_unbalanced(hs),
        !some_header_unbalanced(hs) ==> resolved_headers(hs, vars) == Ok::<
            Seq<(Seq<char>, Seq<char>)>,
            ReplaceError,
        >(
            hs.map_values(|h: HeaderData| (substituted(h.name, vars), substituted(h.value, vars))).filter(
                |p: (Seq<char>, Seq<char>)| p.0 != "content-type"@,
            ),
        ),
    decreases hs.len(),
{
    let f = |h: HeaderData| (substituted(h.name, vars), substituted(h.value, vars));
    let keep = |p: (Seq<char>, Seq<char>)| p.0 != "content-type"@;
    if hs.len() == 0 {
        assert(hs.map_values(f) =~= Seq::<(Seq<char>, Seq<char>)>::empty());
        reveal_with_fuel(Seq::filter, 1);
        assert(!some_header_unbalanced(hs));
    } else {
        let rest = hs.skip(1);
        law_every_header_sent(rest, vars);
        lemma_unbalanced_split(hs);
        if !some_header_unbalanced(hs) {
            let head = seq![f(hs[0])];
            assert(hs.map_values(f) =~= head + rest.map_values(f));
            Seq::filter_distributes_over_add(head, rest.map_values(f), keep);
            reveal_with_fuel(Seq::filter, 2);
            assert(head.drop_last() =~= Seq::<(Seq<char>, Seq<char>)>::empty());
            if keep(f(hs[0])) {
                assert(head.filter(keep) =~= head);
            } else {
                assert(head.filter(keep) =~= Seq::<(Seq<char>, Seq<char>)>::empty());
            }
            let r = rest.map_values(f).filter(keep);
            assert(Seq::<(Seq<char>, Seq<char>)>::empty() + r =~= r);
        }
    }
}

/// The characters of a list of (name, value) pairs.
pub open spec fn pairs_view(v: Seq<(String, String)>) -> Seq<(Seq<char>, Seq<char>)> {
    v.map_values(|p: (String, String)| (p.0@, p.1@))
}

/// Whether the headers of `endpoint` can have their variables replaced
/// without meeting a placeholder closed before it is opened.
pub fn headers_are_safe(endpoint: &PersistedEndpoint) -> (r: bool)
    ensures
        r == headers_safe(endpoint@.headers),
{
    let ghost hs = endpoint@.headers;
    let mut i: usize = endpoint.headers.len();
    let mut safe = true;
    assert(hs.skip(i as int) =~= Seq::<HeaderData>::empty());
    while i > 0
        invariant
            i <= hs.len(),
            hs == endpoint@.headers,
            safe == headers_safe(hs.skip(i as int)),
        decreases i,
    {
        i -= 1;
        let h = &endpoint.headers[i];
        assert(hs.skip(i as int)[0] == hs[i as int]);
        assert(hs.skip(i as int).skip(1) =~= hs.skip(i + 1));
        let name_safe = template_is_safe(h.name.as_str());
        let value_safe = template_is_safe(h.value.as_str());
        let name_bal = brackets_are_balanced(h.name.as_str());
        let value_bal = brackets_are_balanced(h.value.as_str());
        safe = name_safe && (!name_bal || value_safe) && (!(name_bal && value_bal) || safe);
    }
    assert(hs.skip(0) =~= hs);
    safe
}

/// The headers of the endpoint with their variables replaced, without the
/// `content-type` header.
pub fn resolve_headers(endpoint: &PersistedEndpoint, variables: &Variables) -> (r: Result<
    Vec<(String, String)>,
    ReplaceError,
>)
    requires
        variables.wf(),
        headers_safe(endpoint@.headers),
    ensures
        match (r, resolved_headers(endpoint@.headers, variables@)) {
            (Ok(v), Ok(s)) => pairs_view(v@) == s,
            (Err(_), Err(_)) => true,
            _ => false,
        },
{
    let ghost hs = endpoint@.headers;
    let mut out: Vec<(String, String)> = Vec::new();
    let mut i: usize = 0;
    assert(hs.skip(0) =~= hs);
    while i < endpoint.headers.len()
        invariant
            variables.wf(),
            hs == endpoint@.headers,
            i <= hs.len(),
            headers_safe(hs.skip(i as int)),
            match resolved_headers(hs, variables@) {
                Err(e) => resolved_headers(hs.skip(i as int), variables@) is Err,
                Ok(all) => match resolved_headers(hs.skip(i as int), variables@) {
                    Ok(rest) => all == pairs_view(out@) + rest,
                    Err(_) => false,
                },
            },
        decreases hs.len() - i,
    {
        let h = &endpoint.headers[i];
        let ghost rest = hs.skip(i as int);
        assert(rest[0] == hs[i as int]);
        assert(rest.skip(1) =~= hs.skip(i + 1));
        let name = match replace_variables(h.name.as_str(), variables) {
            Ok(n) => n,
            Err(e) => {
                return Err(e);
            },
        };
        let value = match replace_variables(h.value.as_str(), variables) {
            Ok(v) => v,
            Err(e) => {
                return Err(e);
            },
        };
        if !str_is(name.as_str(), "content-type") {
            let ghost before = out@;
            out.push((name, value));
            assert(pairs_view(out@) =~= pairs_view(before) + seq![(name@, value@)]);
            proof {
                match resolved_headers(hs, variables@) {
                    Ok(all) => {
                        let r2 = resolved_headers(hs.skip(i + 1), variables@)->Ok_0;
                        assert(all == pairs_view(before) + (seq![(name@, value@)] + r2));
                        assert(pairs_view(before) + (seq![(name@, value@)] + r2) =~= pairs_view(out@) + r2);
                    },
                    Err(_) => {},
                }
            }
        }
        i += 1;
    }
    assert(hs.skip(i as int) =~= Seq::<HeaderData>::empty());
    proof {
        match resolved_headers(hs, variables@) {
            Ok(all) => {
                assert(all =~= pairs_view(out@));
            },
            Err(_) => {},
        }
    }
    Ok(out)
}

// ---------------------------------------------------------------------------
// Body
// ---------------------------------------------------------------------------
/// Index of the first `c` in `s`.
pub open spec fn first_index(s: Seq<char>, c: char) -> Option<int>
    decreases s.len(),
{
    if s.len() == 0 {
        None
    } else if s[0] == c {
        Some(0)
    } else {
        match first_index(s.skip(1), c) {
            Some(i) => Some(i + 1),
            None => None,
        }
    }
}

pub proof fn lemma_first_index(s: Seq<char>, c: char)
    ensures
        match first_index(s, c) {
            Some(i) => 0 <= i < s.len() && s[i] == c && forall|j: int| 0 <= j < i ==> s[j] != c,
            None => forall|j: int| 0 <= j < s.len() ==> s[j] != c,
        },
    decreases s.len(),
{
    if s.len() > 0 && s[0] != c {
        lemma_first_index(s.skip(1), c);
        match first_index(s.skip(1), c) {
            Some(i) => {
                assert forall|j: int| 0 <= j < i + 1 implies s[j] != c by {
                    if j > 0 {
                        assert(s[j] == s.skip(1)[j - 1]);
                    }
                }
            },
            None => {
                assert forall|j: int| 0 <= j < s.len() implies s[j] != c by {
                    if j > 0 {
                        assert(s[j] == s.skip(1)[j - 1]);
                    }
                }
            },
        }
    }
}

/// The text before and after the first `c` of `s`, if it has one.
pub open spec fn split_once(s: Seq<char>, c: char) -> Option<(Seq<char>, Seq<char>)> {
    match first_index(s, c) {
        Some(i) => Some((s.take(i), s.skip(i + 1))),
        None => None,
    }
}

/// The pieces of `s` between its `sep` characters: one more than there are
/// separators, empty pieces included.
pub open spec fn split_on(s: Seq<char>, sep: char) -> Seq<Seq<char>>
    decreases s.len(),
{
    match first_index(s, sep) {
        Some(i) => {
            proof {
                lemma_first_index(s, sep);
            }
            seq![s.take(i)] + split_on(s.skip(i + 1), sep)
        },
        None => seq![s],
    }
}

/// The `key=value` pairs among the pieces, split at their first `=`; pieces
/// without `=` are dropped.
pub open spec fn pairs_of(pieces: Seq<Seq<char>>) -> Seq<(Seq<char>, Seq<char>)>
    decreases pieces.len(),
{
    if pieces.len() == 0 {
        Seq::empty()
    } else {
        match split_once(pieces[0], '=') {
            Some(p) => seq![p] + pairs_of(pieces.skip(1)),
            None => pairs_of(pieces.skip(1)),
        }
    }
}

/// The form fields of a body: one `key=value` per line.
pub open spec fn form_fields(body: Seq<char>) -> Seq<(Seq<char>, Seq<char>)> {
    pairs_of(split_on(body, '\n'))
}

proof fn lemma_first_index_at(s: Seq<char>, c: char, i: int)
    requires
        0 <= i < s.len(),
        s[i] == c,
        forall|j: int| 0 <= j < i ==> s[j] != c,
    ensures
        first_index(s, c) == Some(i),
{
    lemma_first_index(s, c);
    match first_index(s, c) {
        Some(k) => {
            if k < i {
                assert(s[k] != c);
            } else if k > i {
                assert(s[i] != c);
            }
        },
        None => {
            assert(s[i] != c);
        },
    }
}

proof fn lemma_first_index_absent(s: Seq<char>, c: char)
    requires
        forall|j: int| 0 <= j < s.len() ==> s[j] != c,
    ensures
        first_index(s, c) is None,
{
    lemma_first_index(s, c);
    if let Some(k) = first_index(s, c) {
        assert(s[k] == c);
    }
}

proof fn lemma_one_line(line: Seq<char>)
    requires
        forall|j: int| 0 <= j < line.len() ==> line[j] != '\n',
    ensures
        form_fields(line) == match split_once(line, '=') {
            Some(p) => seq![p],
            None => Seq::<(Seq<char>, Seq<char>)>::empty(),
        },
{
    lemma_first_index_absent(line, '\n');
    assert(split_on(line, '\n') == seq![line]);
    let pieces = seq![line];
    assert(pieces.skip(1) =~= Seq::<Seq<char>>::empty());
    assert(pairs_of(pieces.skip(1)) == Seq::<(Seq<char>, Seq<char>)>::empty());
    match split_once(line, '=') {
        Some(p) => {
            assert(seq![p] + Seq::<(Seq<char>, Seq<char>)>::empty() =~= seq![p]);
        },
        None => {},
    }
}

/// The form fields of a body are those of its first line followed by those of
/// the lines after it.
pub proof fn law_form_fields_by_line(line: Seq<char>, rest: Seq<char>)
    requires
        forall|j: int| 0 <= j < line.len() ==> line[j] != '\n',
    ensures
        form_fields(line + seq!['\n'] + rest) == form_fields(line) + form_fields(rest),
{
    let body = line + seq!['\n'] + rest;
    lemma_first_index_at(body, '\n', line.len() as int);
    assert(body.take(line.len() as int) =~= line);
    assert(body.skip(line.len() + 1int) =~= rest);
    let pieces = split_on(body, '\n');
    assert(pieces == seq![line] + split_on(rest, '\n'));
    assert(pieces[0] == line);
    assert(pieces.skip(1) =~= split_on(rest, '\n'));
    lemma_one_line(line);
    match split_once(line, '=') {
        Some(p) => {
            assert(seq![p] + form_fields(rest) == form_fields(line) + form_fields(rest));
        },
        None => {
            assert(Seq::<(Seq<char>, Seq<char>)>::empty() + form_fields(rest) =~= form_fields(rest));
        },
    }
}

/// A line `key=value` whose key holds no `=` is the one field `(key, value)`;
/// a line without `=` is no field.
pub proof fn law_form_field_line(key: Seq<char>, value: Seq<char>, line: Seq<char>)
    requires
        forall|j: int| 0 <= j < key.len() ==> key[j] != '=' && key[j] != '\n',
        forall|j: int| 0 <= j < value.len() ==> value[j] != '\n',
        forall|j: int| 0 <= j < line.len() ==> line[j] != '=' && line[j] != '\n',
    ensures
        form_fields(key + seq!['='] + value) == seq![(key, value)],
        form_fields(line) == Seq::<(Seq<char>, Seq<char>)>::empty(),
{
    let s = key + seq!['='] + value;
    assert forall|j: int| 0 <= j < s.len() implies s[j] != '\n' by {
        if j < key.len() {
            assert(s[j] == key[j]);
        } else if j > key.len() {
            assert(s[j] == value[j - key.len() - 1]);
        }
    }
    lemma_one_line(s);
    lemma_first_index_at(s, '=', key.len() as int);
    assert(s.take(key.len() as int) =~= key);
    assert(s.skip(key.len() + 1int) =~= value);
    lemma_one_line(line);
    lemma_first_index_absent(line, '=');
}

fn find_char(s: &Vec<char>, c: char, from: usize) -> (r: Option<usize>)
    requires
        from <= s@.len(),
    ensures
        match first_index(s@.skip(from as int), c) {
            Some(i) => r matches Some(k) && k == from + i,
            None => r is None,
        },
{
    proof {
        lemma_first_index(s@.skip(from as int), c);
    }
    let mut i = from;
    while i < s.len()
        invariant
            from <= i <= s@.len(),
            forall|j: int| from <= j < i ==> s@[j] != c,
        decreases s@.len() - i,
    {
        if s[i] == c {
            proof {
                lemma_first_index(s@.skip(from as int), c);
                let t = s@.skip(from as int);
                assert(t[i - from] == c);
                match first_index(t, c) {
                    Some(k) => {
                        if k < i - from {
                            assert(s@[from + k] == c);
                        }
                        if k > i - from {
                            assert(t[i - from] != c);
                        }
                    },
                    None => {},
                }
            }
            return Some(i);
        }
        i += 1;
    }
    proof {
        let t = s@.skip(from as int);
        match first_index(t, c) {
            Some(k) => {
                assert(s@[from + k] == c);
            },
            None => {},
        }
    }
    None
}

fn sub_string(s: &Vec<char>, a: usize, b: usize) -> (r: String)
    requires
        a <= b <= s@.len(),
    ensures
        r@ == s@.subrange(a as int, b as int),
{
    let mut v: Vec<char> = Vec::new();
    let mut j = a;
    while j < b
        invariant
            a <= j <= b,
            b <= s@.len(),
            v@ == s@.subrange(a as int, j as int),
        decreases b - j,
    {
        v.push(s[j]);
        assert(s@.subrange(a as int, j + 1) =~= s@.subrange(a as int, j as int).push(s@[j as int]));
        j += 1;
    }
    string_of(v.as_slice())
}

/// The form fields of the body: one `key=value` per line, split at the first
/// `=`; lines without `=` are dropped.
pub fn form_pairs(body: &str) -> (r: Vec<(String, String)>)
    ensures
        pairs_view(r@) == form_fields(body@),
{
    let s = chars_of(body);
    let mut out: Vec<(String, String)> = Vec::new();
    let mut p: usize = 0;
    let n = s.len();
    assert(s@.skip(0) =~= s@);
    loop
        invariant
            s@ == body@,
            n == s@.len(),
            p <= s@.len(),
            pairs_view(out@) + pairs_of(split_on(s@.skip(p as int), '\n')) == form_fields(body@),
        decreases s@.len() - p,
    {
        let ghost rest = s@.skip(p as int);
        let end = find_char(&s, '\n', p);
        let stop = match end {
            Some(e) => e,
            None => s.len(),
        };
        proof {
            lemma_first_index(rest, '\n');
        }
        let ghost piece = s@.subrange(p as int, stop as int);
        assert(piece =~= rest.take(stop - p));
        let ghost pieces = split_on(rest, '\n');
        let ghost tail = match end {
            Some(e) => split_on(s@.skip(e + 1), '\n'),
            None => Seq::<Seq<char>>::empty(),
        };
        proof {
            match end {
                Some(e) => {
                    assert(rest.skip(e - p + 1) =~= s@.skip(e + 1));
                    assert(pieces == seq![piece] + tail);
                },
                None => {
                    assert(rest.take(stop - p) =~= rest);
                    assert(pieces == seq![piece]);
                    assert(pieces =~= seq![piece] + tail);
                },
            }
            assert(pieces[0] == piece);
            assert(pieces.skip(1) =~= tail);
        }
        let eq = find_char(&s, '=', p);
        let ghost before = out@;
        match eq {
            Some(k) => {
                if k < stop {
                    proof {
                        lemma_first_index(piece, '=');
                        lemma_first_index(rest, '=');
                        match first_index(piece, '=') {
                            Some(m) => {
                                assert(piece[m] == rest[m]);
                            },
                            None => {
                                assert(piece[k - p] == '=');
                            },
                        }
                    }
                    let key = sub_string(&s, p, k);
                    let value = sub_string(&s, k + 1, stop);
                    proof {
                        assert(key@ =~= piece.take(k - p));
                        assert(value@ =~= piece.skip(k - p + 1));
                    }
                    out.push((key, value));
                    assert(pairs_view(out@) =~= pairs_view(before) + seq![(key@, value@)]);
                } else {
                    proof {
                        lemma_first_index(piece, '=');
                        lemma_first_index(rest, '=');
                        match first_index(piece, '=') {
                            Some(m) => {
                                assert(piece[m] == rest[m]);
                            },
                            None => {},
                        }
                    }
                }
            },
            None => {
                proof {
                    lemma_first_index(piece, '=');
                    lemma_first_index(rest, '=');
                    match first_index(piece, '=') {
                        Some(m) => {
                            assert(piece[m] == rest[m]);
                        },
                        None => {},
                    }
                }
            },
        }
        match end {
            Some(e) => {
                assert(pairs_view(out@) + pairs_of(tail) =~= form_fields(body@)) by {
                    assert(pairs_of(pieces) == match split_once(piece, '=') {
                        Some(q) => seq![q] + pairs_of(tail),
                        None => pairs_of(tail),
                    });
                }
                p = e + 1;
            },
            None => {
                assert(pairs_of(tail) =~= Seq::<(Seq<char>, Seq<char>)>::empty());
                assert(pairs_view(out@) =~= form_fields(body@)) by {
                    assert(pairs_of(pieces) == match split_once(piece, '=') {
                        Some(q) => seq![q] + pairs_of(tail),
                        None => pairs_of(tail),
                    });
                }
                return out;
            },
        }
    }
}

/// How a request's body is sent.
#[derive(Debug)]
pub enum RequestBody {
    /// As text.
    Text(String),
    /// As a URL-encoded form.
    Form(Vec<(String, String)>),
    /// As a multipart form of text fields.
    Multipart(Vec<(String, String)>),
}

/// A request body, as characters.
pub enum BodyPlan {
    Text(Seq<char>),
    Form(Seq<(Seq<char>, Seq<char>)>),
    Multipart(Seq<(Seq<char>, Seq<char>)>),
}

impl View for RequestBody {
    type V = BodyPlan;

    open spec fn view(&self) -> BodyPlan {
        match self {
            RequestBody::Text(s) => BodyPlan::Text(s@),
            RequestBody::Form(v) => BodyPlan::Form(pairs_view(v@)),
            RequestBody::Multipart(v) => BodyPlan::Multipart(pairs_view(v@)),
        }
    }
}

/// The body an endpoint's request carries: its text for text media types, its
/// form fields for a multipart form, and nothing otherwise.
pub open spec fn body_plan(e: EndpointData) -> BodyPlan {
    match content_type_for(e.body_mode, e.raw_type) {
        Some(ct) => if ct == "application/json"@ || ct == "application/javascript"@ || ct
            == "text/plain"@ || ct == "text/html"@ || ct == "text/xml"@ {
            BodyPlan::Text(e.body)
        } else if ct == "x-www-form-urlencoded"@ {
            BodyPlan::Form(form_fields(e.body))
        } else if ct == "multipart/form-data"@ {
            BodyPlan::Multipart(form_fields(e.body))
        } else {
            BodyPlan::Text(""@)
        },
        None => BodyPlan::Text(""@),
    }
}

/// The body the endpoint's request carries.
pub fn request_body(endpoint: &PersistedEndpoint) -> (r: RequestBody)
    ensures
        r@ == body_plan(endpoint@),
{
    match get_content_type(endpoint) {
        Some(ct) => {
            let c = ct.as_str();
            if str_is(c, "application/json") || str_is(c, "application/javascript") || str_is(
                c,
                "text/plain",
            ) || str_is(c, "text/html") || str_is(c, "text/xml") {
                RequestBody::Text(endpoint.body.clone())
            } else if str_is(c, "x-www-form-urlencoded") {
                RequestBody::Form(form_pairs(endpoint.body.as_str()))
            } else if str_is(c, "multipart/form-data") {
                RequestBody::Multipart(form_pairs(endpoint.body.as_str()))
            } else {
                RequestBody::Text("".to_owned())
            }
        },
        None => RequestBody::Text("".to_owned()),
    }
}

/// The lengths of the body modes and media types, which tell them apart.
proof fn lemma_media_names()
    ensures
        "none"@.len() == 4,
        "formdata"@.len() == 8,
        "x-www-form-urlencoded"@.len() == 21,
        "graphql"@.len() == 7,
        "raw"@.len() == 3,
        "text"@.len() == 4 && "text"@[0] == 't',
        "javascript"@.len() == 10,
        "json"@.len() == 4 && "json"@[0] == 'j',
        "html"@.len() == 4 && "html"@[0] == 'h',
        "xml"@.len() == 3,
        "application/json"@.len() == 16,
        "application/javascript"@.len() == 22,
        "text/plain"@.len() == 10,
        "text/html"@.len() == 9,
        "text/xml"@.len() == 8,
        "multipart/form-data"@.len() == 19,
        "application/x-www-form-urlencoded"@.len() == 33,
{
    reveal_strlit("none");
    reveal_strlit("formdata");
    reveal_strlit("x-www-form-urlencoded");
    reveal_strlit("graphql");
    reveal_strlit("raw");
    reveal_strlit("text");
    reveal_strlit("javascript");
    reveal_strlit("json");
    reveal_strlit("html");
    reveal_strlit("xml");
    reveal_strlit("application/json");
    reveal_strlit("application/javascript");
    reveal_strlit("text/plain");
    reveal_strlit("text/html");
    reveal_strlit("text/xml");
    reveal_strlit("multipart/form-data");
    reveal_strlit("application/x-www-form-urlencoded");
}

/// The media type a body is sent with, by its mode: none for no body, a
/// multipart form for `formdata`, a URL-encoded form for
/// `x-www-form-urlencoded`, JSON for `graphql`, and for a raw body the type of
/// its kind once lowercased (`text` plain text, `javascript`, `json`, `html`,
/// `xml`), or none for another kind or another mode.
pub proof fn law_content_type_by_mode(mode: Seq<char>, raw: Seq<char>)
    ensures
        mode == "none"@ ==> content_type_for(mode, raw) is None,
        mode == "formdata"@ ==> content_type_for(mode, raw) == Some("multipart/form-data"@),
        mode == "x-www-form-urlencoded"@ ==> content_type_for(mode, raw) == Some(
            "application/x-www-form-urlencoded"@,
        ),
        mode == "graphql"@ ==> content_type_for(mode, raw) == Some("application/json"@),
        mode == "raw"@ && spec_lowercase(raw) == "text"@ ==> content_type_for(mode, raw) == Some("text/plain"@),
        mode == "raw"@ && spec_lowercase(raw) == "javascript"@ ==> content_type_for(mode, raw) == Some(
            "application/javascript"@,
        ),
        mode == "raw"@ && spec_lowercase(raw) == "json"@ ==> content_type_for(mode, raw) == Some("application/json"@),
        mode == "raw"@ && spec_lowercase(raw) == "html"@ ==> content_type_for(mode, raw) == Some("text/html"@),
        mode == "raw"@ && spec_lowercase(raw) == "xml"@ ==> content_type_for(mode, raw) == Some("text/xml"@),
        mode != "none"@ && mode != "formdata"@ && mode != "x-www-form-urlencoded"@ && mode != "graphql"@
            && mode != "raw"@ ==> content_type_for(mode, raw) is None,
{
    lemma_media_names();
}

/// What a request carries, by the endpoint's body mode: a raw body whose
/// kind lowercases to `text`, `javascript`, `json`, `html` or `xml` is sent
/// as the endpoint's own text, and so is a GraphQL body; a multipart form
/// sends the `key=value` lines of the body as its fields; an endpoint with
/// no body mode, or with a raw kind that is none of these, sends no text.
pub proof fn law_body_by_mode(e: EndpointData)
    ensures
        e.body_mode == "raw"@ && (spec_lowercase(e.raw_type) == "text"@ || spec_lowercase(e.raw_type)
            == "javascript"@ || spec_lowercase(e.raw_type) == "json"@ || spec_lowercase(e.raw_type)
            == "html"@ || spec_lowercase(e.raw_type) == "xml"@) ==> body_plan(e) == BodyPlan::Text(e.body),
        e.body_mode == "graphql"@ ==> body_plan(e) == BodyPlan::Text(e.body),
        e.body_mode == "formdata"@ ==> body_plan(e) == BodyPlan::Multipart(form_fields(e.body)),
        e.body_mode == "none"@ ==> body_plan(e) == BodyPlan::Text(""@),
        e.body_mode == "raw"@ && !(spec_lowercase(e.raw_type) == "text"@ || spec_lowercase(e.raw_type)
            == "javascript"@ || spec_lowercase(e.raw_type) == "json"@ || spec_lowercase(e.raw_type)
            == "html"@ || spec_lowercase(e.raw_type) == "xml"@) ==> body_plan(e) == BodyPlan::Text(""@),
{
    lemma_media_names();
}

// ---------------------------------------------------------------------------
// Responses
// ---------------------------------------------------------------------------
/// The extension after the response headers `hs` were read, starting from
/// `ext`: each `content-type` header (compared in lowercase) sets it anew.
pub open spec fn extension_after(hs: Seq<(Seq<char>, Seq<char>)>, ext: Seq<char>) -> Seq<char>
    decreases hs.len(),
{
    if hs.len() == 0 {
        ext
    } else {
        extension_after(
            hs.skip(1),
            if spec_lowercase(hs[0].0) == "content-type"@ {
                extension_for(hs[0].1)
            } else {
                ext
            },
        )
    }
}

/// The extension a response body is shown with, by the response's headers:
/// `txt` unless a `content-type` header says otherwise (the last one counts).
pub fn response_extension(headers: &Vec<(String, String)>) -> (r: String)
    ensures
        r@ == extension_after(pairs_view(headers@), "txt"@),
{
    let ghost hs = pairs_view(headers@);
    let mut ext = "txt".to_owned();
    let mut i: usize = 0;
    assert(hs.skip(0) =~= hs);
    while i < headers.len()
        invariant
            hs == pairs_view(headers@),
            i <= headers@.len(),
            extension_after(hs.skip(i as int), ext@) == extension_after(hs, "txt"@),
        decreases headers@.len() - i,
    {
        let (name, value) = (&headers[i].0, &headers[i].1);
        assert(hs.skip(i as int)[0] == (name@, value@));
        assert(hs.skip(i as int).skip(1) =~= hs.skip(i + 1));
        let lower = to_lowercase(name.as_str());
        if str_is(lower.as_str(), "content-type") {
            ext = get_extension(value.as_str());
        }
        i += 1;
    }
    assert(hs.skip(i as int) =~= Seq::<(Seq<char>, Seq<char>)>::empty());
    ext
}

/// The decimal digit for `d < 10`.
pub open spec fn digit_char(d: nat) -> char {
    if d == 0 {
        '0'
    } else if d == 1 {
        '1'
    } else if d == 2 {
        '2'
    } else if d == 3 {
        '3'
    } else if d == 4 {
        '4'
    } else if d == 5 {
        '5'
    } else if d == 6 {
        '6'
    } else if d == 7 {
        '7'
    } else if d == 8 {
        '8'
    } else {
        '9'
    }
}

/// `n` written in decimal, without leading zeros.
pub open spec fn decimal(n: nat) -> Seq<char>
    decreases n,
{
    if n < 10 {
        seq![digit_char(n)]
    } else {
        decimal(n / 10).push(digit_char(n % 10))
    }
}

/// The number a text of decimal digits stands for (`0` for a character that
/// is no digit).
pub open spec fn digits_value(s: Seq<char>) -> nat
    decreases s.len(),
{
    if s.len() == 0 {
        0
    } else {
        digits_value(s.drop_last()) * 10 + (if '0' <= s.last() <= '9' {
            (s.last() as u32 - '0' as u32) as nat
        } else {
            0
        })
    }
}

proof fn lemma_digit_char(d: nat)
    requires
        d < 10,
    ensures
        '0' <= digit_char(d) <= '9',
        (digit_char(d) as u32 - '0' as u32) as nat == d,
{
    assert('0' as u32 == 48);
    if d == 0 {
        assert('0' as u32 == 48);
    } else if d == 1 {
        assert('1' as u32 == 49);
    } else if d == 2 {
        assert('2' as u32 == 50);
    } else if d == 3 {
        assert('3' as u32 == 51);
    } else if d == 4 {
        assert('4' as u32 == 52);
    } else if d == 5 {
        assert('5' as u32 == 53);
    } else if d == 6 {
        assert('6' as u32 == 54);
    } else if d == 7 {
        assert('7' as u32 == 55);
    } else if d == 8 {
        assert('8' as u32 == 56);
    } else {
        assert('9' as u32 == 57);
    }
}

/// `decimal(n)` is `n` written in decimal: it holds only digits, it starts
/// with no `0` unless `n` is zero, and it stands for `n`.
pub proof fn law_decimal_writes_the_number(n: nat)
    ensures
        decimal(n).len() > 0,
        forall|i: int| 0 <= i < decimal(n).len() ==> '0' <= #[trigger] decimal(n)[i] <= '9',
        n > 0 ==> decimal(n)[0] != '0',
        digits_value(decimal(n)) == n,
    decreases n,
{
    if n >= 10 {
        law_decimal_writes_the_number(n / 10);
        let s = decimal(n);
        assert(s.drop_last() =~= decimal(n / 10));
        assert(s[0] == decimal(n / 10)[0]);
        assert(n == (n / 10) * 10 + n % 10);
        lemma_digit_char(n % 10);
        assert(s.last() == digit_char(n % 10));
        assert(digits_value(s) == digits_value(decimal(n / 10)) * 10 + n % 10);
    } else {
        let s = decimal(n);
        assert(s.drop_last() =~= Seq::<char>::empty());
        lemma_digit_char(n);
        assert(s.last() == digit_char(n));
        assert(digits_value(s.drop_last()) == 0);
    }
}

/// The extension a response is shown with is its media subtype, except that
/// plain text shows as `txt`, and a content type that does not parse counts as
/// plain text.
pub proof fn law_extension_is_subtype(content_type: Seq<char>, subtype: Seq<char>)
    ensures
        subtype != "plain"@ ==> extension_of(subtype) == subtype,
        extension_of("plain"@) == "txt"@,
        mime_subtype(content_type) == Some(subtype) ==> extension_for(content_type) == extension_of(subtype),
        mime_subtype(content_type) is None ==> extension_for(content_type) == "txt"@,
{
}

fn digit(d: u64) -> (c: char)
    requires
        d < 10,
    ensures
        c == digit_char(d as nat),
{
    if d == 0 {
        '0'
    } else if d == 1 {
        '1'
    } else if d == 2 {
        '2'
    } else if d == 3 {
        '3'
    } else if d == 4 {
        '4'
    } else if d == 5 {
        '5'
    } else if d == 6 {
        '6'
    } else if d == 7 {
        '7'
    } else if d == 8 {
        '8'
    } else {
        '9'
    }
}

pub(crate) fn push_decimal(out: &mut Vec<char>, n: u64)
    ensures
        final(out)@ == old(out)@ + decimal(n as nat),
    decreases n,
{
    if n < 10 {
        out.push(digit(n));
        assert(old(out)@.push(digit_char(n as nat)) =~= old(out)@ + seq![digit_char(n as nat)]);
    } else {
        push_decimal(out, n / 10);
        out.push(digit(n % 10));
        assert(old(out)@ + decimal((n / 10) as nat) + seq![digit_char((n % 10) as nat)] =~= old(
            out,
        )@ + decimal(n as nat));
    }
}

/// The label of the response window: `Response Body (Status Code: N)`.
pub open spec fn status_label_text(status: nat) -> Seq<char> {
    "Response Body (Status Code: "@ + decimal(status) + ")"@
}

/// The label of the response window for a response with this status code.
pub fn status_label(status: u16) -> (r: String)
    ensures
        r@ == status_label_text(status as nat),
{
    let mut v = chars_of("Response Body (Status Code: ");
    push_decimal(&mut v, status as u64);
    v.push(')');
    proof {
        reveal_strlit(")");
    }
    assert(v@ =~= status_label_text(status as nat));
    string_of(v.as_slice())
}

} // verus!
