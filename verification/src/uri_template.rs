//! URI templates, and whether an address is an expansion of one.
//!
//! A template is text with expressions in braces, after RFC 6570. An
//! address matches a template when some choice of string values for the
//! template's variables, each defined or left undefined, expands the
//! template to exactly that address.
//!
//! Supported are the expressions of levels 1 to 3 that expand without the
//! variables' names: `{var}`, `{+var}`, `{#var}`, `{.var}` and `{/var}`,
//! each with one variable or a list of them. The named forms (`;`, `?`, `&`)
//! and the modifiers of level 4 make a template malformed, and a malformed
//! template matches nothing. A `%` counts as part of a value wherever it
//! stands; the two hexadecimal digits after it are not asked for.

use vstd::prelude::*;
use crate::text::chars_of;

verus! {

/// An expression of a template, reduced to what decides a match.
#[derive(Debug, Clone, Copy, PartialEq, Eq)]
pub struct Hole {
    /// The character that an expansion starts with, if the operator has one.
    pub lead: Option<char>,
    /// The character between the values of two variables.
    pub sep: char,
    /// Whether reserved characters pass into a value unencoded.
    pub reserved: bool,
    /// How many variables the expression lists.
    pub values: usize,
}

/// One step of a template: a character to find as it is, or an expression.
#[derive(Debug, Clone, Copy, PartialEq, Eq)]
pub enum Part {
    Char(char),
    Hole(Hole),
}

/// The letters of the Latin alphabet.
pub open spec fn is_alpha(c: char) -> bool {
    ('a' <= c && c <= 'z') || ('A' <= c && c <= 'Z')
}

/// The decimal digits.
pub open spec fn is_digit(c: char) -> bool {
    '0' <= c && c <= '9'
}

/// The characters that every expansion leaves as they are.
pub open spec fn is_unreserved(c: char) -> bool {
    is_alpha(c) || is_digit(c) || c == '-' || c == '.' || c == '_' || c == '~'
}

/// The delimiters of a URI.
pub open spec fn is_reserved(c: char) -> bool {
    c == ':' || c == '/' || c == '?' || c == '#' || c == '[' || c == ']' || c == '@' || c == '!'
        || c == '$' || c == '&' || c == '\'' || c == '(' || c == ')' || c == '*' || c == '+'
        || c == ',' || c == ';' || c == '='
}

/// The characters of a variable's name, but for the dots inside it.
pub open spec fn is_varchar(c: char) -> bool {
    is_alpha(c) || is_digit(c) || c == '_' || c == '%'
}

/// Whether `c` can stand inside a value that `h` expands.
pub open spec fn in_class(h: Hole, c: char) -> bool {
    is_unreserved(c) || c == '%' || (h.reserved && is_reserved(c))
}

/// Whether `c` can only be a separator between two values of `h`.
pub open spec fn is_break(h: Hole, c: char) -> bool {
    c == h.sep && !in_class(h, c)
}

/// How many characters of `w` can only be separators.
pub open spec fn breaks(h: Hole, w: Seq<char>) -> nat
    decreases w.len(),
{
    if w.len() == 0 {
        0
    } else {
        breaks(h, w.drop_last()) + if is_break(h, w.last()) {
            1nat
        } else {
            0nat
        }
    }
}

/// Whether `w` is what the defined variables of `h` expand to, after the
/// leading character: values of the hole's class, separated, and no more
/// of them than the hole has variables.
pub open spec fn body_ok(h: Hole, w: Seq<char>) -> bool {
    &&& forall|i: int| 0 <= i < w.len() ==> in_class(h, #[trigger] w[i]) || w[i] == h.sep
    &&& breaks(h, w) < h.values
}

/// Whether `text` is an expansion of the expression `h`: nothing, where
/// every variable is undefined, or the lead and a body.
pub open spec fn hole_accepts(h: Hole, text: Seq<char>) -> bool {
    text.len() == 0 || match h.lead {
        Some(lead) => text[0] == lead && body_ok(h, text.skip(1)),
        None => body_ok(h, text),
    }
}

/// Whether `text` is what `part` stands for: the character itself, or an
/// expansion of the expression.
pub open spec fn part_accepts(part: Part, text: Seq<char>) -> bool {
    match part {
        Part::Char(c) => text == seq![c],
        Part::Hole(h) => hole_accepts(h, text),
    }
}

/// Whether `text` can be cut into one piece for each part, in order, each
/// accepted by its part.
pub open spec fn accepts(parts: Seq<Part>, text: Seq<char>) -> bool
    decreases parts.len(),
{
    if parts.len() == 0 {
        text.len() == 0
    } else {
        exists|p: int|
            0 <= p <= text.len() && accepts(parts.drop_last(), text.take(p))
                && #[trigger] part_accepts(parts.last(), text.skip(p))
    }
}

/// Whether `w` is a list of variable names: names of name characters,
/// with single dots inside a name and single commas between names.
pub open spec fn valid_names(w: Seq<char>) -> bool {
    &&& w.len() > 0
    &&& is_varchar(w[0])
    &&& forall|i: int|
        0 <= i < w.len() ==> is_varchar(#[trigger] w[i]) || ((w[i] == '.' || w[i] == ',') && i + 1
            < w.len() && is_varchar(w[i + 1]))
}

/// How many commas `w` holds.
pub open spec fn commas(w: Seq<char>) -> nat
    decreases w.len(),
{
    if w.len() == 0 {
        0
    } else {
        commas(w.drop_last()) + if w.last() == ',' {
            1nat
        } else {
            0nat
        }
    }
}

/// The hole that the text between two braces stands for, if it is an
/// expression that this module supports.
pub open spec fn hole_of(body: Seq<char>) -> Option<Hole> {
    if body.len() == 0 {
        None
    } else {
        let first = body[0];
        let names = if first == '+' || first == '#' || first == '.' || first == '/' {
            body.skip(1)
        } else {
            body
        };
        if valid_names(names) {
            let values = (commas(names) + 1) as usize;
            if first == '+' {
                Some(Hole { lead: None, sep: ',', reserved: true, values })
            } else if first == '#' {
                Some(Hole { lead: Some('#'), sep: ',', reserved: true, values })
            } else if first == '.' {
                Some(Hole { lead: Some('.'), sep: '.', reserved: false, values })
            } else if first == '/' {
                Some(Hole { lead: Some('/'), sep: '/', reserved: false, values })
            } else {
                Some(Hole { lead: None, sep: ',', reserved: false, values })
            }
        } else {
            None
        }
    }
}

/// The place of the first `}` of `t` at or after `from`, or the length of
/// `t` if there is none.
pub open spec fn find_close(t: Seq<char>, from: int) -> int
    decreases t.len() - from,
{
    if from < 0 || from >= t.len() {
        t.len() as int
    } else if t[from] == '}' {
        from
    } else {
        find_close(t, from + 1)
    }
}

/// The parts of the template `t` from `from` on; `None` for a malformed
/// template.
pub open spec fn parse_from(t: Seq<char>, from: int) -> Option<Seq<Part>>
    decreases t.len() - from,
{
    if from < 0 || from >= t.len() {
        Some(Seq::empty())
    } else if t[from] == '{' {
        let close = find_close(t, from + 1);
        if from < close < t.len() {
            match (hole_of(t.subrange(from + 1, close)), parse_from(t, close + 1)) {
                (Some(h), Some(rest)) => Some(seq![Part::Hole(h)] + rest),
                _ => None,
            }
        } else {
            None
        }
    } else if t[from] == '}' {
        None
    } else {
        match parse_from(t, from + 1) {
            Some(rest) => Some(seq![Part::Char(t[from])] + rest),
            None => None,
        }
    }
}

/// Whether the address `uri` is an expansion of `template`.
pub open spec fn template_matches(template: Seq<char>, uri: Seq<char>) -> bool {
    match parse_from(template, 0) {
        Some(parts) => accepts(parts, uri),
        None => false,
    }
}


fn unreserved(c: char) -> (r: bool)
    ensures
        r == is_unreserved(c),
{
    (c >= 'a' && c <= 'z') || (c >= 'A' && c <= 'Z') || (c >= '0' && c <= '9') || c == '-' || c
        == '.' || c == '_' || c == '~'
}

fn reserved(c: char) -> (r: bool)
    ensures
        r == is_reserved(c),
{
    c == ':' || c == '/' || c == '?' || c == '#' || c == '[' || c == ']' || c == '@' || c == '!'
        || c == '$' || c == '&' || c == '\'' || c == '(' || c == ')' || c == '*' || c == '+'
        || c == ',' || c == ';' || c == '='
}

fn varchar(c: char) -> (r: bool)
    ensures
        r == is_varchar(c),
{
    (c >= 'a' && c <= 'z') || (c >= 'A' && c <= 'Z') || (c >= '0' && c <= '9') || c == '_' || c
        == '%'
}

fn class_has(h: &Hole, c: char) -> (r: bool)
    ensures
        r == in_class(*h, c),
{
    unreserved(c) || c == '%' || (h.reserved && reserved(c))
}

/// Appending after a push is appending the pushed element first.
proof fn lemma_push_concat<T>(a: Seq<T>, x: T, rest: Seq<T>)
    ensures
        a.push(x) + rest == a + (seq![x] + rest),
{
    let l = a.push(x) + rest;
    let r = a + (seq![x] + rest);
    assert(l.len() == r.len());
    assert forall|i: int| 0 <= i < l.len() implies l[i] == r[i] by {
        if i < a.len() {
        } else if i == a.len() {
            assert((seq![x] + rest)[0] == x);
        } else {
            assert((seq![x] + rest)[i - a.len()] == rest[i - a.len() - 1]);
        }
    }
    assert(l =~= r);
}

/// Counting over one more character.
proof fn lemma_commas_push(w: Seq<char>, k: int)
    requires
        0 <= k < w.len(),
    ensures
        commas(w.take(k + 1)) == commas(w.take(k)) + if w[k] == ',' {
            1nat
        } else {
            0nat
        },
        commas(w.take(k)) <= k,
    decreases k,
{
    assert(w.take(k + 1).drop_last() =~= w.take(k));
    if k > 0 {
        lemma_commas_push(w, k - 1);
    }
}

/// Reads the text between two braces, `t[from..close]`.
fn read_hole(t: &Vec<char>, from: usize, close: usize) -> (r: Option<Hole>)
    requires
        from <= close <= t.len(),
    ensures
        r == hole_of(t@.subrange(from as int, close as int)),
{
    let ghost body = t@.subrange(from as int, close as int);
    if from == close {
        return None;
    }
    let first = t[from];
    assert(body[0] == first);
    let has_op = first == '+' || first == '#' || first == '.' || first == '/';
    let start: usize = if has_op {
        from + 1
    } else {
        from
    };
    let ghost names = t@.subrange(start as int, close as int);
    assert(names =~= if has_op {
        body.skip(1)
    } else {
        body
    });
    if start == close {
        return None;
    }
    assert(names[0] == t@[start as int]);
    if !varchar(t[start]) {
        return None;
    }
    let mut count: usize = 0;
    let mut k: usize = start;
    while k < close
        invariant
            start <= k <= close <= t.len(),
            body == t@.subrange(from as int, close as int),
            body.len() > 0,
            body[0] == first,
            has_op == (first == '+' || first == '#' || first == '.' || first == '/'),
            names == if has_op {
                body.skip(1)
            } else {
                body
            },
            names == t@.subrange(start as int, close as int),
            is_varchar(names[0]),
            count == commas(names.take(k - start)),
            count <= k - start,
            k > start ==> count < k - start,
            forall|i: int|
                0 <= i < k - start ==> is_varchar(#[trigger] names[i]) || ((names[i] == '.'
                    || names[i] == ',') && i + 1 < names.len() && is_varchar(names[i + 1])),
        decreases close - k,
    {
        let c = t[k];
        assert(names[k - start] == c);
        proof {
            lemma_commas_push(names, k - start);
        }
        if !varchar(c) {
            if !((c == '.' || c == ',') && k + 1 < close && varchar(t[k + 1])) {
                assert(!(is_varchar(names[k - start]) || ((names[k - start] == '.' || names[k
                    - start] == ',') && (k - start) + 1 < names.len() && is_varchar(
                    names[(k - start) + 1],
                ))));
                return None;
            }
            assert(names[(k - start) + 1] == t@[k + 1]);
        }
        if c == ',' {
            count += 1;
        }
        k += 1;
    }
    assert(names.take(close - start) =~= names);
    assert(names[0] == t@[start as int]);
    assert(valid_names(names));
    let values: usize = count + 1;
    if first == '+' {
        Some(Hole { lead: None, sep: ',', reserved: true, values })
    } else if first == '#' {
        Some(Hole { lead: Some('#'), sep: ',', reserved: true, values })
    } else if first == '.' {
        Some(Hole { lead: Some('.'), sep: '.', reserved: false, values })
    } else if first == '/' {
        Some(Hole { lead: Some('/'), sep: '/', reserved: false, values })
    } else {
        Some(Hole { lead: None, sep: ',', reserved: false, values })
    }
}

/// Reads a template into its parts.
fn parse_template(t: &Vec<char>) -> (r: Option<Vec<Part>>)
    ensures
        match r {
            Some(parts) => parse_from(t@, 0) == Some(parts@),
            None => parse_from(t@, 0) is None,
        },
{
    let mut parts: Vec<Part> = Vec::new();
    let mut i: usize = 0;
    assert(parts@ + parse_from(t@, 0)->0 =~= parse_from(t@, 0)->0);
    while i < t.len()
        invariant
            0 <= i <= t.len(),
            parse_from(t@, 0) == match parse_from(t@, i as int) {
                Some(rest) => Some(parts@ + rest),
                None => None,
            },
        decreases t.len() - i,
    {
        let c = t[i];
        if c == '{' {
            let mut close: usize = i + 1;
            while close < t.len() && t[close] != '}'
                invariant
                    i < close <= t.len(),
                    find_close(t@, i + 1) == find_close(t@, close as int),
                decreases t.len() - close,
            {
                close += 1;
            }
            if close >= t.len() {
                return None;
            }
            match read_hole(t, i + 1, close) {
                Some(h) => {
                    proof {
                        let ghost before = parts@;
                        match parse_from(t@, close + 1) {
                            Some(rest) => {
                                lemma_push_concat(before, Part::Hole(h), rest);
                            },
                            None => {},
                        }
                    }
                    parts.push(Part::Hole(h));
                    i = close + 1;
                },
                None => {
                    return None;
                },
            }
        } else if c == '}' {
            return None;
        } else {
            proof {
                let ghost before = parts@;
                match parse_from(t@, i + 1) {
                    Some(rest) => {
                        lemma_push_concat(before, Part::Char(c), rest);
                    },
                    None => {},
                }
            }
            parts.push(Part::Char(c));
            i += 1;
        }
    }
    assert(parts@ + Seq::<Part>::empty() =~= parts@);
    Some(parts)
}


/// Counting separators over one more character.
proof fn lemma_breaks_push(h: Hole, w: Seq<char>, k: int)
    requires
        0 <= k < w.len(),
    ensures
        breaks(h, w.take(k + 1)) == breaks(h, w.take(k)) + if is_break(h, w[k]) {
            1nat
        } else {
            0nat
        },
{
    assert(w.take(k + 1).drop_last() =~= w.take(k));
}

/// A body stays a body when its end is cut off.
proof fn lemma_body_prefix(h: Hole, w: Seq<char>, k: int)
    requires
        0 <= k <= w.len(),
        body_ok(h, w),
    ensures
        body_ok(h, w.take(k)),
    decreases w.len() - k,
{
    if k < w.len() {
        lemma_body_prefix(h, w, k + 1);
        lemma_breaks_push(h, w, k);
        assert forall|i: int| 0 <= i < w.take(k).len() implies in_class(
            h,
            #[trigger] w.take(k)[i],
        ) || w.take(k)[i] == h.sep by {
            assert(w.take(k)[i] == w[i]);
        }
    } else {
        assert(w.take(k) =~= w);
    }
}

/// Marks in `next` every end `q` for which `uri[p..q]` is an expansion of
/// `h`.
fn mark_from(h: &Hole, uri: &Vec<char>, p: usize, next: &mut Vec<bool>)
    requires
        p <= uri.len(),
        old(next).len() == uri.len() + 1,
    ensures
        final(next).len() == old(next).len(),
        forall|q: int|
            0 <= q <= uri.len() ==> #[trigger] final(next)[q] == (old(next)[q] || (p <= q
                && hole_accepts(*h, uri@.subrange(p as int, q)))),
{
    let ghost base = next@;
    let n = uri.len();
    next.set(p, true);
    if h.values == 0 {
        return;
    }
    let start: usize = match h.lead {
        Some(lead) => {
            if p < n && uri[p] == lead {
                p + 1
            } else {
                assert forall|q: int| p < q <= n implies !hole_accepts(
                    *h,
                    uri@.subrange(p as int, q),
                ) by {
                    assert(uri@.subrange(p as int, q)[0] == uri@[p as int]);
                }
                return;
            }
        },
        None => p,
    };
    assert forall|q: int| start <= q <= n implies hole_accepts(*h, uri@.subrange(p as int, q))
        == (q == p || body_ok(*h, uri@.subrange(start as int, q))) by {
        let text = uri@.subrange(p as int, q);
        if h.lead is Some {
            assert(text[0] == uri@[p as int]);
            assert(text.skip(1) =~= uri@.subrange(start as int, q));
        }
        if q == p {
            assert(text.len() == 0);
        }
    }
    assert(uri@.subrange(start as int, start as int) =~= Seq::empty());
    next.set(start, true);
    let ghost body = uri@.subrange(start as int, n as int);
    let mut cur: usize = start;
    let mut count: usize = 0;
    let mut going = true;
    while going && cur < n
        invariant
            p <= start <= cur <= n,
            n == uri.len(),
            h.values > 0,
            next.len() == n + 1,
            body == uri@.subrange(start as int, n as int),
            count == breaks(*h, body.take(cur - start)),
            count < h.values,
            body_ok(*h, body.take(cur - start)),
            !going ==> cur < n && !body_ok(*h, body.take(cur - start + 1)),
            forall|q: int|
                0 <= q <= n ==> #[trigger] next[q] == (base[q] || q == p || (start <= q <= cur
                    && body_ok(*h, body.take(q - start)))),
        decreases (if going { 1int } else { 0int }) + n - cur,
    {
        let c = uri[cur];
        let ghost k = cur - start;
        assert(body[k] == c);
        proof {
            lemma_breaks_push(*h, body, k);
        }
        let inside = class_has(h, c);
        if !inside && c != h.sep {
            assert(body.take(k + 1)[k] == c);
            going = false;
        } else if !inside && count + 1 >= h.values {
            going = false;
        } else {
            if !inside {
                count += 1;
            }
            assert forall|i: int| 0 <= i < body.take(k + 1).len() implies in_class(
                *h,
                #[trigger] body.take(k + 1)[i],
            ) || body.take(k + 1)[i] == h.sep by {
                if i < k {
                    assert(body.take(k)[i] == body[i]);
                }
            }
            cur += 1;
            next.set(cur, true);
        }
    }
    assert forall|q: int| 0 <= q <= n implies #[trigger] next[q] == (base[q] || (p <= q
        && hole_accepts(*h, uri@.subrange(p as int, q)))) by {
        if start <= q {
            assert(body.take(q - start) =~= uri@.subrange(start as int, q));
            if q > cur {
                if body_ok(*h, body.take(q - start)) {
                    lemma_body_prefix(*h, body.take(q - start), cur - start + 1);
                    assert(body.take(q - start).take(cur - start + 1) =~= body.take(
                        cur - start + 1,
                    ));
                }
            }
        } else if p < q {
        }
    }
}

/// Whether some start before `bound` that `reach` holds, and that is no
/// later than `q`, has `part` accept `uri[start..q]`.
pub open spec fn reached(part: Part, uri: Seq<char>, reach: Seq<bool>, bound: int, q: int)
    -> bool {
    exists|p: int|
        0 <= p < bound && p <= q && reach[p] && #[trigger] part_accepts(part, uri.subrange(p, q))
}

/// The ends that `part` reaches from the starts in `reach`.
fn advance(part: &Part, uri: &Vec<char>, reach: &Vec<bool>) -> (next: Vec<bool>)
    requires
        reach.len() == uri.len() + 1,
    ensures
        next.len() == reach.len(),
        forall|q: int|
            0 <= q <= uri.len() ==> #[trigger] next[q] == reached(
                *part,
                uri@,
                reach@,
                uri.len() + 1,
                q,
            ),
{
    let n = uri.len();
    let mut next: Vec<bool> = Vec::new();
    match part {
        Part::Char(c) => {
            let mut q: usize = 0;
            while q <= n
                invariant
                    0 <= q <= n + 1,
                    n == uri.len(),
                    reach.len() == n + 1,
                    next.len() == q,
                    *part == Part::Char(*c),
                    forall|k: int|
                        0 <= k < q ==> #[trigger] next[k] == reached(*part, uri@, reach@, n + 1, k),
                decreases n + 1 - q,
            {
                let hit = q > 0 && reach[q - 1] && uri[q - 1] == *c;
                proof {
                    if hit {
                        assert(uri@.subrange(q - 1, q as int) =~= seq![*c]);
                        assert(part_accepts(*part, uri@.subrange(q - 1, q as int)));
                    }
                    if reached(*part, uri@, reach@, n + 1, q as int) {
                        let p = choose|p: int|
                            0 <= p < n + 1 && p <= q && reach@[p] && #[trigger] part_accepts(
                                *part,
                                uri@.subrange(p, q as int),
                            );
                        assert(uri@.subrange(p, q as int).len() == 1);
                        assert(uri@.subrange(p, q as int)[0] == *c);
                    }
                }
                next.push(hit);
                q += 1;
            }
            next
        },
        Part::Hole(h) => {
            let mut q: usize = 0;
            while q <= n
                invariant
                    0 <= q <= n + 1,
                    reach.len() == n + 1,
                    next.len() == q,
                    forall|k: int| 0 <= k < q ==> !(#[trigger] next[k]),
                decreases n + 1 - q,
            {
                next.push(false);
                q += 1;
            }
            let mut p: usize = 0;
            while p <= n
                invariant
                    0 <= p <= n + 1,
                    n == uri.len(),
                    reach.len() == n + 1,
                    next.len() == n + 1,
                    *part == Part::Hole(*h),
                    forall|k: int|
                        0 <= k <= n ==> #[trigger] next[k] == reached(
                            *part,
                            uri@,
                            reach@,
                            p as int,
                            k,
                        ),
                decreases n + 1 - p,
            {
                let ghost before = next@;
                if reach[p] {
                    mark_from(h, uri, p, &mut next);
                }
                assert forall|k: int| 0 <= k <= n implies #[trigger] next[k] == reached(
                    *part,
                    uri@,
                    reach@,
                    p + 1,
                    k,
                ) by {
                    let here = reach@[p as int] && p <= k && part_accepts(
                        *part,
                        uri@.subrange(p as int, k),
                    );
                    assert(next[k] == (before[k] || here));
                    if reached(*part, uri@, reach@, p + 1, k) {
                        let w = choose|w: int|
                            0 <= w < p + 1 && w <= k && reach@[w] && #[trigger] part_accepts(
                                *part,
                                uri@.subrange(w, k),
                            );
                        if w < p {
                            assert(reached(*part, uri@, reach@, p as int, k));
                        }
                    }
                    if before[k] {
                        let w = choose|w: int|
                            0 <= w < p && w <= k && reach@[w] && #[trigger] part_accepts(
                                *part,
                                uri@.subrange(w, k),
                            );
                        assert(0 <= w < p + 1);
                    }
                }
                p += 1;
            }
            next
        },
    }
}


/// One more part is accepted from where the parts before it were.
proof fn lemma_accepts_step(parts: Seq<Part>, k: int, uri: Seq<char>, reach: Seq<bool>, q: int)
    requires
        0 <= k < parts.len(),
        0 <= q <= uri.len(),
        reach.len() == uri.len() + 1,
        forall|p: int| 0 <= p <= uri.len() ==> #[trigger] reach[p] == accepts(
            parts.take(k),
            uri.take(p),
        ),
    ensures
        accepts(parts.take(k + 1), uri.take(q)) == reached(
            parts[k],
            uri,
            reach,
            uri.len() as int + 1,
            q,
        ),
{
    let upto = parts.take(k + 1);
    let text = uri.take(q);
    assert(upto.drop_last() =~= parts.take(k));
    assert(upto.last() == parts[k]);
    assert(upto.len() == k + 1);
    assert(text.len() == q);
    if accepts(upto, text) {
        let p = choose|p: int|
            0 <= p <= text.len() && accepts(upto.drop_last(), text.take(p))
                && #[trigger] part_accepts(upto.last(), text.skip(p));
        assert(text.take(p) =~= uri.take(p));
        assert(text.skip(p) =~= uri.subrange(p, q));
        assert(reach[p]);
        assert(part_accepts(parts[k], uri.subrange(p, q)));
    }
    if reached(parts[k], uri, reach, uri.len() as int + 1, q) {
        let p = choose|p: int|
            0 <= p < uri.len() + 1 && p <= q && reach[p] && #[trigger] part_accepts(
                parts[k],
                uri.subrange(p, q),
            );
        assert(text.take(p) =~= uri.take(p));
        assert(text.skip(p) =~= uri.subrange(p, q));
        assert(accepts(upto.drop_last(), text.take(p)));
        assert(part_accepts(upto.last(), text.skip(p)));
    }
}

/// Whether the address `uri` is an expansion of `template`, for some choice
/// of values for the template's variables. A malformed template matches no
/// address.
pub fn template_uri_matches(template: &str, uri: &str) -> (r: bool)
    ensures
        r == template_matches(template@, uri@),
{
    let t = chars_of(template);
    let u = chars_of(uri);
    let parts = match parse_template(&t) {
        Some(parts) => parts,
        None => {
            return false;
        },
    };
    let n = u.len();
    let mut reach: Vec<bool> = Vec::new();
    reach.push(true);
    let mut q: usize = 0;
    while q < n
        invariant
            0 <= q <= n,
            reach.len() == q + 1,
            reach[0],
            forall|k: int| 1 <= k <= q ==> !(#[trigger] reach[k]),
        decreases n - q,
    {
        reach.push(false);
        q += 1;
    }
    assert forall|p: int| 0 <= p <= n implies #[trigger] reach[p] == accepts(
        parts@.take(0),
        u@.take(p),
    ) by {
        assert(parts@.take(0).len() == 0);
        assert(u@.take(p).len() == p);
    }
    let mut k: usize = 0;
    while k < parts.len()
        invariant
            0 <= k <= parts.len(),
            n == u.len(),
            reach.len() == n + 1,
            forall|p: int| 0 <= p <= n ==> #[trigger] reach[p] == accepts(
                parts@.take(k as int),
                u@.take(p),
            ),
        decreases parts.len() - k,
    {
        let next = advance(&parts[k], &u, &reach);
        assert forall|p: int| 0 <= p <= n implies #[trigger] next[p] == accepts(
            parts@.take(k + 1),
            u@.take(p),
        ) by {
            lemma_accepts_step(parts@, k as int, u@, reach@, p);
        }
        reach = next;
        k += 1;
    }
    assert(parts@.take(parts.len() as int) =~= parts@);
    assert(u@.take(n as int) =~= u@);
    reach[n]
}

} // verus!
