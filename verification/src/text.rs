//! Text operations on `str` and `String`, each with its meaning as a function
//! on character sequences.

use vstd::prelude::*;

verus! {

// ---- characters ----------------------------------------------------------

/// The Unicode `White_Space` property.
pub open spec fn is_space(c: char) -> bool {
    ||| '\u{9}' <= c <= '\u{d}'
    ||| c == ' '
    ||| c == '\u{85}'
    ||| c == '\u{a0}'
    ||| c == '\u{1680}'
    ||| '\u{2000}' <= c <= '\u{200a}'
    ||| c == '\u{2028}'
    ||| c == '\u{2029}'
    ||| c == '\u{202f}'
    ||| c == '\u{205f}'
    ||| c == '\u{3000}'
}

/// ASCII upper case to lower case; every other character is left alone.
pub open spec fn lower_char(c: char) -> char {
    if 'A' <= c <= 'Z' {
        ((c as int) + 32) as char
    } else {
        c
    }
}

/// A list separator in a `seed` parameter: a comma or white space.
pub open spec fn is_separator(c: char) -> bool {
    c == ',' || is_space(c)
}

fn space(c: char) -> (r: bool)
    ensures
        r == is_space(c),
{
    ('\u{9}' <= c && c <= '\u{d}') || c == ' ' || c == '\u{85}' || c == '\u{a0}' || c == '\u{1680}'
        || ('\u{2000}' <= c && c <= '\u{200a}') || c == '\u{2028}' || c == '\u{2029}' || c
        == '\u{202f}' || c == '\u{205f}' || c == '\u{3000}'
}

fn to_lower_char(c: char) -> (r: char)
    ensures
        r == lower_char(c),
{
    if 'A' <= c && c <= 'Z' {
        let n: u8 = c as u8;
        (n + 32) as char
    } else {
        c
    }
}

// ---- comparison ----------------------------------------------------------

/// Whether two texts are the same.
pub fn same(a: &str, b: &str) -> (r: bool)
    ensures
        r == (a@ == b@),
{
    a.to_string() == b.to_string()
}

/// `s` with ASCII letters in lower case.
pub open spec fn lowered(s: Seq<char>) -> Seq<char> {
    s.map_values(|c: char| lower_char(c))
}

/// `s` with ASCII letters in lower case.
pub fn to_lower(s: &str) -> (r: String)
    ensures
        r@ == lowered(s@),
{
    let mut r = String::new();
    for c in it: s.chars()
        invariant
            it.seq() == s@,
            r@ == lowered(s@.take(it.index())),
    {
        r.push(to_lower_char(c));
        assert(s@.take(it.index() + 1) == s@.take(it.index()).push(c));
    }
    assert(s@.take(s@.len() as int) == s@);
    r
}

/// Equality up to ASCII case.
pub fn same_ignoring_case(a: &str, b: &str) -> (r: bool)
    ensures
        r == (lowered(a@) == lowered(b@)),
{
    to_lower(a) == to_lower(b)
}

// ---- searching -----------------------------------------------------------

/// Index of the first `c` in `s`; `s.len()` where there is none.
pub open spec fn first_pos(s: Seq<char>, c: char) -> int
    decreases s.len(),
{
    if s.len() == 0 || s[0] == c {
        0
    } else {
        1 + first_pos(s.drop_first(), c)
    }
}

/// Index of the last `c` in `s`; `-1` where there is none.
pub open spec fn last_pos(s: Seq<char>, c: char) -> int
    decreases s.len(),
{
    if s.len() == 0 || s.last() == c {
        s.len() - 1
    } else {
        last_pos(s.drop_last(), c)
    }
}

/// `p` is the first position of `c` exactly when no earlier position holds `c`
/// and `p` is a position of `c` or the end.
pub proof fn lemma_first_pos(s: Seq<char>, c: char, p: int)
    requires
        0 <= p <= s.len(),
        p < s.len() ==> s[p] == c,
        forall|j: int| 0 <= j < p ==> s[j] != c,
    ensures
        first_pos(s, c) == p,
    decreases s.len(),
{
    if s.len() > 0 && s[0] != c {
        lemma_first_pos(s.drop_first(), c, p - 1);
    }
}

/// What the first position says of the characters up to it.
pub proof fn lemma_first_pos_holds(s: Seq<char>, c: char)
    ensures
        0 <= first_pos(s, c) <= s.len(),
        first_pos(s, c) < s.len() ==> s[first_pos(s, c)] == c,
        forall|j: int| 0 <= j < first_pos(s, c) ==> s[j] != c,
        first_pos(s, c) < s.len() <==> s.contains(c),
    decreases s.len(),
{
    if s.len() > 0 && s[0] != c {
        let t = s.drop_first();
        lemma_first_pos_holds(t, c);
        assert forall|j: int| 0 <= j < first_pos(s, c) implies s[j] != c by {
            if j > 0 {
                assert(t[j - 1] == s[j]);
            }
        }
        if s.contains(c) {
            let k = choose|k: int| 0 <= k < s.len() && s[k] == c;
            assert(t[k - 1] == c);
        }
        if t.contains(c) {
            let k = choose|k: int| 0 <= k < t.len() && t[k] == c;
            assert(s[k + 1] == c);
        }
    } else if s.len() > 0 {
        assert(s[0] == c);
    }
}

/// `p` is the last position of `c` exactly when no later position holds `c`
/// and `p` is a position of `c` or `-1`.
pub proof fn lemma_last_pos(s: Seq<char>, c: char, p: int)
    requires
        -1 <= p < s.len(),
        p >= 0 ==> s[p] == c,
        forall|j: int| p < j < s.len() ==> s[j] != c,
    ensures
        last_pos(s, c) == p,
    decreases s.len(),
{
    if s.len() > 0 && s.last() != c {
        lemma_last_pos(s.drop_last(), c, p);
    }
}

/// What the last position says of the characters after it.
pub proof fn lemma_last_pos_holds(s: Seq<char>, c: char)
    ensures
        -1 <= last_pos(s, c) < s.len(),
        last_pos(s, c) >= 0 ==> s[last_pos(s, c)] == c,
        forall|j: int| last_pos(s, c) < j < s.len() ==> s[j] != c,
        last_pos(s, c) >= 0 <==> s.contains(c),
    decreases s.len(),
{
    if s.len() > 0 && s.last() != c {
        let t = s.drop_last();
        lemma_last_pos_holds(t, c);
        assert forall|j: int| last_pos(s, c) < j < s.len() implies s[j] != c by {
            if j < t.len() {
                assert(t[j] == s[j]);
            }
        }
        if s.contains(c) {
            let k = choose|k: int| 0 <= k < s.len() && s[k] == c;
            assert(t[k] == c);
        }
    } else if s.len() > 0 {
        assert(s[s.len() - 1] == c);
    }
}

/// Index of the first `c`, in characters.
pub fn find(s: &str, c: char) -> (r: Option<usize>)
    ensures
        match r {
            Some(i) => i < s@.len() <= usize::MAX && i == first_pos(s@, c),
            None => first_pos(s@, c) == s@.len(),
        },
{
    let n: usize = s.unicode_len();
    let mut i: usize = 0;
    for d in it: s.chars()
        invariant
            it.seq() == s@,
            n == s@.len(),
            i == it.index(),
            forall|j: int| 0 <= j < i ==> s@[j] != c,
    {
        if d == c {
            proof {
                lemma_first_pos(s@, c, i as int);
            }
            return Some(i);
        }
        i = i + 1;
    }
    proof {
        lemma_first_pos(s@, c, s@.len() as int);
    }
    None
}

/// Index of the last `c`, in characters.
pub fn rfind(s: &str, c: char) -> (r: Option<usize>)
    ensures
        match r {
            Some(i) => i < s@.len() <= usize::MAX && i == last_pos(s@, c),
            None => last_pos(s@, c) == -1,
        },
{
    let n: usize = s.unicode_len();
    let mut i: usize = 0;
    let mut found: Option<usize> = None;
    for d in it: s.chars()
        invariant
            it.seq() == s@,
            n == s@.len(),
            i == it.index(),
            match found {
                Some(p) => p < i && s@[p as int] == c && forall|j: int| p < j < i ==> s@[j] != c,
                None => forall|j: int| 0 <= j < i ==> s@[j] != c,
            },
    {
        if d == c {
            found = Some(i);
        }
        i = i + 1;
    }
    proof {
        match found {
            Some(p) => lemma_last_pos(s@, c, p as int),
            None => lemma_last_pos(s@, c, -1),
        }
    }
    found
}

/// Whether `c` occurs in `s`.
pub fn has_char(s: &str, c: char) -> (r: bool)
    ensures
        r == s@.contains(c),
{
    proof {
        lemma_first_pos_holds(s@, c);
    }
    find(s, c).is_some()
}

/// The first `n` characters.
pub fn before(s: &str, n: usize) -> (r: String)
    requires
        n <= s@.len(),
    ensures
        r@ == s@.take(n as int),
{
    s.substring_char(0, n).to_string()
}

/// What follows the first `n` characters.
pub fn after(s: &str, n: usize) -> (r: String)
    requires
        n <= s@.len(),
    ensures
        r@ == s@.skip(n as int),
{
    let len: usize = s.unicode_len();
    s.substring_char(n, len).to_string()
}

/// Whether `s` begins with `p`.
pub fn starts_with(s: &str, p: &str) -> (r: bool)
    ensures
        r == p@.is_prefix_of(s@),
{
    let n: usize = p.unicode_len();
    let m: usize = s.unicode_len();
    if m < n {
        return false;
    }
    same(s.substring_char(0, n), p)
}

// ---- trimming ------------------------------------------------------------

/// `s` without its leading whitespace.
pub open spec fn trimmed_start(s: Seq<char>) -> Seq<char>
    decreases s.len(),
{
    if s.len() > 0 && is_space(s[0]) {
        trimmed_start(s.drop_first())
    } else {
        s
    }
}

/// `s` without its trailing whitespace.
pub open spec fn trimmed_end(s: Seq<char>) -> Seq<char>
    decreases s.len(),
{
    if s.len() > 0 && is_space(s.last()) {
        trimmed_end(s.drop_last())
    } else {
        s
    }
}

/// `s` without leading and trailing whitespace.
pub open spec fn trimmed(s: Seq<char>) -> Seq<char> {
    trimmed_end(trimmed_start(s))
}

proof fn lemma_trimmed_start(s: Seq<char>, a: int)
    requires
        0 <= a <= s.len(),
        forall|j: int| 0 <= j < a ==> is_space(s[j]),
        a < s.len() ==> !is_space(s[a]),
    ensures
        trimmed_start(s) == s.skip(a),
    decreases a,
{
    if a > 0 {
        lemma_trimmed_start(s.drop_first(), a - 1);
        assert(s.drop_first().skip(a - 1) == s.skip(a));
    } else {
        assert(s.skip(0) == s);
    }
}

proof fn lemma_trimmed_end(s: Seq<char>, b: int)
    requires
        0 <= b <= s.len(),
        forall|j: int| b <= j < s.len() ==> is_space(s[j]),
        b > 0 ==> !is_space(s[b - 1]),
    ensures
        trimmed_end(s) == s.take(b),
    decreases s.len(),
{
    if b < s.len() {
        lemma_trimmed_end(s.drop_last(), b);
        assert(s.drop_last().take(b) == s.take(b));
    } else {
        assert(s.take(b) == s);
    }
}

/// A text whose first and last characters are not whitespace is its own trim.
pub proof fn lemma_trimmed_fixed(s: Seq<char>)
    requires
        s.len() > 0 ==> !is_space(s[0]) && !is_space(s.last()),
    ensures
        trimmed(s) == s,
{
}

/// A trim is a piece of the text it was made from, and has no whitespace at
/// either end.
pub proof fn lemma_trimmed(s: Seq<char>)
    ensures
        exists|a: int, b: int| 0 <= a <= b <= s.len() && trimmed(s) == #[trigger] s.subrange(a, b),
        trimmed(s).len() > 0 ==> !is_space(trimmed(s)[0]) && !is_space(trimmed(s).last()),
{
    let t = trimmed_start(s);
    lemma_trimmed_start_piece(s);
    lemma_trimmed_end_piece(t);
    let a = s.len() - t.len();
    let b = a + trimmed(s).len();
    assert(trimmed(s) =~= s.subrange(a, b));
}

proof fn lemma_trimmed_start_piece(s: Seq<char>)
    ensures
        trimmed_start(s).len() <= s.len(),
        trimmed_start(s) == s.skip(s.len() - trimmed_start(s).len()),
        trimmed_start(s).len() > 0 ==> !is_space(trimmed_start(s)[0]),
    decreases s.len(),
{
    if s.len() > 0 && is_space(s[0]) {
        lemma_trimmed_start_piece(s.drop_first());
        assert(trimmed_start(s) =~= s.skip(s.len() - trimmed_start(s).len()));
    } else {
        assert(s.skip(0) =~= s);
    }
}

proof fn lemma_trimmed_end_piece(s: Seq<char>)
    ensures
        trimmed_end(s).len() <= s.len(),
        trimmed_end(s) == s.take(trimmed_end(s).len() as int),
        trimmed_end(s).len() > 0 ==> !is_space(trimmed_end(s).last()),
    decreases s.len(),
{
    if s.len() > 0 && is_space(s.last()) {
        lemma_trimmed_end_piece(s.drop_last());
        assert(trimmed_end(s) =~= s.take(trimmed_end(s).len() as int));
    } else {
        assert(s.take(s.len() as int) =~= s);
    }
}

/// `s` without leading and trailing whitespace.
pub fn trim(s: &str) -> (r: &str)
    ensures
        r@ == trimmed(s@),
{
    let n: usize = s.unicode_len();
    let mut i: usize = 0;
    let mut start: usize = n;
    let mut end: usize = 0;
    for c in it: s.chars()
        invariant
            it.seq() == s@,
            n == s@.len(),
            i == it.index(),
            end <= i,
            end == 0 ==> start == n && forall|j: int| 0 <= j < i ==> is_space(s@[j]),
            end > 0 ==> {
                &&& start < end
                &&& !is_space(s@[start as int])
                &&& !is_space(s@[end - 1])
                &&& forall|j: int| 0 <= j < start ==> is_space(s@[j])
                &&& forall|j: int| end <= j < i ==> is_space(s@[j])
            },
    {
        if !space(c) {
            if end == 0 {
                start = i;
            }
            end = i + 1;
        }
        i = i + 1;
    }
    proof {
        lemma_trimmed_start(s@, start as int);
    }
    if end == 0 {
        proof {
            assert(trimmed(s@) =~= Seq::<char>::empty());
            assert(s@.subrange(0, 0) =~= Seq::<char>::empty());
        }
        s.substring_char(0, 0)
    } else {
        proof {
            lemma_trimmed_end(s@.skip(start as int), end - start);
            assert(s@.skip(start as int).take(end - start) =~= s@.subrange(
                start as int,
                end as int,
            ));
        }
        s.substring_char(start, end)
    }
}

// ---- lists ---------------------------------------------------------------

/// The texts between separators, empty ones included.
pub open spec fn fields(s: Seq<char>) -> Seq<Seq<char>>
    decreases s.len(),
{
    if s.len() == 0 {
        seq![Seq::<char>::empty()]
    } else {
        let f = fields(s.drop_last());
        if is_separator(s.last()) {
            f.push(Seq::empty())
        } else {
            f.drop_last().push(f.last().push(s.last()))
        }
    }
}

/// The texts of `l`, trimmed, without those that are then empty.
pub open spec fn non_blank(l: Seq<Seq<char>>) -> Seq<Seq<char>>
    decreases l.len(),
{
    if l.len() == 0 {
        seq![]
    } else {
        let k = non_blank(l.drop_last());
        let t = trimmed(l.last());
        if t.len() == 0 {
            k
        } else {
            k.push(t)
        }
    }
}

/// The items of a separated list.
pub open spec fn items(s: Seq<char>) -> Seq<Seq<char>> {
    non_blank(fields(s))
}

/// The texts of `l` with `sep` between neighbours.
pub open spec fn joined(l: Seq<Seq<char>>, sep: Seq<char>) -> Seq<char>
    decreases l.len(),
{
    if l.len() == 0 {
        seq![]
    } else if l.len() == 1 {
        l[0]
    } else {
        joined(l.drop_last(), sep) + sep + l.last()
    }
}

/// An item that a separated list can carry: not empty, with no separator in it
/// and no whitespace at either end.
pub open spec fn is_item(s: Seq<char>) -> bool {
    &&& s.len() > 0
    &&& !is_space(s[0])
    &&& !is_space(s.last())
    &&& forall|i: int| 0 <= i < s.len() ==> !is_separator(#[trigger] s[i])
}

/// There is always at least one field.
pub proof fn lemma_fields_non_empty(s: Seq<char>)
    ensures
        fields(s).len() > 0,
    decreases s.len(),
{
    if s.len() > 0 {
        lemma_fields_non_empty(s.drop_last());
    }
}

/// No field holds a separator.
proof fn lemma_fields_plain(s: Seq<char>)
    ensures
        forall|i: int, j: int|
            0 <= i < fields(s).len() && 0 <= j < fields(s)[i].len() ==> !is_separator(
                #[trigger] fields(s)[i][j],
            ),
    decreases s.len(),
{
    if s.len() > 0 {
        lemma_fields_plain(s.drop_last());
        lemma_fields_non_empty(s.drop_last());
        let f = fields(s.drop_last());
        assert forall|i: int, j: int|
            0 <= i < fields(s).len() && 0 <= j < fields(s)[i].len() implies !is_separator(
            #[trigger] fields(s)[i][j],
        ) by {
            if i < f.len() - 1 {
                assert(fields(s)[i] == f[i]);
                assert(!is_separator(f[i][j]));
            } else if is_separator(s.last()) {
                if i == f.len() - 1 {
                    assert(fields(s)[i] == f[i]);
                    assert(!is_separator(f[i][j]));
                }
            } else if j < f.last().len() {
                assert(!is_separator(f[f.len() - 1][j]));
            }
        }
    }
}

/// Every item of a list is one that a list can carry.
pub proof fn lemma_items_are_items(s: Seq<char>)
    ensures
        forall|i: int| 0 <= i < items(s).len() ==> is_item(#[trigger] items(s)[i]),
{
    lemma_fields_plain(s);
    lemma_non_blank_items(fields(s));
}

proof fn lemma_non_blank_items(l: Seq<Seq<char>>)
    requires
        forall|i: int, j: int|
            0 <= i < l.len() && 0 <= j < l[i].len() ==> !is_separator(#[trigger] l[i][j]),
    ensures
        forall|i: int| 0 <= i < non_blank(l).len() ==> is_item(#[trigger] non_blank(l)[i]),
    decreases l.len(),
{
    if l.len() > 0 {
        let d = l.drop_last();
        assert forall|i: int, j: int| 0 <= i < d.len() && 0 <= j < d[i].len() implies !is_separator(
            #[trigger] d[i][j],
        ) by {
            assert(d[i] == l[i]);
            assert(!is_separator(l[i][j]));
        }
        lemma_non_blank_items(d);
        let t = trimmed(l.last());
        lemma_trimmed(l.last());
        let (a, b) = choose|a: int, b: int|
            0 <= a <= b <= l.last().len() && t == #[trigger] l.last().subrange(a, b);
        assert forall|i: int| 0 <= i < t.len() implies !is_separator(#[trigger] t[i]) by {
            assert(t[i] == l[l.len() - 1][a + i]);
        }
        assert forall|i: int| 0 <= i < non_blank(l).len() implies is_item(
            #[trigger] non_blank(l)[i],
        ) by {
            if i < non_blank(d).len() {
                assert(non_blank(l)[i] == non_blank(d)[i]);
            } else {
                assert(non_blank(l)[i] == t);
            }
        }
    }
}

/// Items that a list can carry survive trimming and filtering unchanged.
proof fn lemma_non_blank_fixed(l: Seq<Seq<char>>)
    requires
        forall|i: int| 0 <= i < l.len() ==> is_item(#[trigger] l[i]),
    ensures
        non_blank(l) == l,
    decreases l.len(),
{
    if l.len() > 0 {
        assert(is_item(l[l.len() - 1]));
        lemma_trimmed_fixed(l.last());
        assert forall|i: int| 0 <= i < l.drop_last().len() implies is_item(
            #[trigger] l.drop_last()[i],
        ) by {
            assert(is_item(l[i]));
        }
        lemma_non_blank_fixed(l.drop_last());
        assert(l.drop_last().push(l.last()) =~= l);
    }
}

/// A separator and a separator-free text add one field.
proof fn lemma_fields_append(a: Seq<char>, b: Seq<char>)
    requires
        forall|i: int| 0 <= i < b.len() ==> !is_separator(#[trigger] b[i]),
    ensures
        fields(a.push(',') + b) == fields(a).push(b),
    decreases b.len(),
{
    let s = a.push(',') + b;
    if b.len() == 0 {
        assert(s =~= a.push(','));
        assert(s.drop_last() =~= a);
        assert(b =~= Seq::<char>::empty());
    } else {
        let c = b.drop_last();
        assert forall|i: int| 0 <= i < c.len() implies !is_separator(#[trigger] c[i]) by {
            assert(!is_separator(b[i]));
        }
        lemma_fields_append(a, c);
        assert(s.drop_last() =~= a.push(',') + c);
        assert(!is_separator(b[b.len() - 1]));
        assert(s.last() == b.last());
        assert(c.push(b.last()) =~= b);
        let f = fields(a.push(',') + c);
        assert(f == fields(a).push(c));
        assert(f.drop_last() =~= fields(a));
    }
}

proof fn lemma_fields_of_one(b: Seq<char>)
    requires
        forall|i: int| 0 <= i < b.len() ==> !is_separator(#[trigger] b[i]),
    ensures
        fields(b) == seq![b],
    decreases b.len(),
{
    if b.len() == 0 {
        assert(b =~= Seq::<char>::empty());
    } else {
        let c = b.drop_last();
        assert forall|i: int| 0 <= i < c.len() implies !is_separator(#[trigger] c[i]) by {
            assert(!is_separator(b[i]));
        }
        lemma_fields_of_one(c);
        assert(!is_separator(b[b.len() - 1]));
        assert(c.push(b.last()) =~= b);
        assert(seq![c].drop_last().push(b) =~= seq![b]);
    }
}

proof fn lemma_fields_joined(l: Seq<Seq<char>>)
    requires
        l.len() > 0,
        forall|i: int| 0 <= i < l.len() ==> is_item(#[trigger] l[i]),
    ensures
        fields(joined(l, seq![','])) == l,
    decreases l.len(),
{
    assert(is_item(l[l.len() - 1]));
    if l.len() == 1 {
        lemma_fields_of_one(l[0]);
        assert(seq![l[0]] =~= l);
    } else {
        let d = l.drop_last();
        assert forall|i: int| 0 <= i < d.len() implies is_item(#[trigger] d[i]) by {
            assert(is_item(l[i]));
        }
        lemma_fields_joined(d);
        let a = joined(d, seq![',']);
        assert(a + seq![','] =~= a.push(','));
        lemma_fields_append(a, l.last());
        assert(d.push(l.last()) =~= l);
    }
}

/// Items that a list can carry, joined by commas, read back as they were.
pub proof fn lemma_items_joined(l: Seq<Seq<char>>)
    requires
        l.len() > 0,
        forall|i: int| 0 <= i < l.len() ==> is_item(#[trigger] l[i]),
    ensures
        items(joined(l, seq![','])) == l,
{
    lemma_fields_joined(l);
    lemma_non_blank_fixed(l);
}

fn separator(c: char) -> (r: bool)
    ensures
        r == is_separator(c),
{
    c == ',' || space(c)
}

/// Appends the trim of `field` to `out`, unless it is empty.
fn keep_non_blank(out: &mut Vec<String>, field: &str)
    ensures
        final(out).deep_view() == (if trimmed(field@).len() == 0 {
            old(out).deep_view()
        } else {
            old(out).deep_view().push(trimmed(field@))
        }),
{
    let t = trim(field);
    if !t.is_empty() {
        out.push(t.to_string());
        assert(out.deep_view() =~= old(out).deep_view().push(trimmed(field@)));
    }
}

/// The items of a separated list.
pub fn split_items(s: &str) -> (r: Vec<String>)
    ensures
        r.deep_view() == items(s@),
{
    let mut out: Vec<String> = Vec::new();
    let mut cur = String::new();
    proof {
        assert(s@.take(0) =~= Seq::<char>::empty());
        assert(fields(s@.take(0)).drop_last() =~= Seq::<Seq<char>>::empty());
        assert(out.deep_view() =~= Seq::<Seq<char>>::empty());
    }
    for c in it: s.chars()
        invariant
            it.seq() == s@,
            fields(s@.take(it.index())).len() > 0,
            out.deep_view() == non_blank(fields(s@.take(it.index())).drop_last()),
            cur@ == fields(s@.take(it.index())).last(),
    {
        let ghost t = s@.take(it.index() + 1);
        let ghost f = fields(s@.take(it.index()));
        proof {
            assert(t.drop_last() =~= s@.take(it.index()));
            assert(t.last() == c);
        }
        if separator(c) {
            keep_non_blank(&mut out, cur.as_str());
            cur = String::new();
            assert(fields(t).drop_last() =~= f);
        } else {
            cur.push(c);
            assert(fields(t).drop_last() =~= f.drop_last());
        }
    }
    assert(s@.take(s@.len() as int) =~= s@);
    keep_non_blank(&mut out, cur.as_str());
    out
}

/// The texts of `l` with `sep` between neighbours.
pub fn join(l: &Vec<String>, sep: &str) -> (r: String)
    ensures
        r@ == joined(l.deep_view(), sep@),
{
    let mut r = String::new();
    let mut i: usize = 0;
    assert(l.deep_view().take(0) =~= Seq::<Seq<char>>::empty());
    while i < l.len()
        invariant
            i <= l.len(),
            r@ == joined(l.deep_view().take(i as int), sep@),
        decreases l.len() - i,
    {
        proof {
            assert(l.deep_view().take(i + 1).drop_last() =~= l.deep_view().take(i as int));
        }
        if i > 0 {
            r.append(sep);
        }
        r.append(l[i].as_str());
        i = i + 1;
    }
    assert(l.deep_view().take(l.len() as int) =~= l.deep_view());
    r
}

/// A list of texts with another behind it.
pub fn extend_texts(l: Vec<String>, more: &Vec<String>) -> (r: Vec<String>)
    ensures
        r.deep_view() == l.deep_view() + more.deep_view(),
{
    let mut r = l;
    let mut i: usize = 0;
    while i < more.len()
        invariant
            i <= more.len(),
            r@ == l@ + more@.take(i as int),
        decreases more.len() - i,
    {
        r.push(more[i].clone());
        assert(r@ =~= l@ + more@.take(i + 1));
        i = i + 1;
    }
    assert(r@ =~= l@ + more@);
    assert(r.deep_view() =~= l.deep_view() + more.deep_view());
    r
}

/// A copy of a list of texts.
pub fn clone_texts(l: &Vec<String>) -> (r: Vec<String>)
    ensures
        r.deep_view() == l.deep_view(),
{
    let r = extend_texts(Vec::new(), l);
    assert(r.deep_view() =~= l.deep_view());
    r
}

/// `s` with every `from` replaced by `to`.
pub open spec fn replaced(s: Seq<char>, from: char, to: char) -> Seq<char> {
    s.map_values(
        |c: char|
            if c == from {
                to
            } else {
                c
            },
    )
}

/// `s` with every `from` replaced by `to`.
pub fn replace_char(s: &str, from: char, to: char) -> (r: String)
    ensures
        r@ == replaced(s@, from, to),
{
    let mut r = String::new();
    for c in it: s.chars()
        invariant
            it.seq() == s@,
            r@ == replaced(s@.take(it.index()), from, to),
    {
        if c == from {
            r.push(to);
        } else {
            r.push(c);
        }
        assert(s@.take(it.index() + 1) == s@.take(it.index()).push(c));
    }
    assert(s@.take(s@.len() as int) == s@);
    r
}

// ---- numbers -------------------------------------------------------------

/// `n` in decimal notation.
pub open spec fn decimal(n: nat) -> Seq<char>
    decreases n,
{
    let digit = (48 + n % 10) as char;
    if n < 10 {
        seq![digit]
    } else {
        decimal(n / 10).push(digit)
    }
}

/// `n` in decimal notation.
pub fn to_decimal(n: u64) -> (r: String)
    ensures
        r@ == decimal(n as nat),
    decreases n,
{
    let mut r = if n < 10 {
        String::new()
    } else {
        to_decimal(n / 10)
    };
    let d: u8 = (n % 10) as u8;
    r.push((48 + d) as char);
    r
}

// ---- laws ----------------------------------------------------------------

/// Upper-case ASCII letters move to their lower case, 32 places on; nothing else
/// moves, and no character is added or lost.
pub proof fn law_lowered(s: Seq<char>)
    ensures
        lowered(s).len() == s.len(),
        forall|i: int|
            0 <= i < s.len() && 65 <= #[trigger] s[i] as int <= 90 ==> lowered(s)[i] as int
                == s[i] as int + 32,
        forall|i: int|
            0 <= i < s.len() && !(65 <= #[trigger] s[i] as int <= 90) ==> lowered(s)[i] == s[i],
{
}

/// White space is what Unicode calls so, by number.
pub proof fn law_spaces(c: char)
    ensures
        is_space(c) <==> (9 <= c as int <= 13 || c as int == 32 || c as int == 133 || c as int == 160
            || c as int == 5760 || 8192 <= c as int <= 8202 || c as int == 8232 || c as int == 8233
            || c as int == 8239 || c as int == 8287 || c as int == 12288),
{
}

/// A trim takes away white space at both ends and nothing else: the text is
/// white space, the trim, and white space.
pub proof fn law_trimmed(s: Seq<char>)
    ensures
        exists|a: int, b: int|
            0 <= a <= b <= s.len() && trimmed(s) == #[trigger] s.subrange(a, b) && (forall|j: int|
                0 <= j < a ==> is_space(#[trigger] s[j])) && (forall|j: int|
                b <= j < s.len() ==> is_space(#[trigger] s[j])),
        trimmed(s).len() > 0 ==> !is_space(trimmed(s)[0]) && !is_space(trimmed(s).last()),
{
    let t = trimmed_start(s);
    lemma_trimmed_start_piece(s);
    lemma_trimmed_end_piece(t);
    lemma_cut_start_is_space(s);
    lemma_cut_end_is_space(t);
    let a = s.len() - t.len();
    let b = a + trimmed(s).len();
    assert(trimmed(s) =~= s.subrange(a, b));
    assert forall|j: int| b <= j < s.len() implies is_space(#[trigger] s[j]) by {
        assert(s[j] == t[j - a]);
    }
}

proof fn lemma_cut_start_is_space(s: Seq<char>)
    ensures
        forall|j: int| 0 <= j < s.len() - trimmed_start(s).len() ==> is_space(#[trigger] s[j]),
    decreases s.len(),
{
    if s.len() > 0 && is_space(s[0]) {
        lemma_cut_start_is_space(s.drop_first());
        assert forall|j: int| 0 <= j < s.len() - trimmed_start(s).len() implies is_space(
            #[trigger] s[j],
        ) by {
            if j > 0 {
                assert(s[j] == s.drop_first()[j - 1]);
            }
        }
    }
}

proof fn lemma_cut_end_is_space(s: Seq<char>)
    ensures
        forall|j: int| trimmed_end(s).len() <= j < s.len() ==> is_space(#[trigger] s[j]),
    decreases s.len(),
{
    if s.len() > 0 && is_space(s.last()) {
        lemma_cut_end_is_space(s.drop_last());
        assert forall|j: int| trimmed_end(s).len() <= j < s.len() implies is_space(
            #[trigger] s[j],
        ) by {
            if j < s.len() - 1 {
                assert(s[j] == s.drop_last()[j]);
            }
        }
    }
}

proof fn lemma_fields_split(a: Seq<char>, c: char, b: Seq<char>)
    requires
        is_separator(c),
    ensures
        fields(a.push(c) + b) == fields(a) + fields(b),
    decreases b.len(),
{
    lemma_fields_non_empty(a);
    lemma_fields_non_empty(b);
    let whole = a.push(c) + b;
    if b.len() == 0 {
        assert(whole =~= a.push(c));
        assert(a.push(c).drop_last() =~= a);
        assert(fields(whole) =~= fields(a) + fields(b));
    } else {
        let d = b.drop_last();
        lemma_fields_split(a, c, d);
        lemma_fields_non_empty(d);
        assert(whole.drop_last() =~= a.push(c) + d);
        assert(whole.last() == b.last());
        let f = fields(a) + fields(d);
        if is_separator(b.last()) {
            assert(f.push(Seq::empty()) =~= fields(a) + fields(b));
        } else {
            assert(f.last() == fields(d).last());
            assert(f.drop_last() =~= fields(a) + fields(d).drop_last());
            assert(f.drop_last().push(f.last().push(b.last())) =~= fields(a) + fields(b));
        }
    }
}

proof fn lemma_non_blank_split(a: Seq<Seq<char>>, b: Seq<Seq<char>>)
    ensures
        non_blank(a + b) == non_blank(a) + non_blank(b),
    decreases b.len(),
{
    if b.len() == 0 {
        assert(a + b =~= a);
        assert(non_blank(a) + non_blank(b) =~= non_blank(a));
    } else {
        lemma_non_blank_split(a, b.drop_last());
        assert((a + b).drop_last() =~= a + b.drop_last());
        assert((a + b).last() == b.last());
        assert(non_blank(a + b) =~= non_blank(a) + non_blank(b));
    }
}

/// A comma or any white-space character parts a list: what comes before it and
/// what comes after it are listed one behind the other. A text without either is
/// one item, as it stands, and the empty text is none.
pub proof fn law_items(a: Seq<char>, c: char, b: Seq<char>, x: Seq<char>)
    requires
        c == ',' || is_space(c),
        x.len() > 0,
        forall|i: int| 0 <= i < x.len() ==> #[trigger] x[i] != ',' && !is_space(x[i]),
    ensures
        items(a.push(c) + b) == items(a) + items(b),
        items(x) == seq![x],
        items(Seq::<char>::empty()) == Seq::<Seq<char>>::empty(),
{
    lemma_fields_split(a, c, b);
    lemma_non_blank_split(fields(a), fields(b));
    assert forall|i: int| 0 <= i < x.len() implies !is_separator(#[trigger] x[i]) by {
        assert(x[i] != ',');
    }
    assert(x[0] != ',');
    assert(x[x.len() - 1] != ',');
    lemma_fields_of_one(x);
    lemma_trimmed_fixed(x);
    assert(seq![x].drop_last() =~= Seq::<Seq<char>>::empty());
    assert(non_blank(seq![x].drop_last()) =~= Seq::<Seq<char>>::empty());
    assert(items(x) =~= seq![x]);
    let none = Seq::<char>::empty();
    assert(fields(none) =~= seq![none]);
    assert(seq![none].drop_last() =~= Seq::<Seq<char>>::empty());
    assert(trimmed(none).len() == 0);
}

/// Joining puts the separator between neighbours and nowhere else.
pub proof fn law_joined(l: Seq<Seq<char>>, sep: Seq<char>, x: Seq<char>)
    ensures
        joined(Seq::<Seq<char>>::empty(), sep) == Seq::<char>::empty(),
        joined(seq![x], sep) == x,
        l.len() > 0 ==> joined(l.push(x), sep) == joined(l, sep) + sep + x,
{
    assert(l.push(x).drop_last() =~= l);
}

/// The number that decimal digits stand for.
pub open spec fn number(s: Seq<char>) -> int
    decreases s.len(),
{
    if s.len() == 0 {
        0
    } else {
        10 * number(s.drop_last()) + (s.last() as int - 48)
    }
}

/// A number in decimal notation is made of digits, stands for the number, and
/// has no leading zero but for zero itself.
pub proof fn law_decimal(n: nat)
    ensures
        number(decimal(n)) == n,
        decimal(n).len() > 0,
        forall|i: int| 0 <= i < decimal(n).len() ==> 48 <= #[trigger] decimal(n)[i] as int <= 57,
        n > 0 ==> decimal(n)[0] as int != 48,
    decreases n,
{
    let digit = (48 + n % 10) as char;
    assert(48 <= 48 + n % 10 <= 57);
    if n < 10 {
        assert(seq![digit].drop_last() =~= Seq::<char>::empty());
        assert(number(seq![digit].drop_last()) == 0);
    } else {
        law_decimal(n / 10);
        assert(decimal(n).drop_last() =~= decimal(n / 10));
        assert(decimal(n)[0] == decimal(n / 10)[0]);
        assert forall|i: int| 0 <= i < decimal(n).len() implies 48 <= #[trigger] decimal(
            n,
        )[i] as int <= 57 by {
            if i < decimal(n / 10).len() {
                assert(decimal(n)[i] == decimal(n / 10)[i]);
            }
        }
    }
}

/// The number that a hexadecimal digit in lower case stands for.
pub open spec fn hex_value(c: char) -> int {
    if 48 <= c as int <= 57 {
        c as int - 48
    } else {
        c as int - 87
    }
}

/// Replacing goes character by character.
pub proof fn law_replaced(s: Seq<char>, from: char, to: char)
    ensures
        replaced(s, from, to).len() == s.len(),
        forall|i: int|
            0 <= i < s.len() && #[trigger] s[i] == from ==> replaced(s, from, to)[i] == to,
        forall|i: int|
            0 <= i < s.len() && #[trigger] s[i] != from ==> replaced(s, from, to)[i] == s[i],
{
}

/// What the operations on texts come to.
pub proof fn law_text_operations(
    s: &str,
    t: &str,
    a: char,
    b: char,
    n: u64,
    yes: bool,
    out: String,
    piece: &str,
    l: Vec<String>,
)
    ensures
        call_ensures(same, (s, t), yes) ==> yes == (s@ == t@),
        call_ensures(same_ignoring_case, (s, t), yes) ==> yes == (lowered(s@) == lowered(t@)),
        call_ensures(has_char, (s, a), yes) ==> yes == s@.contains(a),
        call_ensures(starts_with, (s, t), yes) ==> yes == t@.is_prefix_of(s@),
        call_ensures(to_lower, (s,), out) ==> out@ == lowered(s@),
        call_ensures(trim, (s,), piece) ==> piece@ == trimmed(s@),
        call_ensures(split_items, (s,), l) ==> l.deep_view() == items(s@),
        call_ensures(replace_char, (s, a, b), out) ==> out@ == replaced(s@, a, b),
        call_ensures(to_decimal, (n,), out) ==> out@ == decimal(n as nat),
{
}

} // verus!
