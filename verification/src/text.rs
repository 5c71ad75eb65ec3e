//! Character-level string helpers shared by the command renderers.
use vstd::prelude::*;
use vstd::string::*;
use vstd::utf8::*;

verus! {

broadcast use encode_utf8_decode_utf8;

// ---------------------------------------------------------------------------
// Specifications
// ---------------------------------------------------------------------------

/// `s` without its leading characters that satisfy `p`.
pub open spec fn drop_leading(s: Seq<char>, p: spec_fn(char) -> bool) -> Seq<char>
    decreases s.len(),
{
    if s.len() > 0 && p(s[0]) {
        drop_leading(s.drop_first(), p)
    } else {
        s
    }
}

/// `s` without its trailing characters that satisfy `p`.
pub open spec fn drop_trailing(s: Seq<char>, p: spec_fn(char) -> bool) -> Seq<char>
    decreases s.len(),
{
    if s.len() > 0 && p(s.last()) {
        drop_trailing(s.drop_last(), p)
    } else {
        s
    }
}

/// The predicate "is an `@` sign".
pub open spec fn at_sign() -> spec_fn(char) -> bool {
    |c: char| c == '@'
}

/// `s` with every leading `@` removed (`str::trim_start_matches('@')`).
pub open spec fn strip_ats(s: Seq<char>) -> Seq<char> {
    drop_leading(s, at_sign())
}

/// Unicode `White_Space`, the set that `char::is_whitespace` and `str::trim` use.
pub open spec fn is_white_space(c: char) -> bool {
    ||| ('\u{9}' <= c && c <= '\u{d}')
    ||| c == ' '
    ||| c == '\u{85}'
    ||| c == '\u{a0}'
    ||| c == '\u{1680}'
    ||| ('\u{2000}' <= c && c <= '\u{200a}')
    ||| c == '\u{2028}'
    ||| c == '\u{2029}'
    ||| c == '\u{202f}'
    ||| c == '\u{205f}'
    ||| c == '\u{3000}'
}

/// The predicate "is white space".
pub open spec fn white_space() -> spec_fn(char) -> bool {
    |c: char| is_white_space(c)
}

/// `s` with leading and trailing white space removed (`str::trim`).
pub open spec fn trimmed(s: Seq<char>) -> Seq<char> {
    drop_trailing(drop_leading(s, white_space()), white_space())
}

/// The pieces found so far, and the piece being read, after a left-to-right
/// scan of `s` that cuts at every `sep`.
pub open spec fn split_scan(s: Seq<char>, sep: char) -> (Seq<Seq<char>>, Seq<char>)
    decreases s.len(),
{
    if s.len() == 0 {
        (Seq::empty(), Seq::empty())
    } else {
        let (done, cur) = split_scan(s.drop_last(), sep);
        if s.last() == sep {
            (done.push(cur), Seq::empty())
        } else {
            (done, cur.push(s.last()))
        }
    }
}

/// `s` cut at every `sep` (`str::split(sep)`): always at least one piece.
pub open spec fn split_on(s: Seq<char>, sep: char) -> Seq<Seq<char>> {
    let (done, cur) = split_scan(s, sep);
    done.push(cur)
}

/// Number of bytes in the UTF-8 encoding of `s` (`str::len`).
pub open spec fn byte_len(s: Seq<char>) -> nat {
    encode_utf8(s).len()
}

/// The three dots that mark a shortened text.
pub open spec fn ellipsis() -> Seq<char> {
    seq!['.', '.', '.']
}

/// `s` cut to its first `max_len - 3` bytes followed by `...` when its
/// encoding is longer than `max_len` bytes, else `s` itself.
pub open spec fn truncated(s: Seq<char>, max_len: nat) -> Seq<char> {
    if byte_len(s) <= max_len {
        s
    } else {
        decode_utf8(encode_utf8(s).subrange(0, max_len - 3)) + ellipsis()
    }
}

/// The characters of the first `n` bytes of `s`.
pub open spec fn byte_prefix(s: Seq<char>, n: nat) -> Seq<char> {
    decode_utf8(encode_utf8(s).subrange(0, n as int))
}

/// What `truncate` needs of its input: when the text is cut, the cut falls on
/// a character boundary, after at least the room for the dots.
pub open spec fn can_truncate(s: Seq<char>, max_len: nat) -> bool {
    byte_len(s) > max_len ==> (max_len >= 3 && is_char_boundary(encode_utf8(s), max_len - 3))
}

/// `needle` occurs in `hay` as a contiguous run.
pub open spec fn occurs_in(hay: Seq<char>, needle: Seq<char>) -> bool {
    exists|i: int| 0 <= i <= hay.len() - needle.len() && #[trigger] hay.subrange(i, i + needle.len()) == needle
}

/// `s` with every `from` replaced by `to`.
pub open spec fn replace_char(s: Seq<char>, from: char, to: char) -> Seq<char> {
    s.map_values(|c: char| if c == from { to } else { c })
}

/// The decimal digit for `d < 10`.
pub open spec fn digit_char(d: nat) -> char {
    if d == 0 { '0' }
    else if d == 1 { '1' }
    else if d == 2 { '2' }
    else if d == 3 { '3' }
    else if d == 4 { '4' }
    else if d == 5 { '5' }
    else if d == 6 { '6' }
    else if d == 7 { '7' }
    else if d == 8 { '8' }
    else { '9' }
}

/// Decimal notation of a natural number, without leading zeros.
pub open spec fn decimal(n: nat) -> Seq<char>
    decreases n,
{
    if n < 10 {
        seq![digit_char(n)]
    } else {
        decimal(n / 10).push(digit_char(n % 10))
    }
}

/// Decimal notation of an integer, with a leading `-` when negative.
pub open spec fn signed_decimal(n: int) -> Seq<char> {
    if n < 0 {
        seq!['-'] + decimal((-n) as nat)
    } else {
        decimal(n as nat)
    }
}

/// `n` copies of `c`.
pub open spec fn repeated(c: char, n: nat) -> Seq<char> {
    Seq::new(n, |i: int| c)
}

/// `s` padded with spaces on the right to `width` characters (`{:<width}`).
pub open spec fn padded_right(s: Seq<char>, width: nat) -> Seq<char> {
    if s.len() < width { s + repeated(' ', (width - s.len()) as nat) } else { s }
}

/// `s` padded with spaces on the left to `width` characters (`{:>width}`).
pub open spec fn padded_left(s: Seq<char>, width: nat) -> Seq<char> {
    if s.len() < width { repeated(' ', (width - s.len()) as nat) + s } else { s }
}

/// A table cell: its text, the width it is padded to, and its alignment.
pub struct Cell {
    pub text: String,
    pub width: usize,
    pub right: bool,
}

/// A cell as text, width and alignment (`true` for right-aligned).
pub open spec fn cell_view(c: Cell) -> (Seq<char>, nat, bool) {
    (c.text@, c.width as nat, c.right)
}

/// The text of a padded cell.
pub open spec fn cell_text(c: (Seq<char>, nat, bool)) -> Seq<char> {
    if c.2 { padded_left(c.0, c.1) } else { padded_right(c.0, c.1) }
}

/// A table row: its cells, padded, separated by single spaces.
pub open spec fn row_text(cells: Seq<(Seq<char>, nat, bool)>) -> Seq<char> {
    joined(cells.map_values(|c: (Seq<char>, nat, bool)| cell_text(c)), " "@)
}

/// The cells of a row as text, width and alignment.
pub open spec fn cell_views(cells: Seq<Cell>) -> Seq<(Seq<char>, nat, bool)> {
    cells.map_values(|c: Cell| cell_view(c))
}

/// The texts of a list of strings.
pub open spec fn texts(v: Seq<String>) -> Seq<Seq<char>> {
    v.map_values(|s: String| s@)
}

/// `parts` joined with `sep` between neighbours (`[String]::join`).
pub open spec fn joined(parts: Seq<Seq<char>>, sep: Seq<char>) -> Seq<char>
    decreases parts.len(),
{
    if parts.len() == 0 {
        Seq::empty()
    } else if parts.len() == 1 {
        parts[0]
    } else {
        joined(parts.drop_last(), sep) + sep + parts.last()
    }
}

// ---------------------------------------------------------------------------
// Lemmas
// ---------------------------------------------------------------------------

/// Dropping the leading run that satisfies `p` leaves the suffix from the
/// first index that does not.
pub proof fn lemma_drop_leading(s: Seq<char>, p: spec_fn(char) -> bool, k: int)
    requires
        0 <= k <= s.len(),
        forall|j: int| 0 <= j < k ==> p(#[trigger] s[j]),
        k == s.len() || !p(s[k]),
    ensures
        drop_leading(s, p) == s.subrange(k, s.len() as int),
    decreases k,
{
    if k == 0 {
        assert(s.subrange(0, s.len() as int) =~= s);
    } else {
        let t = s.drop_first();
        assert forall|j: int| 0 <= j < k - 1 implies p(#[trigger] t[j]) by {
            assert(t[j] == s[j + 1]);
        }
        lemma_drop_leading(t, p, k - 1);
        assert(t.subrange(k - 1, t.len() as int) =~= s.subrange(k, s.len() as int));
    }
}

/// Dropping the trailing run that satisfies `p` leaves the prefix up to the
/// last index that does not.
pub proof fn lemma_drop_trailing(s: Seq<char>, p: spec_fn(char) -> bool, k: int)
    requires
        0 <= k <= s.len(),
        forall|j: int| k <= j < s.len() ==> p(#[trigger] s[j]),
        k == 0 || !p(s[k - 1]),
    ensures
        drop_trailing(s, p) == s.subrange(0, k),
    decreases s.len() - k,
{
    if k == s.len() {
        assert(s.subrange(0, k) =~= s);
    } else {
        let t = s.drop_last();
        assert(p(s[s.len() - 1]));
        assert forall|j: int| k <= j < t.len() implies p(#[trigger] t[j]) by {
            assert(t[j] == s[j]);
        }
        lemma_drop_trailing(t, p, k);
        assert(t.subrange(0, k) =~= s.subrange(0, k));
    }
}

// ---------------------------------------------------------------------------
// Laws
// ---------------------------------------------------------------------------

/// After dropping its leading run, a text does not start with the predicate.
pub proof fn lemma_drop_leading_first(s: Seq<char>, p: spec_fn(char) -> bool)
    ensures
        drop_leading(s, p).len() == 0 || !p(drop_leading(s, p)[0]),
    decreases s.len(),
{
    if s.len() > 0 && p(s[0]) {
        lemma_drop_leading_first(s.drop_first(), p);
    }
}

/// Dropping a trailing run leaves a prefix whose last character does not
/// satisfy the predicate.
pub proof fn lemma_drop_trailing_prefix(s: Seq<char>, p: spec_fn(char) -> bool) -> (k: int)
    ensures
        0 <= k <= s.len(),
        drop_trailing(s, p) == s.subrange(0, k),
        k == 0 || !p(s[k - 1]),
    decreases s.len(),
{
    if s.len() > 0 && p(s.last()) {
        let k = lemma_drop_trailing_prefix(s.drop_last(), p);
        assert(s.drop_last().subrange(0, k) =~= s.subrange(0, k));
        k
    } else {
        assert(s.subrange(0, s.len() as int) =~= s);
        s.len() as int
    }
}

/// Removing the leading `@` signs twice removes nothing more, and what is
/// left does not start with `@`.
pub proof fn law_strip_ats_idempotent(s: Seq<char>)
    ensures
        strip_ats(strip_ats(s)) == strip_ats(s),
        strip_ats(s).len() == 0 || strip_ats(s)[0] != '@',
{
    let t = strip_ats(s);
    lemma_drop_leading_first(s, at_sign());
    lemma_drop_leading(t, at_sign(), 0);
    assert(t.subrange(0, t.len() as int) =~= t);
}

/// A trimmed text neither starts nor ends with white space, so trimming it
/// again changes nothing.
pub proof fn law_trim_idempotent(s: Seq<char>)
    ensures
        trimmed(s).len() == 0 || (!is_white_space(trimmed(s)[0]) && !is_white_space(trimmed(s).last())),
        trimmed(trimmed(s)) == trimmed(s),
{
    let a = drop_leading(s, white_space());
    lemma_drop_leading_first(s, white_space());
    let k = lemma_drop_trailing_prefix(a, white_space());
    let t = trimmed(s);
    assert(t == a.subrange(0, k));
    if t.len() > 0 {
        assert(t[0] == a[0]);
        assert(t.last() == a[k - 1]);
    }
    lemma_drop_leading(t, white_space(), 0);
    assert(t.subrange(0, t.len() as int) =~= t);
    lemma_drop_trailing(t, white_space(), t.len() as int);
}

/// Joining the pieces of a split with the separator gives back the text.
pub proof fn law_split_then_join(s: Seq<char>, sep: char)
    ensures
        joined(split_on(s, sep), seq![sep]) == s,
    decreases s.len(),
{
    if s.len() == 0 {
        assert(split_on(s, sep) =~= seq![Seq::<char>::empty()]);
    } else {
        let t = s.drop_last();
        law_split_then_join(t, sep);
        let (d, c) = split_scan(t, sep);
        if s.last() == sep {
            assert(split_on(s, sep) == d.push(c).push(Seq::empty()));
            assert(d.push(c).push(Seq::<char>::empty()).drop_last() =~= d.push(c));
            assert(s =~= t + seq![sep] + Seq::<char>::empty());
        } else {
            assert(split_on(s, sep) == d.push(c.push(s.last())));
            if d.len() == 0 {
                assert(d.push(c) =~= seq![c]);
                assert(d.push(c.push(s.last())) =~= seq![c.push(s.last())]);
                assert(s =~= t.push(s.last()));
            } else {
                assert(d.push(c).drop_last() =~= d);
                assert(d.push(c.push(s.last())).drop_last() =~= d);
                assert(joined(d.push(c), seq![sep]) == joined(d, seq![sep]) + seq![sep] + c);
                assert(t == joined(d, seq![sep]) + seq![sep] + c);
                assert(s =~= t.push(s.last()));
                assert(s =~= joined(d, seq![sep]) + seq![sep] + c.push(s.last()));
            }
        }
    }
}

/// Encoding a concatenation encodes each part in turn.
pub proof fn lemma_encode_concat(a: Seq<char>, b: Seq<char>)
    ensures
        encode_utf8(a + b) == encode_utf8(a) + encode_utf8(b),
    decreases a.len(),
{
    if a.len() > 0 {
        lemma_encode_concat(a.drop_first(), b);
        assert((a + b).drop_first() =~= a.drop_first() + b);
        assert((a + b)[0] == a[0]);
        assert(encode_utf8(a + b) =~= encode_scalar(a[0] as u32) + encode_utf8(a.drop_first() + b));
    } else {
        assert(a + b =~= b);
    }
}

/// A shortened text fits in the byte budget it was cut for; a text that
/// already fits is kept as it is.
pub proof fn law_truncated_fits(s: Seq<char>, max_len: nat)
    requires
        can_truncate(s, max_len),
    ensures
        byte_len(truncated(s, max_len)) <= max_len,
        byte_len(s) <= max_len ==> truncated(s, max_len) == s,
{
    if byte_len(s) > max_len {
        let bytes = encode_utf8(s);
        let k = max_len - 3;
        encode_utf8_valid_utf8(s);
        valid_utf8_split(bytes, k);
        let sub = bytes.subrange(0, k);
        decode_utf8_encode_utf8(sub);
        let p = decode_utf8(sub);
        lemma_encode_concat(p, ellipsis());
        assert(ellipsis().drop_first().drop_first().drop_first() =~= Seq::<char>::empty());
        assert(encode_utf8(ellipsis()).len() == 3) by {
            reveal_with_fuel(encode_utf8, 4);
        }
    }
}

/// Decimal notation uses one digit per power of ten.
pub proof fn law_decimal_digits(n: nat)
    ensures
        decimal(n).len() >= 1,
        forall|i: int| 0 <= i < decimal(n).len() ==> '0' <= #[trigger] decimal(n)[i] <= '9',
    decreases n,
{
    if n >= 10 {
        law_decimal_digits(n / 10);
    }
}

/// Every text occurs in itself.
pub proof fn lemma_occurs_in_self(s: Seq<char>)
    ensures
        occurs_in(s, s),
{
    assert(s.subrange(0, 0 + s.len() as int) =~= s);
}

/// What occurs in `b` occurs in `a + b + c`.
pub proof fn lemma_occurs_in_middle(a: Seq<char>, b: Seq<char>, c: Seq<char>, needle: Seq<char>)
    requires
        occurs_in(b, needle),
    ensures
        occurs_in(a + b + c, needle),
{
    let i = choose|i: int| 0 <= i <= b.len() - needle.len() && #[trigger] b.subrange(i, i + needle.len()) == needle;
    let j = a.len() + i;
    assert((a + b + c).subrange(j, j + needle.len()) =~= b.subrange(i, i + needle.len()));
}

/// What occurs in `a` occurs in `a + b`.
pub proof fn lemma_occurs_in_prefix(a: Seq<char>, b: Seq<char>, needle: Seq<char>)
    requires
        occurs_in(a, needle),
    ensures
        occurs_in(a + b, needle),
{
    let e = Seq::<char>::empty();
    lemma_occurs_in_middle(e, a, b, needle);
    assert(e + a + b =~= a + b);
}

/// What occurs in one of the parts occurs in the parts joined.
pub proof fn lemma_occurs_in_joined(parts: Seq<Seq<char>>, sep: Seq<char>, k: int, needle: Seq<char>)
    requires
        0 <= k < parts.len(),
        occurs_in(parts[k], needle),
    ensures
        occurs_in(joined(parts, sep), needle),
    decreases parts.len(),
{
    if parts.len() == 1 {
    } else if k == parts.len() - 1 {
        let e = Seq::<char>::empty();
        lemma_occurs_in_middle(joined(parts.drop_last(), sep) + sep, parts.last(), e, needle);
        assert(joined(parts.drop_last(), sep) + sep + parts.last() + e =~= joined(parts, sep));
    } else {
        lemma_occurs_in_joined(parts.drop_last(), sep, k, needle);
        let e = Seq::<char>::empty();
        lemma_occurs_in_middle(e, joined(parts.drop_last(), sep), sep + parts.last(), needle);
        assert(e + joined(parts.drop_last(), sep) + (sep + parts.last()) =~= joined(parts, sep));
    }
}

// ---------------------------------------------------------------------------
// Building strings
// ---------------------------------------------------------------------------

/// Appends one character to a `String` (`String::push`).
#[verifier::external_body]
pub fn push_char(s: &mut String, c: char)
    ensures
        final(s)@ == old(s)@.push(c),
{
    s.push(c);
}

/// A fresh `String` holding the characters of `s`.
pub fn owned(s: &str) -> (res: String)
    ensures
        res@ == s@,
{
    let mut r = String::new();
    r.append(s);
    r
}

/// The characters of `s`, in order.
pub fn chars_of(s: &str) -> (v: Vec<char>)
    ensures
        v@ == s@,
{
    let mut v: Vec<char> = Vec::new();
    for c in it: s.chars()
        invariant
            v@ == it.seq().take(it.index() as int),
            it.seq() == s@,
    {
        v.push(c);
    }
    v
}

/// A `String` holding `v[from..to]`.
pub fn string_of_range(v: &Vec<char>, from: usize, to: usize) -> (res: String)
    requires
        from <= to <= v.len(),
    ensures
        res@ == v@.subrange(from as int, to as int),
{
    let mut r = String::new();
    let mut i = from;
    while i < to
        invariant
            from <= i <= to <= v.len(),
            r@ == v@.subrange(from as int, i as int),
        decreases to - i,
    {
        push_char(&mut r, v[i]);
        assert(v@.subrange(from as int, i + 1) =~= v@.subrange(from as int, i as int).push(v@[i as int]));
        i = i + 1;
    }
    r
}

/// Text equality over characters.
pub fn same_text(a: &str, b: &str) -> (res: bool)
    ensures
        res == (a@ == b@),
{
    let x = owned(a);
    let y = owned(b);
    x == y
}

// ---------------------------------------------------------------------------
// Handles and prefixes
// ---------------------------------------------------------------------------

/// `s` starts with an `@`.
pub fn starts_with_at(s: &str) -> (res: bool)
    ensures
        res == (s@.len() > 0 && s@[0] == '@'),
{
    let v = chars_of(s);
    v.len() > 0 && v[0] == '@'
}

/// `s` without its leading `@` signs, as `trim_start_matches('@')` gives it.
pub fn strip_at_prefix(s: &str) -> (res: String)
    ensures
        res@ == strip_ats(s@),
{
    let v = chars_of(s);
    let mut k: usize = 0;
    while k < v.len() && v[k] == '@'
        invariant
            k <= v.len(),
            forall|j: int| 0 <= j < k ==> v@[j] == '@',
        decreases v.len() - k,
    {
        k = k + 1;
    }
    proof {
        assert forall|j: int| 0 <= j < k implies (at_sign())(#[trigger] v@[j]) by {}
        lemma_drop_leading(v@, at_sign(), k as int);
    }
    string_of_range(&v, k, v.len())
}

// ---------------------------------------------------------------------------
// White space, splitting
// ---------------------------------------------------------------------------

/// `char::is_whitespace`.
pub fn is_whitespace(c: char) -> (res: bool)
    ensures
        res == is_white_space(c),
{
    ('\u{9}' <= c && c <= '\u{d}') || c == ' ' || c == '\u{85}' || c == '\u{a0}' || c == '\u{1680}'
        || ('\u{2000}' <= c && c <= '\u{200a}') || c == '\u{2028}' || c == '\u{2029}' || c
        == '\u{202f}' || c == '\u{205f}' || c == '\u{3000}'
}

/// `s` without leading and trailing white space (`str::trim`).
pub fn trim(s: &str) -> (res: String)
    ensures
        res@ == trimmed(s@),
{
    let v = chars_of(s);
    let n = v.len();
    let mut a: usize = 0;
    while a < n && is_whitespace(v[a])
        invariant
            a <= n == v.len(),
            forall|j: int| 0 <= j < a ==> is_white_space(v@[j]),
        decreases n - a,
    {
        a = a + 1;
    }
    let mut b: usize = n;
    while b > a && is_whitespace(v[b - 1])
        invariant
            a <= b <= n == v.len(),
            forall|j: int| b <= j < n ==> is_white_space(v@[j]),
        decreases b - a,
    {
        b = b - 1;
    }
    proof {
        assert forall|j: int| 0 <= j < a implies (white_space())(#[trigger] v@[j]) by {}
        lemma_drop_leading(v@, white_space(), a as int);
        let t = v@.subrange(a as int, n as int);
        assert forall|j: int| b - a <= j < t.len() implies (white_space())(#[trigger] t[j]) by {
            assert(t[j] == v@[a + j]);
        }
        if b > a {
            assert(t[b - a - 1] == v@[b - 1]);
        }
        lemma_drop_trailing(t, white_space(), b - a);
        assert(t.subrange(0, b - a) =~= v@.subrange(a as int, b as int));
    }
    string_of_range(&v, a, b)
}

/// `s` cut at every `sep`, as `str::split(sep)` gives the pieces.
pub fn split_on_char(s: &str, sep: char) -> (res: Vec<String>)
    ensures
        res@.len() == split_on(s@, sep).len(),
        forall|i: int| 0 <= i < res@.len() ==> #[trigger] res@[i]@ == split_on(s@, sep)[i],
{
    let v = chars_of(s);
    let mut done: Vec<String> = Vec::new();
    let mut cur = String::new();
    let mut i: usize = 0;
    while i < v.len()
        invariant
            i <= v.len(),
            v@ == s@,
            done@.len() == split_scan(v@.take(i as int), sep).0.len(),
            forall|j: int| 0 <= j < done@.len() ==> #[trigger] done@[j]@ == split_scan(v@.take(i as int), sep).0[j],
            cur@ == split_scan(v@.take(i as int), sep).1,
        decreases v.len() - i,
    {
        assert(v@.take(i + 1).drop_last() =~= v@.take(i as int));
        assert(v@.take(i + 1).last() == v@[i as int]);
        if v[i] == sep {
            let piece = cur;
            done.push(piece);
            cur = String::new();
        } else {
            push_char(&mut cur, v[i]);
        }
        i = i + 1;
    }
    assert(v@.take(v.len() as int) =~= v@);
    let last = cur;
    done.push(last);
    done
}

/// `n` copies of `c` (`str::repeat` of one character).
pub fn repeat_char(c: char, n: usize) -> (res: String)
    ensures
        res@ == repeated(c, n as nat),
{
    let mut r = String::new();
    let mut i: usize = 0;
    while i < n
        invariant
            i <= n,
            r@ =~= repeated(c, i as nat),
        decreases n - i,
    {
        push_char(&mut r, c);
        i = i + 1;
    }
    r
}

/// `s` padded with spaces on the right to `width` characters.
pub fn pad_right(s: &str, width: usize) -> (res: String)
    ensures
        res@ == padded_right(s@, width as nat),
{
    let n = chars_of(s).len();
    let mut r = owned(s);
    if n < width {
        let pad = repeat_char(' ', width - n);
        r.append(pad.as_str());
    }
    r
}

/// `s` padded with spaces on the left to `width` characters.
pub fn pad_left(s: &str, width: usize) -> (res: String)
    ensures
        res@ == padded_left(s@, width as nat),
{
    let n = chars_of(s).len();
    if n < width {
        let mut r = repeat_char(' ', width - n);
        r.append(s);
        r
    } else {
        owned(s)
    }
}

/// `parts` joined with `sep` between neighbours (`[String]::join`).
pub fn join(parts: &Vec<String>, sep: &str) -> (res: String)
    ensures
        res@ == joined(texts(parts@), sep@),
{
    let mut r = String::new();
    let mut i: usize = 0;
    while i < parts.len()
        invariant
            i <= parts.len(),
            r@ == joined(texts(parts@.take(i as int)), sep@),
        decreases parts.len() - i,
    {
        assert(texts(parts@.take(i + 1)).drop_last() =~= texts(parts@.take(i as int)));
        if i > 0 {
            r.append(sep);
        }
        r.append(parts[i].as_str());
        proof {
            if i == 0 {
                assert(r@ =~= texts(parts@.take(1))[0]);
            }
        }
        i = i + 1;
    }
    assert(parts@.take(parts.len() as int) =~= parts@);
    r
}

/// Adds a cell to the end of a row.
pub fn push_cell(cells: &mut Vec<Cell>, text: String, width: usize, right: bool)
    ensures
        cell_views(final(cells)@) == cell_views(old(cells)@).push((text@, width as nat, right)),
{
    let ghost t = text@;
    cells.push(Cell { text, width, right });
    assert(cell_views(cells@) =~= cell_views(old(cells)@).push((t, width as nat, right)));
}

/// Adds the lines of `block` after `lines`.
pub fn append_lines(lines: &mut Vec<String>, block: Vec<String>)
    ensures
        texts(final(lines)@) == texts(old(lines)@) + texts(block@),
{
    let mut b = block;
    let ghost bb = b@;
    lines.append(&mut b);
    assert(texts(lines@) =~= texts(old(lines)@) + texts(bb));
}

/// A line list holding one line.
pub fn single_line(line: String) -> (lines: Vec<String>)
    ensures
        texts(lines@) == seq![line@],
{
    let ghost l = line@;
    let mut v: Vec<String> = Vec::new();
    v.push(line);
    assert(texts(v@) =~= seq![l]);
    v
}

/// A table row: its cells, padded, separated by single spaces.
pub fn format_row(cells: &Vec<Cell>) -> (line: String)
    ensures
        line@ == row_text(cell_views(cells@)),
{
    let mut parts: Vec<String> = Vec::new();
    let mut i: usize = 0;
    while i < cells.len()
        invariant
            i <= cells.len(),
            texts(parts@) =~= cell_views(cells@.take(i as int)).map_values(|c: (Seq<char>, nat, bool)| cell_text(c)),
        decreases cells.len() - i,
    {
        let c = &cells[i];
        let t = if c.right { pad_left(c.text.as_str(), c.width) } else { pad_right(c.text.as_str(), c.width) };
        let ghost before = parts@;
        parts.push(t);
        assert(texts(parts@) =~= texts(before).push(cell_text(cell_view(cells@[i as int]))));
        assert(cell_views(cells@.take(i + 1)).map_values(|c: (Seq<char>, nat, bool)| cell_text(c))
            =~= cell_views(cells@.take(i as int)).map_values(|c: (Seq<char>, nat, bool)| cell_text(c)).push(
            cell_text(cell_view(cells@[i as int])),
        ));
        i = i + 1;
    }
    assert(cells@.take(cells.len() as int) =~= cells@);
    join(&parts, " ")
}

// ---------------------------------------------------------------------------
// Shortening, searching, replacing
// ---------------------------------------------------------------------------

/// The first `n` bytes of `s` (`&s[..n]`), which must end on a character boundary.
pub fn prefix_bytes(s: &str, n: usize) -> (res: String)
    requires
        is_char_boundary(encode_utf8(s@), n as int),
    ensures
        res@ == byte_prefix(s@, n as nat),
{
    let (head, _rest) = s.split_at(n);
    proof {
        assert(head.spec_bytes() == encode_utf8(head@));
        encode_utf8_decode_utf8(head@);
    }
    owned(head)
}

/// Whether `s` begins with `prefix` (`str::starts_with`).
pub fn starts_with_text(s: &str, prefix: &str) -> (res: bool)
    ensures
        res == (prefix@.len() <= s@.len() && s@.subrange(0, prefix@.len() as int) == prefix@),
{
    let a = chars_of(s);
    let b = chars_of(prefix);
    if b.len() > a.len() {
        return false;
    }
    let mut i: usize = 0;
    while i < b.len()
        invariant
            a@ == s@,
            b@ == prefix@,
            b.len() <= a.len(),
            i <= b.len(),
            forall|j: int| 0 <= j < i ==> a@[j] == b@[j],
        decreases b.len() - i,
    {
        if a[i] != b[i] {
            assert(a@.subrange(0, b@.len() as int)[i as int] != b@[i as int]);
            return false;
        }
        i = i + 1;
    }
    assert(a@.subrange(0, b@.len() as int) =~= b@);
    true
}

/// Whether `needle` occurs in `hay` (`str::contains`).
pub fn contains_text(hay: &str, needle: &str) -> (res: bool)
    ensures
        res == occurs_in(hay@, needle@),
{
    let h = chars_of(hay);
    let n = chars_of(needle);
    if n.len() > h.len() {
        return false;
    }
    let mut i: usize = 0;
    while i <= h.len() - n.len()
        invariant
            n.len() <= h.len(),
            h@ == hay@,
            n@ == needle@,
            i <= h.len() - n.len() + 1,
            forall|k: int| 0 <= k < i ==> #[trigger] h@.subrange(k, k + n@.len()) != n@,
        decreases h.len() - n.len() + 1 - i,
    {
        let mut j: usize = 0;
        let mut ok = true;
        while j < n.len()
            invariant
                n.len() <= h.len(),
                i <= h.len() - n.len(),
                j <= n.len(),
                ok == (forall|m: int| 0 <= m < j ==> h@[i + m] == n@[m]),
            decreases n.len() - j,
        {
            if h[i + j] != n[j] {
                ok = false;
            }
            j = j + 1;
        }
        if ok {
            assert(h@.subrange(i as int, i + n@.len()) =~= n@);
            return true;
        }
        assert(h@.subrange(i as int, i + n@.len()) != n@) by {
            let m = choose|m: int| 0 <= m < n.len() && h@[i + m] != n@[m];
            assert(h@.subrange(i as int, i + n@.len())[m] == h@[i + m]);
        }
        i = i + 1;
    }
    false
}

/// `s` with every `from` replaced by `to` (`str::replace` of one character).
pub fn replace_all_char(s: &str, from: char, to: char) -> (res: String)
    ensures
        res@ == replace_char(s@, from, to),
{
    let v = chars_of(s);
    let mut r = String::new();
    let mut i: usize = 0;
    while i < v.len()
        invariant
            i <= v.len(),
            r@ == replace_char(v@.take(i as int), from, to),
        decreases v.len() - i,
    {
        let c = if v[i] == from { to } else { v[i] };
        push_char(&mut r, c);
        assert(replace_char(v@.take(i + 1), from, to) =~= replace_char(v@.take(i as int), from, to).push(c));
        i = i + 1;
    }
    assert(v@.take(v.len() as int) =~= v@);
    r
}

// ---------------------------------------------------------------------------
// Numbers
// ---------------------------------------------------------------------------

/// The character for one decimal digit.
pub fn digit(d: u64) -> (c: char)
    requires
        d < 10,
    ensures
        c == digit_char(d as nat),
{
    if d == 0 { '0' }
    else if d == 1 { '1' }
    else if d == 2 { '2' }
    else if d == 3 { '3' }
    else if d == 4 { '4' }
    else if d == 5 { '5' }
    else if d == 6 { '6' }
    else if d == 7 { '7' }
    else if d == 8 { '8' }
    else { '9' }
}

/// Decimal notation of `n` (`u64::to_string`).
pub fn u64_text(n: u64) -> (res: String)
    ensures
        res@ == decimal(n as nat),
    decreases n,
{
    if n < 10 {
        let mut r = String::new();
        push_char(&mut r, digit(n));
        assert(r@ =~= seq![digit_char(n as nat)]);
        r
    } else {
        let mut r = u64_text(n / 10);
        push_char(&mut r, digit(n % 10));
        r
    }
}

/// Decimal notation of `n` (`i64::to_string`).
pub fn i64_text(n: i64) -> (res: String)
    ensures
        res@ == signed_decimal(n as int),
{
    if n < 0 {
        let magnitude: u64 = if n == i64::MIN { 9223372036854775808u64 } else { (-n) as u64 };
        let mut r = String::new();
        push_char(&mut r, '-');
        let digits = u64_text(magnitude);
        r.append(digits.as_str());
        assert(r@ =~= seq!['-'] + decimal((-n) as nat));
        r
    } else {
        u64_text(n as u64)
    }
}

} // verus!
