//! Text as sequences of characters: the splitting, trimming, searching and number
//! formatting that the rest of the suite is written with.

use vstd::prelude::*;

verus! {

/// The characters of `s`, in order.
pub fn chars_of(s: &str) -> (r: Vec<char>)
    ensures
        r@ == s@,
{
    let mut out: Vec<char> = Vec::new();
    for c in iter: s.chars()
        invariant
            out@ == iter.seq().take(iter.index() as int),
            iter.seq() == s@,
    {
        out.push(c);
    }
    out
}

/// The number of a character.
pub fn code_of(c: char) -> (r: u32)
    ensures
        r == c as int,
{
    c as u32
}

/// Whether two strings hold the same characters.
pub fn str_eq(a: &str, b: &str) -> (r: bool)
    ensures
        r == (a@ == b@),
{
    let x: Vec<char> = chars_of(a);
    let y: Vec<char> = chars_of(b);
    if x.len() != y.len() {
        return false;
    }
    for i in 0..x.len()
        invariant
            x@ == a@,
            y@ == b@,
            x.len() == y.len(),
            forall|j: int| 0 <= j < i ==> x@[j] == y@[j],
    {
        if x[i] != y[i] {
            assert(a@[i as int] != b@[i as int]);
            return false;
        }
    }
    assert(a@ =~= b@);
    true
}

/// Whether `a` comes before `b` or is the same, character by character.
pub open spec fn text_le(a: Seq<char>, b: Seq<char>) -> bool
    decreases a.len(),
{
    if a.len() == 0 {
        true
    } else if b.len() == 0 {
        false
    } else if a[0] == b[0] {
        text_le(a.skip(1), b.skip(1))
    } else {
        a[0] < b[0]
    }
}

/// Whether `a` comes before `b` or is the same, character by character.
pub fn not_after(a: &str, b: &str) -> (r: bool)
    ensures
        r == text_le(a@, b@),
{
    let x: Vec<char> = chars_of(a);
    let y: Vec<char> = chars_of(b);
    let mut i: usize = 0;
    assert(a@.skip(0) =~= a@ && b@.skip(0) =~= b@);
    while i < x.len() && i < y.len() && x[i] == y[i]
        invariant
            x@ == a@,
            y@ == b@,
            i <= x.len(),
            i <= y.len(),
            text_le(a@.skip(i as int), b@.skip(i as int)) == text_le(a@, b@),
        decreases x.len() - i,
    {
        assert(a@.skip(i as int).skip(1) =~= a@.skip(i + 1));
        assert(b@.skip(i as int).skip(1) =~= b@.skip(i + 1));
        i = i + 1;
    }
    if i == x.len() {
        true
    } else if i == y.len() {
        false
    } else {
        x[i] < y[i]
    }
}

/// The order of texts is total: of two, one is not after the other, and only the same text is on
/// both sides of another.
pub proof fn text_order_is_total(a: Seq<char>, b: Seq<char>)
    ensures
        text_le(a, b) || text_le(b, a),
        text_le(a, b) && text_le(b, a) ==> a == b,
    decreases a.len(),
{
    if a.len() > 0 && b.len() > 0 && a[0] == b[0] {
        text_order_is_total(a.skip(1), b.skip(1));
        if text_le(a, b) && text_le(b, a) {
            assert(a =~= seq![a[0]] + a.skip(1));
            assert(b =~= seq![b[0]] + b.skip(1));
        }
    } else if a.len() == 0 && b.len() == 0 {
        assert(a =~= b);
    }
}

/// Whether `hay` holds `needle` at position `at`.
pub open spec fn matches_at(hay: Seq<char>, needle: Seq<char>, at: int) -> bool {
    &&& 0 <= at <= hay.len() - needle.len()
    &&& hay.subrange(at, at + needle.len()) == needle
}

/// Whether `needle` occurs somewhere in `hay`.
pub open spec fn contains_text(hay: Seq<char>, needle: Seq<char>) -> bool {
    exists|at: int| matches_at(hay, needle, at)
}

/// Whether `hay` holds `needle` at position `at`.
fn check_at(hay: &Vec<char>, needle: &Vec<char>, at: usize) -> (r: bool)
    requires
        at + needle.len() <= hay.len(),
    ensures
        r == matches_at(hay@, needle@, at as int),
{
    for i in 0..needle.len()
        invariant
            at + needle.len() <= hay.len(),
            forall|j: int| 0 <= j < i ==> hay@[at + j] == needle@[j],
    {
        if hay[at + i] != needle[i] {
            assert(hay@.subrange(at as int, at + needle@.len())[i as int] != needle@[i as int]);
            return false;
        }
    }
    assert(hay@.subrange(at as int, at + needle@.len()) =~= needle@);
    true
}

/// Whether `needle` occurs somewhere in `hay`.
pub fn contains(hay: &str, needle: &str) -> (r: bool)
    ensures
        r == contains_text(hay@, needle@),
{
    let h: Vec<char> = chars_of(hay);
    let n: Vec<char> = chars_of(needle);
    if n.len() > h.len() {
        return false;
    }
    let last: usize = h.len() - n.len();
    let mut at: usize = 0;
    while at <= last
        invariant
            h@ == hay@,
            n@ == needle@,
            last + n.len() == h.len(),
            at <= last + 1,
            forall|j: int| 0 <= j < at ==> !matches_at(h@, n@, j),
        decreases last + 1 - at,
    {
        if check_at(&h, &n, at) {
            return true;
        }
        if at == last {
            return false;
        }
        at = at + 1;
    }
    false
}

/// Whether `s` begins with `prefix`.
pub open spec fn has_prefix(s: Seq<char>, prefix: Seq<char>) -> bool {
    matches_at(s, prefix, 0)
}

/// Whether `s` ends with `suffix`.
pub open spec fn has_suffix(s: Seq<char>, suffix: Seq<char>) -> bool {
    matches_at(s, suffix, s.len() - suffix.len())
}

/// What follows `prefix` in `s`; `None` where `s` does not begin with it.
pub fn strip_prefix<'a>(s: &'a str, prefix: &str) -> (r: Option<&'a str>)
    ensures
        match r {
            Some(rest) => has_prefix(s@, prefix@) && rest@ == s@.skip(prefix@.len() as int),
            None => !has_prefix(s@, prefix@),
        },
{
    let h: Vec<char> = chars_of(s);
    let n: Vec<char> = chars_of(prefix);
    if n.len() <= h.len() && check_at(&h, &n, 0) {
        Some(s.substring_char(n.len(), h.len()))
    } else {
        None
    }
}

/// What precedes `suffix` in `s`; `None` where `s` does not end with it.
pub fn strip_suffix<'a>(s: &'a str, suffix: &str) -> (r: Option<&'a str>)
    ensures
        match r {
            Some(rest) => has_suffix(s@, suffix@) && rest@ == s@.take(s@.len() - suffix@.len()),
            None => !has_suffix(s@, suffix@),
        },
{
    let h: Vec<char> = chars_of(s);
    let n: Vec<char> = chars_of(suffix);
    if n.len() <= h.len() && check_at(&h, &n, h.len() - n.len()) {
        Some(s.substring_char(0, h.len() - n.len()))
    } else {
        None
    }
}

/// The pieces of `s` between occurrences of `sep`: one more piece than occurrences.
pub open spec fn split_on(s: Seq<char>, sep: char) -> Seq<Seq<char>>
    decreases s.len(),
{
    if s.len() == 0 {
        seq![Seq::<char>::empty()]
    } else {
        let before = split_on(s.drop_last(), sep);
        if s.last() == sep {
            before.push(Seq::<char>::empty())
        } else {
            before.drop_last().push(before.last().push(s.last()))
        }
    }
}

/// Even an empty text has one piece.
pub proof fn lemma_split_some(s: Seq<char>, sep: char)
    ensures
        split_on(s, sep).len() >= 1,
    decreases s.len(),
{
    if s.len() > 0 {
        lemma_split_some(s.drop_last(), sep);
    }
}

/// What stands behind the last separator goes on where no separator comes.
proof fn lemma_split_goes_on(s: Seq<char>, t: Seq<char>, sep: char)
    requires
        !t.contains(sep),
    ensures
        split_on(s + t, sep) == split_on(s, sep).drop_last().push(split_on(s, sep).last() + t),
    decreases t.len(),
{
    lemma_split_some(s, sep);
    if t.len() == 0 {
        assert(s + t =~= s);
        assert(split_on(s, sep).last() + t =~= split_on(s, sep).last());
        assert(split_on(s, sep).drop_last().push(split_on(s, sep).last()) =~= split_on(s, sep));
    } else {
        let front = t.drop_last();
        assert(!front.contains(sep)) by {
            if front.contains(sep) {
                let i = choose|i: int| 0 <= i < front.len() && front[i] == sep;
                assert(t[i] == sep);
            }
        }
        assert(t[t.len() - 1] != sep);
        lemma_split_goes_on(s, front, sep);
        assert((s + t).drop_last() =~= s + front);
        assert((s + t).last() == t.last());
        let last = split_on(s, sep).last();
        assert((last + front).push(t.last()) =~= last + t);
        let head = split_on(s, sep).drop_last();
        assert(head.push(last + front).drop_last() =~= head);
    }
}

/// The pieces of parts that were laid end to end with `sep` and `pad` between neighbours are the
/// parts, each but the first behind a `pad`.
pub proof fn lemma_split_joined(parts: Seq<Seq<char>>, sep: char, pad: Seq<char>)
    requires
        parts.len() > 0,
        !pad.contains(sep),
        forall|i: int| 0 <= i < parts.len() ==> !(#[trigger] parts[i]).contains(sep),
    ensures
        split_on(joined(parts, seq![sep] + pad), sep) == Seq::new(
            parts.len(),
            |i: int|
                if i == 0 {
                    parts[i]
                } else {
                    pad + parts[i]
                },
        ),
    decreases parts.len(),
{
    let between = seq![sep] + pad;
    let want = Seq::new(
        parts.len(),
        |i: int|
            if i == 0 {
                parts[i]
            } else {
                pad + parts[i]
            },
    );
    assert(!parts[parts.len() - 1].contains(sep));
    if parts.len() == 1 {
        let none = Seq::<char>::empty();
        lemma_split_goes_on(none, parts[0], sep);
        assert(none + parts[0] =~= parts[0]);
        assert(split_on(none, sep) =~= seq![none]);
        assert(split_on(parts[0], sep) =~= seq![parts[0]]);
        assert(want =~= seq![parts[0]]);
    } else {
        let front = parts.drop_last();
        lemma_split_joined(front, sep, pad);
        let s = joined(front, between);
        let tail = pad + parts.last();
        assert(!tail.contains(sep)) by {
            if tail.contains(sep) {
                let i = choose|i: int| 0 <= i < tail.len() && tail[i] == sep;
                if i < pad.len() {
                    assert(pad[i] == sep);
                } else {
                    assert(parts.last()[i - pad.len()] == sep);
                }
            }
        }
        assert(s.push(sep).drop_last() =~= s);
        let before = split_on(s.push(sep), sep);
        assert(before == split_on(s, sep).push(Seq::<char>::empty()));
        lemma_split_goes_on(s.push(sep), tail, sep);
        assert(s.push(sep) + tail =~= s + between + parts.last());
        assert(before.drop_last() =~= split_on(s, sep));
        assert(before.last() + tail =~= tail);
        assert(split_on(s, sep).push(tail) =~= want);
    }
}

/// White space before a text with none at either end is all that trimming takes away.
pub proof fn lemma_trim_takes_pad(pad: Seq<char>, s: Seq<char>)
    requires
        forall|i: int| 0 <= i < pad.len() ==> white_space(#[trigger] pad[i]),
        s.len() > 0,
        !white_space(s[0]),
        !white_space(s.last()),
    ensures
        trimmed(pad + s) == s,
    decreases pad.len(),
{
    if pad.len() == 0 {
        assert(pad + s =~= s);
    } else {
        assert(white_space((pad + s)[0])) by {
            assert((pad + s)[0] == pad[0]);
        }
        assert((pad + s).skip(1) =~= pad.skip(1) + s);
        lemma_trim_takes_pad(pad.skip(1), s);
    }
}

/// The views of a vector of string slices.
pub open spec fn views(v: Seq<&str>) -> Seq<Seq<char>> {
    Seq::new(v.len(), |i: int| v[i]@)
}

/// Cuts `s` at every occurrence of `sep`.
pub fn split<'a>(s: &'a str, sep: char) -> (r: Vec<&'a str>)
    ensures
        views(r@) == split_on(s@, sep),
{
    let h: Vec<char> = chars_of(s);
    let mut out: Vec<&'a str> = Vec::new();
    let mut start: usize = 0;
    assert(split_on(s@.take(0), sep) =~= seq![Seq::<char>::empty()]);
    assert(s@.subrange(0, 0) =~= Seq::<char>::empty());
    assert(views(out@).push(s@.subrange(0, 0)) =~= seq![Seq::<char>::empty()]);
    for i in 0..h.len()
        invariant
            h@ == s@,
            start <= i,
            views(out@).push(s@.subrange(start as int, i as int)) == split_on(
                s@.take(i as int),
                sep,
            ),
    {
        proof {
            lemma_split_some(s@.take(i as int), sep);
            assert(s@.take(i + 1).drop_last() =~= s@.take(i as int));
        }
        let ghost before = split_on(s@.take(i as int), sep);
        let ghost done = views(out@);
        assert(before.drop_last() =~= done);
        if h[i] == sep {
            out.push(s.substring_char(start, i));
            start = i + 1;
            assert(views(out@) =~= before);
            assert(s@.subrange(i + 1, i + 1) =~= Seq::<char>::empty());
        } else {
            assert(s@.subrange(start as int, i + 1) =~= s@.subrange(start as int, i as int).push(
                s@[i as int],
            ));
        }
    }
    proof {
        assert(s@.take(s@.len() as int) =~= s@);
        lemma_split_some(s@, sep);
    }
    let ghost done = views(out@);
    out.push(s.substring_char(start, h.len()));
    assert(views(out@) =~= done.push(s@.subrange(start as int, s@.len() as int)));
    out
}

/// What follows the last `sep` in `s`; the whole of `s` where there is none.
pub open spec fn after_last(s: Seq<char>, sep: char) -> Seq<char>
    decreases s.len(),
{
    if s.len() == 0 || s.last() == sep {
        Seq::empty()
    } else {
        after_last(s.drop_last(), sep).push(s.last())
    }
}

/// What follows the last `sep` in `s`; the whole of `s` where there is none.
pub fn rest_after_last<'a>(s: &'a str, sep: char) -> (r: &'a str)
    ensures
        r@ == after_last(s@, sep),
{
    let h: Vec<char> = chars_of(s);
    let mut start: usize = h.len();
    assert(s@.take(s@.len() as int) =~= s@);
    assert(after_last(s@, sep) =~= after_last(s@, sep) + s@.skip(s@.len() as int));
    while start > 0 && h[start - 1] != sep
        invariant
            h@ == s@,
            start <= h.len(),
            after_last(s@, sep) == after_last(s@.take(start as int), sep) + s@.skip(start as int),
        decreases start,
    {
        assert(s@.take(start as int).drop_last() =~= s@.take(start - 1));
        assert(after_last(s@, sep) =~= after_last(s@.take(start - 1), sep) + s@.skip(start - 1));
        start = start - 1;
    }
    assert(after_last(s@.take(start as int), sep) =~= Seq::empty());
    assert(after_last(s@, sep) =~= s@.skip(start as int));
    s.substring_char(start, h.len())
}

/// The characters that Unicode gives the `White_Space` property.
pub open spec fn white_space(c: char) -> bool {
    ||| '\u{9}' <= c <= '\u{d}'
    ||| c == '\u{20}'
    ||| c == '\u{85}'
    ||| c == '\u{a0}'
    ||| c == '\u{1680}'
    ||| '\u{2000}' <= c <= '\u{200a}'
    ||| c == '\u{2028}'
    ||| c == '\u{2029}'
    ||| c == '\u{202f}'
    ||| c == '\u{205f}'
    ||| c == '\u{3000}'
}

fn is_white_space(c: char) -> (r: bool)
    ensures
        r == white_space(c),
{
    let n: u32 = c as u32;
    (0x9 <= n && n <= 0xd) || n == 0x20 || n == 0x85 || n == 0xa0 || n == 0x1680 || (0x2000 <= n && n
        <= 0x200a) || n == 0x2028 || n == 0x2029 || n == 0x202f || n == 0x205f || n == 0x3000
}

/// `s` without the white space that it begins with.
pub open spec fn trim_front(s: Seq<char>) -> Seq<char>
    decreases s.len(),
{
    if s.len() > 0 && white_space(s[0]) {
        trim_front(s.skip(1))
    } else {
        s
    }
}

/// `s` without the white space that it ends with.
pub open spec fn trim_back(s: Seq<char>) -> Seq<char>
    decreases s.len(),
{
    if s.len() > 0 && white_space(s.last()) {
        trim_back(s.drop_last())
    } else {
        s
    }
}

/// `s` without white space at either end.
pub open spec fn trimmed(s: Seq<char>) -> Seq<char> {
    trim_back(trim_front(s))
}

/// `s` without white space at either end.
pub fn trim<'a>(s: &'a str) -> (r: &'a str)
    ensures
        r@ == trimmed(s@),
{
    let h: Vec<char> = chars_of(s);
    let mut i: usize = 0;
    assert(s@.skip(0) =~= s@);
    while i < h.len() && is_white_space(h[i])
        invariant
            h@ == s@,
            i <= h.len(),
            trim_front(s@.skip(i as int)) == trim_front(s@),
        decreases h.len() - i,
    {
        assert(s@.skip(i as int).skip(1) =~= s@.skip(i + 1));
        i = i + 1;
    }
    let ghost front = s@.skip(i as int);
    assert(trim_front(s@) == front);
    let mut j: usize = h.len();
    assert(s@.subrange(i as int, j as int) =~= front);
    while i < j && is_white_space(h[j - 1])
        invariant
            h@ == s@,
            i <= j <= h.len(),
            trim_back(s@.subrange(i as int, j as int)) == trim_back(front),
        decreases j,
    {
        assert(s@.subrange(i as int, j as int).drop_last() =~= s@.subrange(i as int, j - 1));
        j = j - 1;
    }
    s.substring_char(i, j)
}

/// `parts` laid end to end with `sep` between neighbours.
pub open spec fn joined(parts: Seq<Seq<char>>, sep: Seq<char>) -> Seq<char>
    decreases parts.len(),
{
    if parts.len() == 0 {
        Seq::empty()
    } else if parts.len() == 1 {
        parts[0]
    } else {
        joined(parts.drop_last(), sep) + sep + parts.last()
    }
}

/// Lays `parts` end to end with `sep` between neighbours.
pub fn join(parts: &Vec<&str>, sep: &str) -> (r: String)
    ensures
        r@ == joined(views(parts@), sep@),
{
    let mut out: String = String::new();
    assert(views(parts@).take(0) =~= Seq::empty());
    for i in 0..parts.len()
        invariant
            out@ == joined(views(parts@).take(i as int), sep@),
    {
        proof {
            assert(views(parts@).take(i + 1).drop_last() =~= views(parts@).take(i as int));
        }
        if i > 0 {
            out.append(sep);
        }
        out.append(parts[i]);
        assert(out@ =~= joined(views(parts@).take(i + 1), sep@));
    }
    assert(views(parts@).take(parts@.len() as int) =~= views(parts@));
    out
}

/// Whether `c` is a decimal digit.
pub open spec fn is_digit(c: char) -> bool {
    '0' <= c <= '9'
}

/// The value of a row of decimal digits.
pub open spec fn digits_value(s: Seq<char>) -> nat
    decreases s.len(),
{
    if s.len() == 0 {
        0
    } else {
        (digits_value(s.drop_last()) * 10 + (s.last() as int - '0' as int)) as nat
    }
}

/// Whether every character of `s` is a decimal digit.
pub open spec fn all_digits(s: Seq<char>) -> bool {
    forall|i: int| 0 <= i < s.len() ==> is_digit(#[trigger] s[i])
}

/// `s` without the `+` that it may begin with.
pub open spec fn unsigned_part(s: Seq<char>) -> Seq<char> {
    if s.len() > 0 && s[0] == '+' {
        s.skip(1)
    } else {
        s
    }
}

/// The number of at most 64 bits that `s` spells: an optional `+`, then at least one digit.
pub open spec fn u64_value(s: Seq<char>) -> Option<u64> {
    let digits = unsigned_part(s);
    if digits.len() > 0 && all_digits(digits) && digits_value(digits) <= u64::MAX {
        Some(digits_value(digits) as u64)
    } else {
        None
    }
}

/// Why a text spells no number of at most 64 bits.
#[derive(Debug, Clone, Copy, PartialEq, Eq, Structural)]
pub enum NumberFault {
    Empty,
    InvalidDigit,
    TooLarge,
}

/// Whether `digits` is a number up to position `k`, where something else stands.
pub open spec fn breaks_off(digits: Seq<char>, k: int) -> bool {
    &&& 0 <= k < digits.len()
    &&& all_digits(digits.take(k))
    &&& digits_value(digits.take(k)) <= u64::MAX
    &&& !is_digit(digits[k])
}

/// Whether the first `k` of `digits` are the digits of a number that is too large.
pub open spec fn grows_beyond(digits: Seq<char>, k: int) -> bool {
    &&& 0 <= k <= digits.len()
    &&& all_digits(digits.take(k))
    &&& digits_value(digits.take(k)) > u64::MAX
}

/// Whether reading `s` from its front comes upon this fault first.
pub open spec fn is_fault(s: Seq<char>, fault: NumberFault) -> bool {
    match fault {
        NumberFault::Empty => s.len() == 0,
        NumberFault::InvalidDigit => s.len() > 0 && (unsigned_part(s).len() == 0 || exists|k: int|
            #[trigger] breaks_off(unsigned_part(s), k)),
        NumberFault::TooLarge => exists|k: int| #[trigger] grows_beyond(unsigned_part(s), k),
    }
}

impl NumberFault {
    /// What is said of it.
    pub fn as_str(&self) -> (r: &'static str)
        ensures
            r@ == match *self {
                NumberFault::Empty => "cannot parse integer from empty string"@,
                NumberFault::InvalidDigit => "invalid digit found in string"@,
                NumberFault::TooLarge => "number too large to fit in target type"@,
            },
    {
        match self {
            NumberFault::Empty => "cannot parse integer from empty string",
            NumberFault::InvalidDigit => "invalid digit found in string",
            NumberFault::TooLarge => "number too large to fit in target type",
        }
    }
}

/// The number of at most 64 bits that `s` spells, or what keeps it from being one.
pub fn read_u64(s: &str) -> (r: Result<u64, NumberFault>)
    ensures
        match r {
            Ok(n) => u64_value(s@) == Some(n),
            Err(fault) => u64_value(s@) is None && is_fault(s@, fault),
        },
{
    let h: Vec<char> = chars_of(s);
    if h.len() == 0 {
        return Err(NumberFault::Empty);
    }
    let mut start: usize = 0;
    if h[0] == '+' {
        start = 1;
    }
    let ghost digits = s@.skip(start as int);
    assert(s@.skip(0) =~= s@);
    if start == h.len() {
        return Err(NumberFault::InvalidDigit);
    }
    let mut value: u64 = 0;
    let mut fits: bool = true;
    let ghost mut beyond: int = 0;
    for i in start..h.len()
        invariant
            h@ == s@,
            h.len() > 0,
            start <= h.len(),
            digits == s@.skip(start as int),
            digits == unsigned_part(s@),
            forall|j: int| 0 <= j < i - start ==> is_digit(#[trigger] digits[j]),
            fits ==> value == digits_value(digits.take(i - start)),
            !fits ==> digits_value(digits.take(i - start)) > u64::MAX,
            !fits ==> grows_beyond(digits, beyond),
    {
        let c: char = h[i];
        assert(digits[i - start] == c);
        assert(digits.take(i + 1 - start).drop_last() =~= digits.take(i - start));
        if c < '0' || c > '9' {
            assert(!is_digit(digits[i - start]));
            if fits {
                assert(breaks_off(digits, i - start));
                return Err(NumberFault::InvalidDigit);
            }
            return Err(NumberFault::TooLarge);
        }
        let d: u64 = (c as u32 - 48) as u64;
        if fits {
            if value > (u64::MAX - d) / 10 {
                fits = false;
                proof {
                    beyond = i + 1 - start;
                    assert(grows_beyond(digits, beyond));
                }
            } else {
                value = value * 10 + d;
            }
        }
    }
    assert(digits.take(digits.len() as int) =~= digits);
    if fits {
        Ok(value)
    } else {
        Err(NumberFault::TooLarge)
    }
}

/// The number of at most 64 bits that `s` spells: an optional `+`, then at least one digit.
pub fn parse_u64(s: &str) -> (r: Option<u64>)
    ensures
        r == u64_value(s@),
{
    match read_u64(s) {
        Ok(n) => Some(n),
        Err(_) => None,
    }
}

/// The digit that stands for `d`.
pub open spec fn digit_char(d: nat) -> char {
    (d + 48) as char
}

/// The shortest decimal spelling of `n`.
pub open spec fn decimal(n: nat) -> Seq<char>
    decreases n,
{
    if n < 10 {
        seq![digit_char(n)]
    } else {
        decimal(n / 10).push(digit_char(n % 10))
    }
}

/// The decimal spelling of `n`, filled up with zeros on the left to `width`.
pub open spec fn padded(n: nat, width: nat) -> Seq<char> {
    let d = decimal(n);
    if d.len() >= width {
        d
    } else {
        Seq::new((width - d.len()) as nat, |i: int| '0') + d
    }
}

/// The text of one digit.
fn digit_text(d: u64) -> (r: &'static str)
    requires
        d < 10,
    ensures
        r@ == seq![digit_char(d as nat)],
{
    proof {
        reveal_strlit("0");
        reveal_strlit("1");
        reveal_strlit("2");
        reveal_strlit("3");
        reveal_strlit("4");
        reveal_strlit("5");
        reveal_strlit("6");
        reveal_strlit("7");
        reveal_strlit("8");
        reveal_strlit("9");
    }
    let r: &'static str = match d {
        0 => "0",
        1 => "1",
        2 => "2",
        3 => "3",
        4 => "4",
        5 => "5",
        6 => "6",
        7 => "7",
        8 => "8",
        _ => "9",
    };
    assert(r@ =~= seq![digit_char(d as nat)]);
    r
}

/// Appends the shortest decimal spelling of `n` to `out`.
pub fn push_decimal(out: &mut String, n: u128)
    ensures
        final(out)@ == old(out)@ + decimal(n as nat),
    decreases n,
{
    if n >= 10 {
        push_decimal(out, n / 10);
        out.append(digit_text((n % 10) as u64));
        assert(out@ =~= old(out)@ + decimal(n as nat));
    } else {
        out.append(digit_text(n as u64));
    }
}

/// Appends the decimal spelling of `n`, filled up with zeros to `width`, to `out`.
pub fn push_padded(out: &mut String, n: u128, width: usize)
    ensures
        final(out)@ == old(out)@ + padded(n as nat, width as nat),
{
    let mut digits: String = String::new();
    push_decimal(&mut digits, n);
    assert(digits@ =~= decimal(n as nat));
    let len: usize = digits.as_str().unicode_len();
    if len < width {
        let fill: usize = width - len;
        proof {
            reveal_strlit("0");
        }
        for i in 0..fill
            invariant
                "0"@ =~= seq!['0'],
                out@ == old(out)@ + Seq::new(i as nat, |j: int| '0'),
        {
            out.append("0");
            assert(Seq::new(i as nat, |j: int| '0') + "0"@ =~= Seq::new((i + 1) as nat, |j: int| '0'));
            assert(out@ =~= old(out)@ + Seq::new((i + 1) as nat, |j: int| '0'));
        }
        out.append(digits.as_str());
        assert(out@ =~= old(out)@ + padded(n as nat, width as nat));
    } else {
        out.append(digits.as_str());
    }
}

/// What is spelled in decimals is read back as the same number, so that two numbers are never spelled
/// alike; and a spelling that is filled up with zeros is still that number's, and as wide as asked for.
pub proof fn a_number_is_read_back(n: nat, width: nat)
    ensures
        decimal(n).len() >= 1,
        all_digits(decimal(n)),
        digits_value(decimal(n)) == n,
        n > 0 ==> decimal(n)[0] != '0',
        digits_value(padded(n, width)) == n,
        padded(n, width).len() >= width,
        padded(n, width).len() > width ==> padded(n, width) == decimal(n),
    decreases n,
{
    if n < 10 {
        reveal_with_fuel(digits_value, 2);
        assert(decimal(n).drop_last() =~= Seq::empty());
    } else {
        a_number_is_read_back(n / 10, width);
        assert(decimal(n).drop_last() =~= decimal(n / 10));
        assert(all_digits(decimal(n))) by {
            assert forall|i: int| 0 <= i < decimal(n).len() implies is_digit(
                #[trigger] decimal(n)[i],
            ) by {
                if i < decimal(n / 10).len() {
                    assert(decimal(n)[i] == decimal(n / 10)[i]);
                }
            }
        }
    }
    if decimal(n).len() < width {
        lemma_zeros_in_front((width - decimal(n).len()) as nat, decimal(n));
    }
}

proof fn lemma_zeros_in_front(zeros: nat, s: Seq<char>)
    ensures
        digits_value(Seq::new(zeros, |i: int| '0') + s) == digits_value(s),
    decreases zeros + s.len(),
{
    let front = Seq::new(zeros, |i: int| '0');
    if s.len() > 0 {
        lemma_zeros_in_front(zeros, s.drop_last());
        assert((front + s).drop_last() =~= front + s.drop_last());
    } else if zeros > 0 {
        let fewer = Seq::new((zeros - 1) as nat, |i: int| '0');
        lemma_zeros_in_front((zeros - 1) as nat, s);
        assert((front + s).drop_last() =~= fewer + s);
    } else {
        assert(front + s =~= s);
    }
}

/// Two numbers that are spelled alike are the same.
pub proof fn spellings_tell_numbers_apart(m: nat, n: nat)
    requires
        decimal(m) == decimal(n),
    ensures
        m == n,
{
    a_number_is_read_back(m, 0);
    a_number_is_read_back(n, 0);
}

/// A number that is spelled out, with or without a sign in front, is read as that number; one that is
/// too large for 64 bits is read as none.
pub proof fn a_spelled_number_is_parsed(n: nat)
    ensures
        n <= u64::MAX ==> u64_value(decimal(n)) == Some(n as u64) && u64_value(
            seq!['+'] + decimal(n),
        ) == Some(n as u64),
        n > u64::MAX ==> u64_value(decimal(n)) is None,
        u64_value(Seq::empty()) is None,
        u64_value(seq!['+']) is None,
        u64_value(seq!['-'] + decimal(n)) is None,
{
    a_number_is_read_back(n, 0);
    assert(is_digit(decimal(n)[0]));
    assert((seq!['+'] + decimal(n)).skip(1) =~= decimal(n));
    let minus = seq!['-'] + decimal(n);
    assert(minus[0] == '-');
    assert(unsigned_part(minus) == minus);
    assert(!all_digits(minus)) by {
        assert(!is_digit(minus[0]));
    }
}

/// A text holds each of its parts, begins with its first and ends with its last.
pub proof fn a_text_holds_its_parts(a: Seq<char>, b: Seq<char>, c: Seq<char>)
    ensures
        contains_text(a + b + c, b),
        has_prefix(a + b, a),
        (a + b).skip(a.len() as int) == b,
        has_suffix(a + b, b),
        (a + b).take((a + b).len() - b.len()) == a,
        contains_text(a, b) ==> b.len() <= a.len(),
{
    assert((a + b + c).subrange(a.len() as int, a.len() as int + b.len()) =~= b);
    assert(matches_at(a + b + c, b, a.len() as int));
    assert((a + b).subrange(0, 0 + a.len() as int) =~= a);
    assert((a + b).subrange((a + b).len() - b.len(), (a + b).len() - b.len() + b.len()) =~= b);
    assert((a + b).skip(a.len() as int) =~= b);
    assert((a + b).take((a + b).len() - b.len()) =~= a);
}

/// What follows the last separator holds none, and the text ends with it, right behind a separator or
/// from its very beginning.
pub proof fn what_follows_the_last_separator(s: Seq<char>, sep: char, i: int)
    ensures
        ({
            let rest = after_last(s, sep);
            let from = s.len() - rest.len();
            &&& 0 <= from
            &&& rest == s.skip(from)
            &&& 0 <= i < rest.len() ==> rest[i] != sep
            &&& from == 0 || s[from - 1] == sep
        }),
    decreases s.len(),
{
    if s.len() == 0 || s.last() == sep {
        assert(s.skip(s.len() as int) =~= Seq::empty());
    } else {
        what_follows_the_last_separator(s.drop_last(), sep, i);
        let rest = after_last(s, sep);
        assert(rest =~= s.skip(s.len() - rest.len()));
    }
}

} // verus!
