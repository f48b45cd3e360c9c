//! Character-level helpers on strings: comparison, prefixes and suffixes,
//! case conversion and decimal rendering.

use vstd::prelude::*;

verus! {

/// `String::push` of std: appends one character at the end.
#[verifier::external_body]
pub(crate) fn push_char(s: &mut String, c: char)
    ensures
        final(s)@ == old(s)@.push(c),
{
    s.push(c);
}

/// Whether two strings hold the same characters.
pub fn str_eq(a: &str, b: &str) -> (r: bool)
    ensures
        r == (a@ == b@),
{
    let n = a.unicode_len();
    let m = b.unicode_len();
    if n != m {
        return false;
    }
    let mut i: usize = 0;
    while i < n
        invariant
            n == a@.len(),
            m == b@.len(),
            n == m,
            i <= n,
            forall|j: int| 0 <= j < i ==> a@[j] == b@[j],
        decreases n - i,
    {
        if a.get_char(i) != b.get_char(i) {
            return false;
        }
        i += 1;
    }
    assert(a@ =~= b@);
    true
}

/// Whether `p` is a prefix of `s`.
pub fn starts_with(s: &str, p: &str) -> (r: bool)
    ensures
        r == p@.is_prefix_of(s@),
{
    let n = s.unicode_len();
    let m = p.unicode_len();
    if m > n {
        return false;
    }
    let mut i: usize = 0;
    while i < m
        invariant
            n == s@.len(),
            m == p@.len(),
            m <= n,
            i <= m,
            forall|j: int| 0 <= j < i ==> s@[j] == p@[j],
        decreases m - i,
    {
        if s.get_char(i) != p.get_char(i) {
            assert(s@.subrange(0, m as int)[i as int] != p@[i as int]);
            return false;
        }
        i += 1;
    }
    assert(p@ =~= s@.subrange(0, m as int));
    true
}

/// Whether `p` is a suffix of `s`.
pub fn ends_with(s: &str, p: &str) -> (r: bool)
    ensures
        r == p@.is_suffix_of(s@),
{
    let n = s.unicode_len();
    let m = p.unicode_len();
    if m > n {
        return false;
    }
    let d = n - m;
    let mut i: usize = 0;
    while i < m
        invariant
            n == s@.len(),
            m == p@.len(),
            m <= n,
            d == n - m,
            i <= m,
            forall|j: int| 0 <= j < i ==> s@[d + j] == p@[j],
        decreases m - i,
    {
        if s.get_char(d + i) != p.get_char(i) {
            assert(s@.subrange(d as int, n as int)[i as int] != p@[i as int]);
            return false;
        }
        i += 1;
    }
    assert(p@ =~= s@.subrange(d as int, n as int));
    true
}

/// The ASCII upper-case form of a character; other characters are kept.
pub open spec fn upper(c: char) -> char {
    if 'a' <= c <= 'z' {
        ((c as int) - 32) as char
    } else {
        c
    }
}

/// The ASCII lower-case form of a character; other characters are kept.
pub open spec fn lower(c: char) -> char {
    if 'A' <= c <= 'Z' {
        ((c as int) + 32) as char
    } else {
        c
    }
}

/// Whether a character is an ASCII upper-case letter.
pub open spec fn is_upper(c: char) -> bool {
    'A' <= c <= 'Z'
}

fn to_upper(c: char) -> (r: char)
    ensures
        r == upper(c),
{
    if 'a' <= c && c <= 'z' {
        let b: u8 = c as u8;
        ((b - 32) as u8) as char
    } else {
        c
    }
}

fn to_lower(c: char) -> (r: char)
    ensures
        r == lower(c),
{
    if 'A' <= c && c <= 'Z' {
        let b: u8 = c as u8;
        ((b + 32) as u8) as char
    } else {
        c
    }
}

/// Upper camel case of a snake-case name: underscores are dropped and the
/// first character, and each character after an underscore, is upper-cased.
/// `up` says whether the next kept character starts a word.
pub open spec fn pascal_from(s: Seq<char>, up: bool) -> Seq<char>
    decreases s.len(),
{
    if s.len() == 0 {
        Seq::empty()
    } else if s[0] == '_' {
        pascal_from(s.drop_first(), true)
    } else {
        seq![if up { upper(s[0]) } else { s[0] }] + pascal_from(s.drop_first(), false)
    }
}

/// Upper camel case of a name (`player_name` gives `PlayerName`).
pub open spec fn pascal(s: Seq<char>) -> Seq<char> {
    pascal_from(s, true)
}

/// Snake case of a camel-case name: each ASCII upper-case letter is
/// lower-cased, and preceded by an underscore unless it comes first.
/// `first` says whether `s` starts the name.
pub open spec fn snake_from(s: Seq<char>, first: bool) -> Seq<char>
    decreases s.len(),
{
    if s.len() == 0 {
        Seq::empty()
    } else if is_upper(s[0]) && !first {
        seq!['_', lower(s[0])] + snake_from(s.drop_first(), false)
    } else {
        seq![lower(s[0])] + snake_from(s.drop_first(), false)
    }
}

/// Snake case of a name (`GoodMorning` gives `good_morning`).
pub open spec fn snake(s: Seq<char>) -> Seq<char> {
    snake_from(s, true)
}

/// Appends the upper camel case of `s` to `out`.
pub fn push_pascal(out: &mut String, s: &str)
    ensures
        final(out)@ == old(out)@ + pascal(s@),
{
    let n = s.unicode_len();
    let mut i: usize = 0;
    let mut up = true;
    assert(s@.skip(0) =~= s@);
    while i < n
        invariant
            n == s@.len(),
            i <= n,
            out@ + pascal_from(s@.skip(i as int), up) == old(out)@ + pascal(s@),
        decreases n - i,
    {
        let c = s.get_char(i);
        let ghost rest = s@.skip(i as int);
        assert(rest[0] == c);
        assert(rest.drop_first() =~= s@.skip(i + 1));
        if c == '_' {
            up = true;
        } else {
            let d = if up { to_upper(c) } else { c };
            let ghost before = out@;
            push_char(out, d);
            assert(out@ + pascal_from(s@.skip(i + 1), false) =~= before + (seq![d] + pascal_from(s@.skip(i + 1), false)));
            up = false;
        }
        i += 1;
    }
    assert(s@.skip(n as int) =~= Seq::<char>::empty());
    assert(out@ + Seq::<char>::empty() =~= out@);
}

/// Appends the snake case of `s` to `out`.
pub fn push_snake(out: &mut String, s: &str)
    ensures
        final(out)@ == old(out)@ + snake(s@),
{
    let n = s.unicode_len();
    let mut i: usize = 0;
    assert(s@.skip(0) =~= s@);
    while i < n
        invariant
            n == s@.len(),
            i <= n,
            out@ + snake_from(s@.skip(i as int), i == 0) == old(out)@ + snake(s@),
        decreases n - i,
    {
        let c = s.get_char(i);
        let ghost rest = s@.skip(i as int);
        assert(rest[0] == c);
        assert(rest.drop_first() =~= s@.skip(i + 1));
        let ghost before = out@;
        if 'A' <= c && c <= 'Z' && i != 0 {
            push_char(out, '_');
            push_char(out, to_lower(c));
            assert(out@ + snake_from(s@.skip(i + 1), false) =~= before + (seq!['_', lower(c)] + snake_from(s@.skip(i + 1), false)));
        } else {
            push_char(out, to_lower(c));
            assert(out@ + snake_from(s@.skip(i + 1), false) =~= before + (seq![lower(c)] + snake_from(s@.skip(i + 1), false)));
        }
        i += 1;
    }
    assert(s@.skip(n as int) =~= Seq::<char>::empty());
    assert(out@ + Seq::<char>::empty() =~= out@);
}

/// The decimal digit character of `d < 10`.
pub open spec fn digit(d: nat) -> char {
    (('0' as nat) + d) as char
}

/// The decimal rendering of a number, without leading zeros.
pub open spec fn decimal(n: nat) -> Seq<char>
    decreases n,
{
    if n < 10 {
        seq![digit(n)]
    } else {
        decimal(n / 10) + seq![digit(n % 10)]
    }
}

/// Appends the decimal rendering of `n` to `out`.
pub fn push_decimal(out: &mut String, n: usize)
    ensures
        final(out)@ == old(out)@ + decimal(n as nat),
    decreases n,
{
    if n >= 10 {
        push_decimal(out, n / 10);
    }
    let d: u8 = (n % 10) as u8;
    let c: char = (48u8 + d) as char;
    assert(c == digit((n % 10) as nat));
    let ghost before = out@;
    push_char(out, c);
    if n >= 10 {
        assert(out@ =~= old(out)@ + decimal(n as nat));
    } else {
        assert(out@ =~= old(out)@ + decimal(n as nat));
    }
}

/// Taking one more element of a sequence adds that element at the end.
pub proof fn lemma_take_step<A>(s: Seq<A>, i: int)
    requires
        0 <= i < s.len(),
    ensures
        s.take(i + 1).drop_last() == s.take(i),
        s.take(i + 1).last() == s[i],
        s.take(i + 1).len() == i + 1,
{
    assert(s.take(i + 1).drop_last() =~= s.take(i));
}

/// `t` stands in `s` from position `i` on.
pub open spec fn stands_at(s: Seq<char>, t: Seq<char>, i: int) -> bool {
    &&& 0 <= i
    &&& i + t.len() <= s.len()
    &&& s.subrange(i, i + t.len()) == t
}

/// `t` stands somewhere in `s`.
pub open spec fn occurs_in(t: Seq<char>, s: Seq<char>) -> bool {
    exists|i: int| stands_at(s, t, i)
}

/// A text occurs in itself.
pub proof fn lemma_occurs_self(t: Seq<char>)
    ensures
        occurs_in(t, t),
{
    assert(t.subrange(0, t.len() as int) =~= t);
    assert(stands_at(t, t, 0));
}

/// What occurs in a text occurs in it with more text after it or before it.
pub proof fn lemma_occurs_extend(t: Seq<char>, a: Seq<char>, b: Seq<char>)
    ensures
        occurs_in(t, a) ==> occurs_in(t, a + b),
        occurs_in(t, b) ==> occurs_in(t, a + b),
{
    if occurs_in(t, a) {
        let i = choose|i: int| stands_at(a, t, i);
        assert((a + b).subrange(i, i + t.len()) =~= a.subrange(i, i + t.len()));
        assert(stands_at(a + b, t, i));
    }
    if occurs_in(t, b) {
        let i = choose|i: int| stands_at(b, t, i);
        let j = a.len() + i;
        assert((a + b).subrange(j, j + t.len()) =~= b.subrange(i, i + t.len()));
        assert(stands_at(a + b, t, j));
    }
}

/// What occurs in a part of a text occurs in the text.
pub proof fn lemma_occurs_trans(t: Seq<char>, u: Seq<char>, s: Seq<char>)
    requires
        occurs_in(t, u),
        occurs_in(u, s),
    ensures
        occurs_in(t, s),
{
    let i = choose|i: int| stands_at(u, t, i);
    let j = choose|j: int| stands_at(s, u, j);
    assert(s.subrange(j + i, j + i + t.len()) =~= u.subrange(i, i + t.len())) by {
        assert(s.subrange(j, j + u.len()) == u);
        assert forall|k: int| 0 <= k < t.len() implies #[trigger] s.subrange(j + i, j + i + t.len())[k]
            == u.subrange(i, i + t.len())[k] by {
            assert(s.subrange(j, j + u.len())[i + k] == s[j + i + k]);
        }
    }
    assert(stands_at(s, t, j + i));
}

/// A prefix of a text occurs in it.
pub proof fn lemma_prefix_occurs(t: Seq<char>, s: Seq<char>)
    requires
        t.is_prefix_of(s),
    ensures
        occurs_in(t, s),
{
    assert(s.subrange(0, t.len() as int) =~= t);
    assert(stands_at(s, t, 0));
}

/// How often the character `c` stands in `s`.
pub open spec fn count_char(s: Seq<char>, c: char) -> nat
    decreases s.len(),
{
    if s.len() == 0 {
        0
    } else {
        count_char(s.drop_last(), c) + if s.last() == c { 1nat } else { 0nat }
    }
}

/// Counting characters adds up over concatenation.
pub proof fn lemma_count_char_concat(a: Seq<char>, b: Seq<char>, c: char)
    ensures
        count_char(a + b, c) == count_char(a, c) + count_char(b, c),
    decreases b.len(),
{
    if b.len() > 0 {
        assert((a + b).drop_last() =~= a + b.drop_last());
        lemma_count_char_concat(a, b.drop_last(), c);
    } else {
        assert(a + b =~= a);
    }
}

/// A decimal rendering holds digits only.
pub proof fn lemma_decimal_digits(n: nat)
    ensures
        forall|k: int| 0 <= k < decimal(n).len() ==> '0' <= #[trigger] decimal(n)[k] <= '9',
        decimal(n).len() > 0,
    decreases n,
{
    if n >= 10 {
        lemma_decimal_digits(n / 10);
    }
}

/// A text of digits has no character outside the digits.
pub proof fn lemma_count_char_digits(s: Seq<char>, c: char)
    requires
        !('0' <= c <= '9'),
        forall|k: int| 0 <= k < s.len() ==> '0' <= #[trigger] s[k] <= '9',
    ensures
        count_char(s, c) == 0,
    decreases s.len(),
{
    if s.len() > 0 {
        lemma_count_char_digits(s.drop_last(), c);
    }
}

} // verus!
