//! Building text: decimal numbers, characters of a string, padding.

use vstd::prelude::*;

verus! {

/// `String::push` of the standard library appends one character at the end of the string and
/// changes nothing else of it.
pub assume_specification[ String::push ](s: &mut String, c: char)
    ensures
        final(s)@ == old(s)@.push(c),
;

/// The character of a digit below ten.
pub open spec fn digit(d: nat) -> char {
    if d == 0 {
        '0'
    } else if d == 1 {
        '1'
    } else if d == 2 {
        '2'
    } else if d == 3 {
        '3'
    } else if d == 4 {
        '4'
    } else if d == 5 {
        '5'
    } else if d == 6 {
        '6'
    } else if d == 7 {
        '7'
    } else if d == 8 {
        '8'
    } else {
        '9'
    }
}

/// The number in decimal notation, without leading zeros.
pub open spec fn decimal_text(n: nat) -> Seq<char>
    decreases n,
{
    if n < 10 {
        seq![digit(n)]
    } else {
        decimal_text(n / 10).push(digit(n % 10))
    }
}

/// Writes a number in decimal notation.
pub fn decimal(n: u64) -> (r: String)
    ensures
        r@ == decimal_text(n as nat),
    decreases n,
{
    let last: u64 = n % 10;
    let c: char = if last == 0 {
        '0'
    } else if last == 1 {
        '1'
    } else if last == 2 {
        '2'
    } else if last == 3 {
        '3'
    } else if last == 4 {
        '4'
    } else if last == 5 {
        '5'
    } else if last == 6 {
        '6'
    } else if last == 7 {
        '7'
    } else if last == 8 {
        '8'
    } else {
        '9'
    };
    let mut out = if n < 10 {
        String::new()
    } else {
        decimal(n / 10)
    };
    out.push(c);
    out
}

/// The characters of a string, in order.
pub fn chars_of(s: &str) -> (r: Vec<char>)
    ensures
        r@ == s@,
{
    let mut out: Vec<char> = Vec::new();
    for c in it: s.chars()
        invariant
            it.seq() == s@,
            out@ == it.seq().take(it.index()),
    {
        out.push(c);
    }
    out
}

/// The character `c`, `n` times over.
pub open spec fn repeated(c: char, n: nat) -> Seq<char> {
    Seq::new(n, |i: int| c)
}

/// Appends `n` copies of the character `c`.
pub fn push_repeated(out: &mut String, c: char, n: usize)
    ensures
        final(out)@ == old(out)@ + repeated(c, n as nat),
{
    let mut i: usize = 0;
    while i < n
        invariant
            i <= n,
            out@ == old(out)@ + repeated(c, i as nat),
        decreases n - i,
    {
        out.push(c);
        i += 1;
        assert(out@ =~= old(out)@ + repeated(c, i as nat));
    }
}

/// The text followed by as many blanks as bring it to `width` characters; a longer text is
/// left as it is.
pub open spec fn padded(s: Seq<char>, width: nat) -> Seq<char> {
    s + repeated(' ', if s.len() < width { (width - s.len()) as nat } else { 0 })
}

/// Pads a text with blanks on the right.
pub fn pad_right(s: &str, width: usize) -> (r: String)
    ensures
        r@ == padded(s@, width as nat),
{
    let len: usize = chars_of(s).len();
    let mut out = s.to_owned();
    push_repeated(&mut out, ' ', if len < width { width - len } else { 0 });
    out
}

/// The pieces of text that the items of a sequence give, one behind the other.
pub open spec fn joined<A>(items: Seq<A>, piece: spec_fn(A) -> Seq<char>) -> Seq<char>
    decreases items.len(),
{
    if items.len() == 0 {
        Seq::empty()
    } else {
        joined(items.drop_last(), piece) + piece(items.last())
    }
}

/// One more item adds its piece at the end.
pub proof fn lemma_joined_one_more<A>(items: Seq<A>, piece: spec_fn(A) -> Seq<char>, i: int)
    requires
        0 <= i < items.len(),
    ensures
        joined(items.take(i + 1), piece) == joined(items.take(i), piece) + piece(items[i]),
{
    assert(items.take(i + 1).drop_last() =~= items.take(i));
}

/// The first item's piece stands in front of all others.
pub proof fn lemma_joined_first<A>(items: Seq<A>, piece: spec_fn(A) -> Seq<char>)
    requires
        items.len() > 0,
    ensures
        joined(items, piece) == piece(items[0]) + joined(items.drop_first(), piece),
    decreases items.len(),
{
    let rest = items.drop_first();
    if items.len() == 1 {
        assert(items.drop_last() =~= Seq::<A>::empty());
        assert(rest =~= Seq::<A>::empty());
        assert(joined(items, piece) =~= piece(items[0]) + joined(rest, piece));
    } else {
        lemma_joined_first(items.drop_last(), piece);
        assert(items.drop_last().drop_first() =~= rest.drop_last());
        assert(joined(items, piece) =~= piece(items[0]) + joined(rest, piece));
    }
}

/// The text of two sequences, one behind the other, is made of their two texts.
pub proof fn law_joined_in_two_parts<A>(a: Seq<A>, b: Seq<A>, piece: spec_fn(A) -> Seq<char>)
    ensures
        joined(a + b, piece) == joined(a, piece) + joined(b, piece),
    decreases b.len(),
{
    if b.len() == 0 {
        assert(a + b =~= a);
        assert(joined(a, piece) + joined(b, piece) =~= joined(a, piece));
    } else {
        law_joined_in_two_parts(a, b.drop_last(), piece);
        assert((a + b).drop_last() =~= a + b.drop_last());
        assert(joined(a + b, piece) =~= joined(a, piece) + joined(b, piece));
    }
}

/// The number that a row of decimal digits stands for.
pub open spec fn decimal_value(s: Seq<char>) -> nat
    decreases s.len(),
{
    if s.len() == 0 {
        0
    } else {
        decimal_value(s.drop_last()) * 10 + (s.last() as nat - '0' as nat) as nat
    }
}

/// Reading a number's decimal text gives the number back, so different numbers never share a
/// text.
pub proof fn law_decimal_reads_back(n: nat)
    ensures
        decimal_value(decimal_text(n)) == n,
    decreases n,
{
    if n < 10 {
        assert(decimal_text(n).drop_last() =~= Seq::<char>::empty());
        assert(decimal_text(n).last() == digit(n));
        assert(decimal_value(Seq::<char>::empty()) == 0);
    } else {
        law_decimal_reads_back(n / 10);
        assert(decimal_text(n).drop_last() =~= decimal_text(n / 10));
        assert(decimal_text(n).last() == digit(n % 10));
    }
}

} // verus!
