//! Character-level helpers shared by every renderer: decimal and hex
//! formatting, line splitting, padding and string comparison.

use vstd::prelude::*;

verus! {

broadcast use vstd::string::group_string_axioms;

/// `String::push` appends one character.
pub assume_specification[ std::string::String::push ](s: &mut std::string::String, ch: char)
    ensures
        final(s)@ == old(s)@.push(ch),
;

/// The characters of `s`, in order.
pub fn chars_of(s: &str) -> (v: Vec<char>)
    ensures
        v@ == s@,
{
    let mut v: Vec<char> = Vec::new();
    for c in iter: s.chars()
        invariant
            v@ == iter.seq().take(iter.index()),
            iter.seq() == s@,
    {
        v.push(c);
    }
    v
}


/// Whether two strings hold the same characters.
pub fn str_eq(a: &str, b: &str) -> (r: bool)
    ensures
        r == (a@ == b@),
{
    a.to_owned() == b.to_owned()
}

/// A new `String` holding the characters of `s`.
pub fn owned(s: &str) -> (r: String)
    ensures
        r@ == s@,
{
    s.to_owned()
}

/// The ASCII digit for a value below ten.
pub open spec fn digit_char(d: int) -> char {
    if d <= 0 { '0' } else if d == 1 { '1' } else if d == 2 { '2' } else if d == 3 { '3' }
    else if d == 4 { '4' } else if d == 5 { '5' } else if d == 6 { '6' } else if d == 7 { '7' }
    else if d == 8 { '8' } else { '9' }
}

/// The lowercase hexadecimal digit for a value below sixteen.
pub open spec fn hex_char(d: int) -> char {
    if d < 10 { digit_char(d) } else if d == 10 { 'a' } else if d == 11 { 'b' }
    else if d == 12 { 'c' } else if d == 13 { 'd' } else if d == 14 { 'e' } else { 'f' }
}

/// The decimal representation of `n`, without leading zeros.
pub open spec fn decimal(n: nat) -> Seq<char>
    decreases n,
{
    if n < 10 {
        seq![digit_char(n as int)]
    } else {
        decimal(n / 10).push(digit_char((n % 10) as int))
    }
}

/// The decimal representation of a signed integer, with a leading `-`
/// when it is negative.
pub open spec fn signed_decimal(n: int) -> Seq<char> {
    if n < 0 {
        seq!['-'] + decimal((-n) as nat)
    } else {
        decimal(n as nat)
    }
}

/// The `width` lowest hexadecimal digits of `n`, most significant first.
pub open spec fn hex_digits(n: nat, width: nat) -> Seq<char>
    decreases width,
{
    if width == 0 {
        Seq::empty()
    } else {
        hex_digits(n / 16, (width - 1) as nat).push(hex_char((n % 16) as int))
    }
}

fn digit(d: u64) -> (c: char)
    requires
        d < 16,
    ensures
        c == hex_char(d as int),
{
    if d == 0 { '0' } else if d == 1 { '1' } else if d == 2 { '2' } else if d == 3 { '3' }
    else if d == 4 { '4' } else if d == 5 { '5' } else if d == 6 { '6' } else if d == 7 { '7' }
    else if d == 8 { '8' } else if d == 9 { '9' } else if d == 10 { 'a' } else if d == 11 { 'b' }
    else if d == 12 { 'c' } else if d == 13 { 'd' } else if d == 14 { 'e' } else { 'f' }
}

/// Appends the decimal representation of `n` to `out`.
pub fn push_decimal(out: &mut String, n: u64)
    ensures
        final(out)@ == old(out)@ + decimal(n as nat),
    decreases n,
{
    if n < 10 {
        out.push(digit(n));
    } else {
        push_decimal(out, n / 10);
        out.push(digit(n % 10));
    }
}

/// The decimal representation of `n`.
pub fn decimal_string(n: u64) -> (s: String)
    ensures
        s@ == decimal(n as nat),
{
    let mut s = String::new();
    push_decimal(&mut s, n);
    s
}

/// Appends the decimal representation of a signed `n` to `out`.
pub fn push_signed_decimal(out: &mut String, n: i64)
    ensures
        final(out)@ == old(out)@ + signed_decimal(n as int),
{
    if n < 0 {
        out.push('-');
        let magnitude: u64 = (0i128 - n as i128) as u64;
        push_decimal(out, magnitude);
    } else {
        push_decimal(out, n as u64);
    }
}

/// Appends the `width` lowest hexadecimal digits of `n` to `out`,
/// zero-padded.
pub fn push_hex_digits(out: &mut String, n: u64, width: u64)
    ensures
        final(out)@ == old(out)@ + hex_digits(n as nat, width as nat),
    decreases width,
{
    if width > 0 {
        push_hex_digits(out, n / 16, width - 1);
        out.push(digit(n % 16));
    }
}

/// Whether `t` occurs in `s` as a contiguous piece.
pub open spec fn contains_text(s: Seq<char>, t: Seq<char>) -> bool {
    exists|i: int| 0 <= i && i + t.len() <= s.len() && #[trigger] s.subrange(i, i + t.len()) == t
}

/// A piece between two others occurs in their concatenation.
pub proof fn lemma_contains_middle(pre: Seq<char>, t: Seq<char>, post: Seq<char>)
    ensures
        contains_text(pre + t + post, t),
{
    let s = pre + t + post;
    assert(s.subrange(pre.len() as int, (pre.len() + t.len()) as int) =~= t);
}

/// Each of the four middle pieces of a six-piece concatenation occurs in
/// it.
pub proof fn lemma_contains_middle_pieces(
    a: Seq<char>,
    b: Seq<char>,
    c: Seq<char>,
    d: Seq<char>,
    e: Seq<char>,
    f: Seq<char>,
)
    ensures
        contains_text(a + b + c + d + e + f, b),
        contains_text(a + b + c + d + e + f, c),
        contains_text(a + b + c + d + e + f, d),
        contains_text(a + b + c + d + e + f, e),
{
    assert(a + b + c + d + e + f =~= a + b + (c + d + e + f));
    lemma_contains_middle(a, b, c + d + e + f);
    assert(a + b + c + d + e + f =~= (a + b) + c + (d + e + f));
    lemma_contains_middle(a + b, c, d + e + f);
    assert(a + b + c + d + e + f =~= (a + b + c) + d + (e + f));
    lemma_contains_middle(a + b + c, d, e + f);
    lemma_contains_middle(a + b + c + d, e, f);
}

/// `count` space characters.
pub open spec fn spaces(count: nat) -> Seq<char> {
    Seq::new(count, |_i: int| ' ')
}

/// `s` followed by enough spaces to make it at least `width` characters
/// long.
pub open spec fn pad_right(s: Seq<char>, width: nat) -> Seq<char> {
    if s.len() >= width {
        s
    } else {
        s + spaces((width - s.len()) as nat)
    }
}

/// Appends `s`, left-aligned in a field of `width` characters.
pub fn push_padded(out: &mut String, s: &str, width: usize)
    ensures
        final(out)@ == old(out)@ + pad_right(s@, width as nat),
{
    let ghost start = out@;
    out.append(s);
    let len = chars_of(s).len();
    let mut k: usize = len;
    while k < width
        invariant
            len == s@.len(),
            len <= k <= width || (len >= width && k == len),
            out@ == start + s@ + spaces((k - len) as nat),
        decreases width - k,
    {
        out.push(' ');
        k = k + 1;
        assert(spaces((k - len) as nat) =~= spaces((k - 1 - len) as nat).push(' '));
    }
    assert(out@ =~= start + pad_right(s@, width as nat));
}

/// One line as `str::lines` yields it: the text before a line feed, with
/// one trailing carriage return removed.
pub open spec fn strip_cr(line: Seq<char>) -> Seq<char> {
    if line.len() > 0 && line.last() == '\r' {
        line.drop_last()
    } else {
        line
    }
}

/// The lines of `s` as `str::lines` splits them: at each line feed, with
/// a carriage return right before the line feed removed, and no empty
/// final line after a trailing line feed.
pub open spec fn lines_of(s: Seq<char>) -> Seq<Seq<char>>
    decreases s.len(),
{
    lines_from(Seq::empty(), s)
}

/// The lines of `pending + rest`, where `pending` holds no line feed.
pub open spec fn lines_from(pending: Seq<char>, rest: Seq<char>) -> Seq<Seq<char>>
    decreases rest.len(),
{
    if rest.len() == 0 {
        if pending.len() == 0 { Seq::empty() } else { seq![pending] }
    } else if rest[0] == '\n' {
        seq![strip_cr(pending)] + lines_from(Seq::empty(), rest.drop_first())
    } else {
        lines_from(pending.push(rest[0]), rest.drop_first())
    }
}


/// Appends the first `n` characters of `chars`.
fn push_chars(out: &mut String, chars: &Vec<char>, n: usize)
    requires
        n <= chars@.len(),
    ensures
        final(out)@ == old(out)@ + chars@.take(n as int),
{
    let ghost start = out@;
    let mut i: usize = 0;
    while i < n
        invariant
            i <= n <= chars@.len(),
            out@ == start + chars@.take(i as int),
        decreases n - i,
    {
        out.push(chars[i]);
        assert(chars@.take(i + 1) =~= chars@.take(i as int).push(chars@[i as int]));
        i = i + 1;
    }
}

/// Each line as a nested Markdown bullet: two spaces, `- `, the line and
/// a line feed.
pub open spec fn bullets(lines: Seq<Seq<char>>) -> Seq<char>
    decreases lines.len(),
{
    if lines.len() == 0 {
        Seq::empty()
    } else {
        "  - "@ + lines[0] + "\n"@ + bullets(lines.drop_first())
    }
}

/// The bullets of two runs of lines are the bullets of each, in turn.
proof fn lemma_bullets_append(a: Seq<Seq<char>>, b: Seq<Seq<char>>)
    ensures
        bullets(a + b) == bullets(a) + bullets(b),
    decreases a.len(),
{
    if a.len() == 0 {
        assert(a + b =~= b);
        assert(bullets(a) + bullets(b) =~= bullets(b));
    } else {
        lemma_bullets_append(a.drop_first(), b);
        assert((a + b).drop_first() =~= a.drop_first() + b);
        assert(bullets(a + b) =~= bullets(a) + bullets(b));
    }
}

/// The bullets of a single line.
proof fn lemma_bullets_one(l: Seq<char>)
    ensures
        bullets(seq![l]) == "  - "@ + l + "\n"@,
{
    let one = seq![l];
    assert(one.drop_first() =~= Seq::<Seq<char>>::empty());
    assert(bullets(one.drop_first()) == Seq::<char>::empty());
    assert(bullets(one) == "  - "@ + one[0] + "\n"@ + bullets(one.drop_first()));
    assert(bullets(one) =~= "  - "@ + l + "\n"@);
}

/// Appends one bullet holding the first `n` characters of `line`.
fn push_bullet(out: &mut String, line: &Vec<char>, n: usize)
    requires
        n <= line@.len(),
    ensures
        final(out)@ == old(out)@ + bullets(seq![line@.take(n as int)]),
{
    let ghost start = out@;
    out.append("  - ");
    push_chars(out, line, n);
    out.append("\n");
    proof {
        lemma_bullets_one(line@.take(n as int));
        assert(out@ =~= start + ("  - "@ + line@.take(n as int) + "\n"@));
    }
}

/// Appends every line of `text` (as `str::lines` splits it) as a nested
/// Markdown bullet.
pub fn push_line_bullets(out: &mut String, text: &str)
    ensures
        final(out)@ == old(out)@ + bullets(lines_of(text@)),
{
    let ghost start = out@;
    let chars = chars_of(text);
    let mut pending: Vec<char> = Vec::new();
    let ghost mut emitted: Seq<Seq<char>> = Seq::empty();
    let mut i: usize = 0;
    assert(chars@.skip(0) =~= chars@);
    while i < chars.len()
        invariant
            chars@ == text@,
            i <= chars@.len(),
            out@ == start + bullets(emitted),
            lines_of(text@) == emitted + lines_from(pending@, chars@.skip(i as int)),
        decreases chars@.len() - i,
    {
        let c = chars[i];
        let ghost rest = chars@.skip(i as int);
        assert(rest[0] == c);
        assert(rest.drop_first() =~= chars@.skip(i + 1));
        if c == '\n' {
            let n = pending.len();
            let keep = if n > 0 && pending[n - 1] == '\r' { n - 1 } else { n };
            let ghost line = strip_cr(pending@);
            assert(pending@.take(keep as int) =~= line);
            proof {
                lemma_bullets_append(emitted, seq![line]);
                assert(emitted + seq![line] + lines_from(Seq::empty(), chars@.skip(i + 1))
                    =~= emitted + (seq![line] + lines_from(Seq::empty(), chars@.skip(i + 1))));
            }
            push_bullet(out, &pending, keep);
            proof {
                emitted = emitted + seq![line];
            }
            pending = Vec::new();
            assert(pending@ =~= Seq::<char>::empty());
        } else {
            pending.push(c);
        }
        i = i + 1;
    }
    if pending.len() > 0 {
        let n = pending.len();
        proof {
            lemma_bullets_append(emitted, seq![pending@]);
            assert(pending@.take(n as int) =~= pending@);
        }
        push_bullet(out, &pending, n);
        proof {
            emitted = emitted + seq![pending@];
        }
    }
    proof {
        assert(chars@.skip(i as int) =~= Seq::<char>::empty());
        assert(emitted + Seq::<Seq<char>>::empty() =~= emitted);
    }
}

} // verus!
