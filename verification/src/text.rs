//! Character-level helpers: decimal numerals, marker letters, and the
//! splitting of a line of text into trimmed, non-empty tokens.

use vstd::prelude::*;
use vstd::string::*;

verus! {

/// `String::push` appends one character.
pub assume_specification[ String::push ](s: &mut String, c: char)
    ensures
        final(s)@ == old(s)@.push(c),
;

/// `str`'s `==` compares the two slices character by character.
pub assume_specification[ <str as PartialEq>::eq ](a: &str, b: &str) -> (r: bool)
    ensures
        r == (a@ == b@),
;

/// Whether `c` has the Unicode property `White_Space`: the space, the
/// five controls from U+0009 to U+000D, the next-line control, the
/// no-break spaces, the spaces of fixed width, and the two separators of
/// lines and paragraphs.
pub open spec fn white_space(c: char) -> bool {
    let u = c as u32;
    ||| 0x0009 <= u <= 0x000d
    ||| u == 0x0020
    ||| u == 0x0085
    ||| u == 0x00a0
    ||| u == 0x1680
    ||| 0x2000 <= u <= 0x200a
    ||| u == 0x2028
    ||| u == 0x2029
    ||| u == 0x202f
    ||| u == 0x205f
    ||| u == 0x3000
}

/// `char::is_whitespace` tells whether the character has the Unicode
/// property `White_Space`.
pub assume_specification[ char::is_whitespace ](c: char) -> (b: bool)
    ensures
        b == white_space(c),
;

/// The character that writes the digit `d`, for `d < 10`.
pub open spec fn digit_char(d: nat) -> char {
    (('0' as u8) + d) as char
}

/// The decimal numeral of `n`, without sign or leading zeros; `"0"` for zero.
pub open spec fn decimal(n: nat) -> Seq<char>
    decreases n,
{
    if n < 10 {
        seq![digit_char(n)]
    } else {
        decimal(n / 10).push(digit_char(n % 10))
    }
}

/// The `j`-th capital letter, counting from `A` as zero, for `j < 26`.
pub open spec fn letter(j: nat) -> char {
    (('A' as u8) + j) as char
}

/// `s` without its leading white space.
pub open spec fn trim_start(s: Seq<char>) -> Seq<char>
    decreases s.len(),
{
    if s.len() > 0 && white_space(s[0]) {
        trim_start(s.skip(1))
    } else {
        s
    }
}

/// `s` without its trailing white space.
pub open spec fn trim_end(s: Seq<char>) -> Seq<char>
    decreases s.len(),
{
    if s.len() > 0 && white_space(s.last()) {
        trim_end(s.drop_last())
    } else {
        s
    }
}

/// `s` without leading and trailing white space.
pub open spec fn trim(s: Seq<char>) -> Seq<char> {
    trim_end(trim_start(s))
}

/// The pieces of `s` between occurrences of `sep`. There is always one piece
/// more than there are separators, so the empty text has one empty piece.
pub open spec fn split(s: Seq<char>, sep: char) -> Seq<Seq<char>>
    decreases s.len(),
{
    if s.len() == 0 {
        seq![Seq::<char>::empty()]
    } else {
        let before = split(s.drop_last(), sep);
        if s.last() == sep {
            before.push(Seq::<char>::empty())
        } else {
            before.drop_last().push(before.last().push(s.last()))
        }
    }
}

/// The pieces trimmed, and those dropped that are empty after trimming.
pub open spec fn trimmed_nonempty(pieces: Seq<Seq<char>>) -> Seq<Seq<char>>
    decreases pieces.len(),
{
    if pieces.len() == 0 {
        Seq::<Seq<char>>::empty()
    } else {
        let before = trimmed_nonempty(pieces.drop_last());
        let t = trim(pieces.last());
        if t.len() > 0 {
            before.push(t)
        } else {
            before
        }
    }
}

/// The tokens of `s`: its pieces between separators, trimmed, without the
/// empty ones.
pub open spec fn tokens(s: Seq<char>, sep: char) -> Seq<Seq<char>> {
    trimmed_nonempty(split(s, sep))
}

/// The views of a list of strings.
pub open spec fn views(v: Seq<String>) -> Seq<Seq<char>> {
    v.map_values(|s: String| s@)
}

/// The parts one after another, with `sep` between each two.
pub open spec fn joined(parts: Seq<Seq<char>>, sep: Seq<char>) -> Seq<char>
    decreases parts.len(),
{
    if parts.len() == 0 {
        Seq::<char>::empty()
    } else if parts.len() == 1 {
        parts[0]
    } else {
        joined(parts.drop_last(), sep) + sep + parts.last()
    }
}

/// Each character as a text of its own.
pub open spec fn singletons(chars: Seq<char>) -> Seq<Seq<char>> {
    Seq::new(chars.len(), |j: int| seq![chars[j]])
}

/// The first `n` marker letters: `A`, `B`, `C`, ...
pub open spec fn marker_chars(n: nat) -> Seq<char> {
    Seq::new(n, |j: int| letter(j as nat))
}

/// The first `n` marker letters, each as a name.
pub open spec fn marker_names(n: nat) -> Seq<Seq<char>> {
    singletons(marker_chars(n))
}

/// The name of slot `j`: `f0`, `f1`, ...
pub open spec fn slot_name(j: nat) -> Seq<char> {
    "f"@ + decimal(j)
}

/// The names of the first `n` slots.
pub open spec fn slot_names(n: nat) -> Seq<Seq<char>> {
    Seq::new(n, |j: int| slot_name(j as nat))
}

/// How `c` is written inside a string literal.
pub open spec fn escaped_char(c: char) -> Seq<char> {
    if c == '"' {
        seq!['\\', '"']
    } else if c == '\\' {
        seq!['\\', '\\']
    } else if c == '\n' {
        seq!['\\', 'n']
    } else if c == '\r' {
        seq!['\\', 'r']
    } else if c == '\t' {
        seq!['\\', 't']
    } else {
        seq![c]
    }
}

/// How the characters of `s` are written inside a string literal.
pub open spec fn escaped(s: Seq<char>) -> Seq<char>
    decreases s.len(),
{
    if s.len() == 0 {
        Seq::<char>::empty()
    } else {
        escaped(s.drop_last()) + escaped_char(s.last())
    }
}

/// The character that stands after a backslash for `c`.
pub open spec fn escape_value(c: char) -> char {
    if c == 'n' {
        '\n'
    } else if c == 'r' {
        '\r'
    } else if c == 't' {
        '\t'
    } else {
        c
    }
}

/// What the inside of a string literal denotes: read from the left, a
/// backslash and the character after it stand for one character, and any
/// other character for itself.
pub open spec fn unescaped(s: Seq<char>) -> Seq<char>
    decreases s.len(),
{
    if s.len() == 0 {
        Seq::<char>::empty()
    } else if s[0] == '\\' && s.len() >= 2 {
        seq![escape_value(s[1])] + unescaped(s.skip(2))
    } else {
        seq![s[0]] + unescaped(s.skip(1))
    }
}

/// The string literal that denotes `s`.
pub open spec fn string_literal(s: Seq<char>) -> Seq<char> {
    seq!['"'] + escaped(s) + seq!['"']
}

/// Appends the decimal numeral of `n` to `out`.
pub fn push_decimal(out: &mut String, n: usize)
    ensures
        final(out)@ == old(out)@ + decimal(n as nat),
    decreases n,
{
    if n < 10 {
        let b: u8 = 48u8 + (n as u8);
        out.push(b as char);
        assert(out@ =~= old(out)@ + decimal(n as nat));
    } else {
        push_decimal(out, n / 10);
        let b: u8 = 48u8 + ((n % 10) as u8);
        out.push(b as char);
        assert(out@ =~= old(out)@ + decimal(n as nat));
    }
}

/// The `j`-th capital letter.
pub fn letter_of(j: usize) -> (c: char)
    requires
        j < 26,
    ensures
        c == letter(j as nat),
{
    let b: u8 = 65u8 + (j as u8);
    b as char
}

/// The characters of `s`, in order.
pub fn chars_of(s: &str) -> (v: Vec<char>)
    ensures
        v@ == s@,
{
    let mut v: Vec<char> = Vec::new();
    for c in it: s.chars()
        invariant
            v@ == it.seq().take(it.index() as int),
            it.seq() == s@,
    {
        v.push(c);
    }
    v
}

/// The string made of the characters `v[lo..hi]`.
pub fn string_of(v: &Vec<char>, lo: usize, hi: usize) -> (s: String)
    requires
        lo <= hi <= v.len(),
    ensures
        s@ == v@.subrange(lo as int, hi as int),
{
    let mut s = String::new();
    let mut i: usize = lo;
    while i < hi
        invariant
            lo <= i <= hi <= v.len(),
            s@ == v@.subrange(lo as int, i as int),
        decreases hi - i,
    {
        s.push(v[i]);
        i = i + 1;
        assert(s@ =~= v@.subrange(lo as int, i as int));
    }
    s
}

/// Appends `s` to the list `v`.
pub fn push_text(v: &mut Vec<String>, s: String)
    ensures
        views(final(v)@) == views(old(v)@).push(s@),
{
    v.push(s);
    assert(views(v@) =~= views(old(v)@).push(s@));
}

/// The strings of `parts` one after another, with `sep` between each two.
pub fn join(parts: &Vec<String>, sep: &str) -> (out: String)
    ensures
        out@ == joined(views(parts@), sep@),
{
    let mut out = String::new();
    let mut j: usize = 0;
    while j < parts.len()
        invariant
            j <= parts.len(),
            out@ == joined(views(parts@).take(j as int), sep@),
        decreases parts.len() - j,
    {
        let ghost head = views(parts@).take(j + 1);
        assert(head.drop_last() =~= views(parts@).take(j as int));
        assert(head.last() == parts@[j as int]@);
        if j > 0 {
            out.append(sep);
        }
        out.append(parts[j].as_str());
        j = j + 1;
        assert(out@ =~= joined(head, sep@));
    }
    assert(views(parts@).take(parts.len() as int) =~= views(parts@));
    out
}

/// Each character of `chars` as a string of its own.
pub fn singleton_strings(chars: &Vec<char>) -> (out: Vec<String>)
    ensures
        views(out@) == singletons(chars@),
{
    let mut out: Vec<String> = Vec::new();
    let mut j: usize = 0;
    while j < chars.len()
        invariant
            j <= chars.len(),
            views(out@) == singletons(chars@.take(j as int)),
        decreases chars.len() - j,
    {
        let mut one = String::new();
        one.push(chars[j]);
        let ghost before = out@;
        assert(one@ =~= seq![chars@[j as int]]);
        out.push(one);
        assert(views(out@) =~= views(before).push(one@));
        j = j + 1;
        assert(views(out@) =~= singletons(chars@.take(j as int)));
    }
    assert(chars@.take(chars.len() as int) =~= chars@);
    out
}

/// The first `n` marker letters.
pub fn marker_chars_of(n: usize) -> (out: Vec<char>)
    requires
        n <= 26,
    ensures
        out@ == marker_chars(n as nat),
{
    let mut out: Vec<char> = Vec::new();
    let mut j: usize = 0;
    while j < n
        invariant
            j <= n <= 26,
            out@ == marker_chars(j as nat),
        decreases n - j,
    {
        out.push(letter_of(j));
        j = j + 1;
        assert(out@ =~= marker_chars(j as nat));
    }
    out
}

/// The name of slot `j`.
pub fn slot_name_of(j: usize) -> (out: String)
    ensures
        out@ == slot_name(j as nat),
{
    let mut out = String::from_str("f");
    push_decimal(&mut out, j);
    out
}

/// The names of the first `n` slots.
pub fn slot_names_of(n: usize) -> (out: Vec<String>)
    ensures
        views(out@) == slot_names(n as nat),
{
    let mut out: Vec<String> = Vec::new();
    let mut j: usize = 0;
    while j < n
        invariant
            j <= n,
            views(out@) == slot_names(j as nat),
        decreases n - j,
    {
        let name = slot_name_of(j);
        let ghost before = out@;
        out.push(name);
        assert(views(out@) =~= views(before).push(name@));
        j = j + 1;
        assert(views(out@) =~= slot_names(j as nat));
    }
    out
}

/// The string literal that denotes `s`.
pub fn string_literal_of(s: &str) -> (out: String)
    ensures
        out@ == string_literal(s@),
{
    let v = chars_of(s);
    let mut out = String::new();
    out.push('"');
    let mut j: usize = 0;
    assert(out@ =~= seq!['"'] + escaped(v@.take(0)));
    while j < v.len()
        invariant
            j <= v.len(),
            out@ == seq!['"'] + escaped(v@.take(j as int)),
        decreases v.len() - j,
    {
        let c = v[j];
        assert(v@.take(j + 1).drop_last() =~= v@.take(j as int));
        if c == '"' {
            out.push('\\');
            out.push('"');
        } else if c == '\\' {
            out.push('\\');
            out.push('\\');
        } else if c == '\n' {
            out.push('\\');
            out.push('n');
        } else if c == '\r' {
            out.push('\\');
            out.push('r');
        } else if c == '\t' {
            out.push('\\');
            out.push('t');
        } else {
            out.push(c);
        }
        j = j + 1;
        assert(out@ =~= seq!['"'] + escaped(v@.take(j as int)));
    }
    assert(v@.take(v.len() as int) =~= v@);
    out.push('"');
    assert(out@ =~= string_literal(s@));
    out
}

/// The bounds of `trim(v[lo..hi])` inside `v`.
pub fn trim_range(v: &Vec<char>, lo: usize, hi: usize) -> (r: (usize, usize))
    requires
        lo <= hi <= v.len(),
    ensures
        lo <= r.0 <= r.1 <= hi,
        v@.subrange(r.0 as int, r.1 as int) == trim(v@.subrange(lo as int, hi as int)),
{
    let ghost whole = v@.subrange(lo as int, hi as int);
    let mut a: usize = lo;
    while a < hi && v[a].is_whitespace()
        invariant
            lo <= a <= hi <= v.len(),
            trim_start(whole) == trim_start(v@.subrange(a as int, hi as int)),
        decreases hi - a,
    {
        assert(v@.subrange(a as int, hi as int).skip(1) =~= v@.subrange(a + 1, hi as int));
        a = a + 1;
    }
    assert(trim_start(whole) == v@.subrange(a as int, hi as int));
    let ghost front = v@.subrange(a as int, hi as int);
    let mut b: usize = hi;
    while a < b && v[b - 1].is_whitespace()
        invariant
            a <= b <= hi <= v.len(),
            trim_end(front) == trim_end(v@.subrange(a as int, b as int)),
        decreases b - a,
    {
        assert(v@.subrange(a as int, b as int).drop_last() =~= v@.subrange(a as int, b - 1));
        b = b - 1;
    }
    (a, b)
}

/// The pieces of `s` between occurrences of `sep`, in order.
pub fn split_text(s: &str, sep: char) -> (out: Vec<String>)
    ensures
        views(out@) == split(s@, sep),
{
    let v = chars_of(s);
    let mut out: Vec<String> = Vec::new();
    let mut start: usize = 0;
    let mut i: usize = 0;
    assert(v@.take(0) =~= Seq::<char>::empty());
    assert(v@.subrange(0, 0) =~= Seq::<char>::empty());
    assert(views(out@) =~= split(v@.take(0), sep).drop_last());
    while i < v.len()
        invariant
            start <= i <= v.len(),
            split(v@.take(i as int), sep).len() > 0,
            split(v@.take(i as int), sep).last() == v@.subrange(start as int, i as int),
            views(out@) == split(v@.take(i as int), sep).drop_last(),
        decreases v.len() - i,
    {
        let ghost before = split(v@.take(i as int), sep);
        assert(v@.take(i + 1).drop_last() =~= v@.take(i as int));
        if v[i] == sep {
            push_text(&mut out, string_of(&v, start, i));
            assert(before.push(Seq::<char>::empty()).drop_last() =~= before);
            assert(before =~= before.drop_last().push(before.last()));
            start = i + 1;
            assert(v@.subrange(start as int, i + 1) =~= Seq::<char>::empty());
        } else {
            assert(v@.subrange(start as int, i + 1) =~= v@.subrange(start as int, i as int).push(
                v@[i as int],
            ));
            assert(before.drop_last().push(before.last().push(v@[i as int])).drop_last()
                =~= before.drop_last());
        }
        i = i + 1;
    }
    assert(v@.take(v.len() as int) =~= v@);
    let ghost pieces = split(v@, sep);
    push_text(&mut out, string_of(&v, start, i));
    assert(pieces =~= pieces.drop_last().push(pieces.last()));
    out
}

/// `s` without leading and trailing white space.
pub fn trim_text(s: &str) -> (out: String)
    ensures
        out@ == trim(s@),
{
    let v = chars_of(s);
    assert(v@.subrange(0, v.len() as int) =~= v@);
    let (a, b) = trim_range(&v, 0, v.len());
    string_of(&v, a, b)
}

/// The tokens of `s` for the separator `sep`, in the order in which they stand.
pub fn tokenize(s: &str, sep: char) -> (out: Vec<String>)
    ensures
        views(out@) == tokens(s@, sep),
{
    let pieces = split_text(s, sep);
    let mut out: Vec<String> = Vec::new();
    let mut j: usize = 0;
    assert(views(pieces@).take(0) =~= Seq::<Seq<char>>::empty());
    assert(views(out@) =~= Seq::<Seq<char>>::empty());
    while j < pieces.len()
        invariant
            j <= pieces.len(),
            views(out@) == trimmed_nonempty(views(pieces@).take(j as int)),
        decreases pieces.len() - j,
    {
        let ghost head = views(pieces@).take(j + 1);
        assert(head.drop_last() =~= views(pieces@).take(j as int));
        assert(head.last() == pieces@[j as int]@);
        let t = trim_text(pieces[j].as_str());
        if !t.as_str().is_empty() {
            push_text(&mut out, t);
        }
        j = j + 1;
    }
    assert(views(pieces@).take(pieces.len() as int) =~= views(pieces@));
    out
}

} // verus!
