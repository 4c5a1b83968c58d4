//! Text as the gateway reads and writes it: trimming, searching, splitting and
//! decimal numbers, each stated over the characters of a string.

use vstd::prelude::*;

verus! {

broadcast use vstd::string::group_string_axioms;

/// `String::push` adds `c` at the end and leaves the rest as it was.
pub assume_specification[ String::push ](s: &mut String, c: char)
    ensures
        final(s)@ == old(s)@.push(c),
;

/// Whether a character has the Unicode property White_Space: the characters
/// that the property's table lists.
pub open spec fn whitespace(c: char) -> bool {
    ||| 0x9 <= c as int <= 0xd
    ||| c as int == 0x20
    ||| c as int == 0x85
    ||| c as int == 0xa0
    ||| c as int == 0x1680
    ||| 0x2000 <= c as int <= 0x200a
    ||| 0x2028 <= c as int <= 0x2029
    ||| c as int == 0x202f
    ||| c as int == 0x205f
    ||| c as int == 0x3000
}

/// `char::is_whitespace` tells whether a character has the Unicode property
/// White_Space.
pub assume_specification[ char::is_whitespace ](c: char) -> (answer: bool)
    ensures
        answer == whitespace(c),
;

/// The text that `str::to_lowercase` gives back.
pub uninterp spec fn lowercased(text: Seq<char>) -> Seq<char>;

/// Whether every character of a text is an ASCII character.
pub open spec fn is_ascii_text(text: Seq<char>) -> bool {
    forall|i: int| 0 <= i < text.len() ==> (#[trigger] text[i]) as int <= 127
}

/// A text with `A` to `Z` turned into `a` to `z`.
pub open spec fn ascii_lowercased(text: Seq<char>) -> Seq<char> {
    text.map_values(|c: char| if 'A' <= c <= 'Z' { (c as u32 + 32) as char } else { c })
}

/// `str::to_lowercase` is a function of the text alone. In an ASCII text it
/// turns `A` to `Z` into `a` to `z` and leaves the rest. Its mapping of other
/// characters is that of the Unicode tables and is not stated.
pub assume_specification[ str::to_lowercase ](text: &str) -> (lower: String)
    ensures
        lower@ == lowercased(text@),
        is_ascii_text(text@) ==> lower@ == ascii_lowercased(text@),
;

// ---------------------------------------------------------------------------
// Characters and concatenation
// ---------------------------------------------------------------------------

/// The characters of `s`, in order.
pub fn chars_of(s: &str) -> (chars: Vec<char>)
    ensures
        chars@ == s@,
{
    let mut chars: Vec<char> = Vec::new();
    for c in it: s.chars()
        invariant
            it.seq() == s@,
            chars@ == s@.take(it.index() as int),
    {
        chars.push(c);
        assert(chars@ =~= s@.take(it.index() as int + 1));
    }
    assert(s@.take(s@.len() as int) =~= s@);
    chars
}

/// `head` followed by `tail`.
pub fn joined(head: &str, tail: &str) -> (text: String)
    ensures
        text@ == head@ + tail@,
{
    let mut text = head.to_owned();
    text.append(tail);
    text
}

/// Whether two texts hold the same characters.
pub fn same(left: &str, right: &str) -> (answer: bool)
    ensures
        answer == (left@ == right@),
{
    let left_chars = chars_of(left);
    let right_chars = chars_of(right);
    if left_chars.len() != right_chars.len() {
        return false;
    }
    let mut i: usize = 0;
    while i < left_chars.len()
        invariant
            i <= left_chars.len(),
            left_chars@ == left@,
            right_chars@ == right@,
            left_chars.len() == right_chars.len(),
            forall|j: int| 0 <= j < i ==> left@[j] == right@[j],
        decreases left_chars.len() - i,
    {
        if left_chars[i] != right_chars[i] {
            return false;
        }
        i = i + 1;
    }
    assert(left@ =~= right@);
    true
}

// ---------------------------------------------------------------------------
// Trimming
// ---------------------------------------------------------------------------

/// A kind of character that is trimmed off the ends of a text.
pub enum Edge {
    /// Whitespace, as `char::is_whitespace` tells it.
    Space,
    /// One given character.
    Only(char),
}

impl Edge {
    /// Whether `c` is of this kind.
    pub open spec fn has(self, c: char) -> bool {
        match self {
            Edge::Space => whitespace(c),
            Edge::Only(edge) => c == edge,
        }
    }

    fn test(&self, c: char) -> (answer: bool)
        ensures
            answer == self.has(c),
    {
        match self {
            Edge::Space => c.is_whitespace(),
            Edge::Only(edge) => c == *edge,
        }
    }
}

/// `s` without the longest run of leading characters of the kind `edge`.
pub open spec fn without_leading(s: Seq<char>, edge: Edge) -> Seq<char>
    decreases s.len(),
{
    if s.len() > 0 && edge.has(s[0]) {
        without_leading(s.drop_first(), edge)
    } else {
        s
    }
}

/// `s` without the longest run of trailing characters of the kind `edge`.
pub open spec fn without_trailing(s: Seq<char>, edge: Edge) -> Seq<char>
    decreases s.len(),
{
    if s.len() > 0 && edge.has(s.last()) {
        without_trailing(s.drop_last(), edge)
    } else {
        s
    }
}

/// `s` without whitespace at either end.
pub open spec fn trimmed(s: Seq<char>) -> Seq<char> {
    without_trailing(without_leading(s, Edge::Space), Edge::Space)
}

/// The number of leading characters of the kind `edge`.
fn leading_run(chars: &Vec<char>, edge: &Edge) -> (n: usize)
    ensures
        n <= chars.len(),
        chars@.skip(n as int) == without_leading(chars@, *edge),
{
    let mut n: usize = 0;
    assert(chars@.skip(0) =~= chars@);
    while n < chars.len()
        invariant
            n <= chars.len(),
            without_leading(chars@.skip(n as int), *edge) == without_leading(chars@, *edge),
        decreases chars.len() - n,
    {
        if !edge.test(chars[n]) {
            return n;
        }
        assert(chars@.skip(n as int).drop_first() =~= chars@.skip(n as int + 1));
        n = n + 1;
    }
    n
}

/// Where `chars[from..]` ends once its trailing characters of the kind `edge`
/// are gone.
fn trailing_end(chars: &Vec<char>, from: usize, edge: &Edge) -> (end: usize)
    requires
        from <= chars.len(),
    ensures
        from <= end <= chars.len(),
        chars@.subrange(from as int, end as int) == without_trailing(
            chars@.skip(from as int),
            *edge,
        ),
{
    let mut end: usize = chars.len();
    assert(chars@.subrange(from as int, end as int) =~= chars@.skip(from as int));
    while end > from
        invariant
            from <= end <= chars.len(),
            without_trailing(chars@.subrange(from as int, end as int), *edge) == without_trailing(
                chars@.skip(from as int),
                *edge,
            ),
        decreases end,
    {
        if !edge.test(chars[end - 1]) {
            return end;
        }
        assert(chars@.subrange(from as int, end as int).drop_last() =~= chars@.subrange(
            from as int,
            end as int - 1,
        ));
        end = end - 1;
    }
    end
}

/// `text` without whitespace at either end.
pub fn trim(text: &str) -> (inner: &str)
    ensures
        inner@ == trimmed(text@),
{
    let chars = chars_of(text);
    let from = leading_run(&chars, &Edge::Space);
    let end = trailing_end(&chars, from, &Edge::Space);
    text.substring_char(from, end)
}

/// `text` without the `edge` characters it starts with.
pub fn trim_start_matches(text: &str, edge: char) -> (inner: &str)
    ensures
        inner@ == without_leading(text@, Edge::Only(edge)),
{
    let chars = chars_of(text);
    let from = leading_run(&chars, &Edge::Only(edge));
    assert(text@.subrange(from as int, text@.len() as int) =~= text@.skip(from as int));
    text.substring_char(from, chars.len())
}

/// `text` without the `edge` characters it ends with.
pub fn trim_end_matches(text: &str, edge: char) -> (inner: &str)
    ensures
        inner@ == without_trailing(text@, Edge::Only(edge)),
{
    let chars = chars_of(text);
    let end = trailing_end(&chars, 0, &Edge::Only(edge));
    assert(text@.skip(0) =~= text@);
    text.substring_char(0, end)
}

// ---------------------------------------------------------------------------
// Searching, replacing, splitting
// ---------------------------------------------------------------------------

/// Whether `needle` stands in `hay` from position `at` on.
pub open spec fn stands_at(hay: Seq<char>, needle: Seq<char>, at: int) -> bool {
    0 <= at <= hay.len() - needle.len() && hay.subrange(at, at + needle.len()) == needle
}

/// Whether `needle` stands anywhere in `hay`.
pub open spec fn occurs(hay: Seq<char>, needle: Seq<char>) -> bool {
    exists|at: int| stands_at(hay, needle, at)
}

/// Whether `needle` stands in `hay` from position `at` on.
fn found_at(hay: &Vec<char>, needle: &Vec<char>, at: usize) -> (answer: bool)
    requires
        at <= hay.len() - needle.len(),
    ensures
        answer == stands_at(hay@, needle@, at as int),
{
    let mut i: usize = 0;
    while i < needle.len()
        invariant
            i <= needle.len(),
            at <= hay.len() - needle.len(),
            forall|j: int| 0 <= j < i ==> hay@[at + j] == needle@[j],
        decreases needle.len() - i,
    {
        if hay[at + i] != needle[i] {
            assert(hay@.subrange(at as int, at + needle@.len())[i as int] == hay@[at + i]);
            return false;
        }
        i = i + 1;
    }
    assert(hay@.subrange(at as int, at + needle@.len()) =~= needle@);
    true
}

/// Whether `needle` stands anywhere in `hay`.
pub fn contains(hay: &str, needle: &str) -> (answer: bool)
    ensures
        answer == occurs(hay@, needle@),
{
    let hay_chars = chars_of(hay);
    let needle_chars = chars_of(needle);
    if needle_chars.len() > hay_chars.len() {
        return false;
    }
    let last: usize = hay_chars.len() - needle_chars.len();
    let mut at: usize = 0;
    while at < last
        invariant
            at <= last,
            last == hay_chars.len() - needle_chars.len(),
            hay_chars@ == hay@,
            needle_chars@ == needle@,
            forall|k: int| 0 <= k < at ==> !stands_at(hay@, needle@, k),
        decreases last - at,
    {
        if found_at(&hay_chars, &needle_chars, at) {
            return true;
        }
        at = at + 1;
    }
    found_at(&hay_chars, &needle_chars, last)
}

/// `text` after `prefix`, if it starts so.
pub fn strip_prefix<'a>(text: &'a str, prefix: &str) -> (rest: Option<&'a str>)
    ensures
        rest is Some <==> prefix@.is_prefix_of(text@),
        rest matches Some(rest) ==> rest@ == text@.skip(prefix@.len() as int),
{
    let chars = chars_of(text);
    let prefix_chars = chars_of(prefix);
    if prefix_chars.len() > chars.len() {
        return None;
    }
    if !found_at(&chars, &prefix_chars, 0) {
        return None;
    }
    assert(text@.subrange(prefix@.len() as int, text@.len() as int) =~= text@.skip(
        prefix@.len() as int,
    ));
    Some(text.substring_char(prefix_chars.len(), chars.len()))
}

/// `s` with each `from` turned into `to`.
pub open spec fn replaced(s: Seq<char>, from: char, to: char) -> Seq<char> {
    s.map_values(|c: char| if c == from { to } else { c })
}

/// `text` with each `from` turned into `to`.
pub fn replace(text: &str, from: char, to: char) -> (result: String)
    ensures
        result@ == replaced(text@, from, to),
{
    let chars = chars_of(text);
    let mut result = String::new();
    let mut i: usize = 0;
    while i < chars.len()
        invariant
            i <= chars.len(),
            chars@ == text@,
            result@ == replaced(text@.take(i as int), from, to),
        decreases chars.len() - i,
    {
        if chars[i] == from {
            result.push(to);
        } else {
            result.push(chars[i]);
        }
        assert(result@ =~= replaced(text@.take(i as int + 1), from, to));
        i = i + 1;
    }
    assert(text@.take(i as int) =~= text@);
    result
}

/// The pieces of `s` between the separators: always at least one, and one more
/// than there are separators.
pub open spec fn split_on(s: Seq<char>, sep: char) -> Seq<Seq<char>>
    decreases s.len(),
{
    if s.len() == 0 {
        seq![Seq::<char>::empty()]
    } else {
        let before = split_on(s.drop_last(), sep);
        if s.last() == sep {
            before.push(Seq::<char>::empty())
        } else {
            before.drop_last().push(before.last().push(s.last()))
        }
    }
}

/// The pieces of `text` between the separators.
pub fn split(text: &str, sep: char) -> (pieces: Vec<String>)
    ensures
        pieces.deep_view() == split_on(text@, sep),
{
    let chars = chars_of(text);
    let mut pieces: Vec<String> = Vec::new();
    let mut piece = String::new();
    let mut i: usize = 0;
    assert(pieces.deep_view().push(piece@) =~= split_on(text@.take(0), sep));
    while i < chars.len()
        invariant
            i <= chars.len(),
            chars@ == text@,
            pieces.deep_view().push(piece@) == split_on(text@.take(i as int), sep),
        decreases chars.len() - i,
    {
        let ghost before = pieces.deep_view().push(piece@);
        let ghost next = text@.take(i as int + 1);
        assert(next.drop_last() =~= text@.take(i as int));
        assert(before.drop_last() =~= pieces.deep_view());
        if chars[i] == sep {
            let ghost done = pieces.deep_view();
            pieces.push(piece);
            assert(pieces.deep_view() =~= done.push(piece@));
            piece = String::new();
        } else {
            piece.push(chars[i]);
        }
        assert(pieces.deep_view().push(piece@) =~= split_on(next, sep));
        i = i + 1;
    }
    assert(text@.take(i as int) =~= text@);
    let ghost done = pieces.deep_view();
    pieces.push(piece);
    assert(pieces.deep_view() =~= done.push(piece@));
    pieces
}

// ---------------------------------------------------------------------------
// Letters without case
// ---------------------------------------------------------------------------

/// The code of `c`, with `A` to `Z` counted as `a` to `z`.
pub open spec fn folded_code(c: char) -> int {
    if 'A' <= c <= 'Z' {
        c as int + 32
    } else {
        c as int
    }
}

/// `s` with the case of its ASCII letters taken away.
pub open spec fn folded(s: Seq<char>) -> Seq<int> {
    s.map_values(|c: char| folded_code(c))
}

fn fold_code(c: char) -> (code: u32)
    ensures
        code == folded_code(c),
{
    if 'A' <= c && c <= 'Z' {
        c as u32 + 32
    } else {
        c as u32
    }
}

/// Whether two texts are the same but for the case of ASCII letters.
pub fn eq_ignore_ascii_case(left: &str, right: &str) -> (answer: bool)
    ensures
        answer == (folded(left@) == folded(right@)),
{
    let left_chars = chars_of(left);
    let right_chars = chars_of(right);
    if left_chars.len() != right_chars.len() {
        assert(folded(left@).len() != folded(right@).len());
        return false;
    }
    let mut i: usize = 0;
    while i < left_chars.len()
        invariant
            i <= left_chars.len(),
            left_chars@ == left@,
            right_chars@ == right@,
            left_chars.len() == right_chars.len(),
            forall|j: int| 0 <= j < i ==> folded_code(left@[j]) == folded_code(right@[j]),
        decreases left_chars.len() - i,
    {
        if fold_code(left_chars[i]) != fold_code(right_chars[i]) {
            assert(folded(left@)[i as int] != folded(right@)[i as int]);
            return false;
        }
        i = i + 1;
    }
    assert(folded(left@) =~= folded(right@));
    true
}

// ---------------------------------------------------------------------------
// Decimal numbers
// ---------------------------------------------------------------------------

/// The decimal digit `d`.
pub open spec fn digit(d: nat) -> char {
    (48 + d) as char
}

/// Whether `c` is one of `0` to `9`.
pub open spec fn is_digit(c: char) -> bool {
    '0' <= c <= '9'
}

/// `n` in decimal, without leading zeros.
pub open spec fn decimal(n: nat) -> Seq<char>
    decreases n,
{
    if n < 10 {
        seq![digit(n)]
    } else {
        decimal(n / 10).push(digit(n % 10))
    }
}

/// The number that the digits of `s` stand for in decimal.
pub open spec fn digits_value(s: Seq<char>) -> nat
    decreases s.len(),
{
    if s.len() == 0 {
        0
    } else {
        digits_value(s.drop_last()) * 10 + (s.last() as nat - 48) as nat
    }
}

/// The digits of a numeral, without the one `+` that may stand before them.
pub open spec fn unsigned_part(s: Seq<char>) -> Seq<char> {
    if s.len() > 0 && s[0] == '+' {
        s.drop_first()
    } else {
        s
    }
}

/// Whether `s` is a numeral: an optional `+`, then one digit or more, no other
/// character, and a value that fits in 32 bits.
pub open spec fn is_numeral(s: Seq<char>) -> bool {
    let digits = unsigned_part(s);
    &&& digits.len() > 0
    &&& forall|i: int| 0 <= i < digits.len() ==> is_digit(#[trigger] digits[i])
    &&& digits_value(digits) <= u32::MAX
}

/// `n` in decimal.
pub fn decimal_text(n: u64) -> (text: String)
    ensures
        text@ == decimal(n as nat),
    decreases n,
{
    let last: u8 = (n % 10) as u8;
    let mut text = if n < 10 {
        String::new()
    } else {
        decimal_text(n / 10)
    };
    text.push((48u8 + last) as char);
    assert(text@ =~= decimal(n as nat));
    text
}

proof fn lemma_prefix_value(s: Seq<char>, i: int)
    requires
        0 <= i <= s.len(),
        forall|j: int| 0 <= j < s.len() ==> is_digit(#[trigger] s[j]),
    ensures
        digits_value(s.take(i)) <= digits_value(s),
    decreases s.len() - i,
{
    if i == s.len() {
        assert(s.take(i) =~= s);
    } else {
        lemma_prefix_value(s, i + 1);
        assert(s.take(i + 1).drop_last() =~= s.take(i));
        assert(is_digit(s[i]));
    }
}

/// Reads a numeral: the number it stands for, or nothing if `text` is none.
pub fn parse_u32(text: &str) -> (number: Option<u32>)
    ensures
        number is Some <==> is_numeral(text@),
        number matches Some(n) ==> n == digits_value(unsigned_part(text@)),
{
    let chars = chars_of(text);
    let start: usize = if chars.len() > 0 && chars[0] == '+' { 1 } else { 0 };
    let ghost digits = unsigned_part(text@);
    assert(digits =~= text@.skip(start as int));
    if start == chars.len() {
        return None;
    }
    let mut value: u64 = 0;
    let mut i: usize = start;
    assert(digits.take(0) =~= Seq::<char>::empty());
    while i < chars.len()
        invariant
            start <= i <= chars.len(),
            start <= 1,
            chars@ == text@,
            digits == unsigned_part(text@),
            digits == text@.skip(start as int),
            value == digits_value(digits.take(i - start)),
            value <= u32::MAX,
            forall|j: int| 0 <= j < i - start ==> is_digit(#[trigger] digits[j]),
        decreases chars.len() - i,
    {
        let c = chars[i];
        assert(digits[i - start] == c);
        if c < '0' || '9' < c {
            return None;
        }
        assert(digits.take(i - start + 1).drop_last() =~= digits.take(i - start));
        value = value * 10 + (c as u64 - 48);
        i = i + 1;
        if value > u32::MAX as u64 {
            proof {
                if is_numeral(text@) {
                    lemma_prefix_value(digits, i - start);
                }
            }
            return None;
        }
    }
    assert(digits.take(i - start) =~= digits);
    Some(value as u32)
}

// ---------------------------------------------------------------------------
// Laws
// ---------------------------------------------------------------------------

/// The pieces with one separator between two neighbours.
pub open spec fn joined_with(pieces: Seq<Seq<char>>, sep: char) -> Seq<char>
    decreases pieces.len(),
{
    if pieces.len() == 0 {
        Seq::empty()
    } else if pieces.len() == 1 {
        pieces[0]
    } else {
        joined_with(pieces.drop_last(), sep) + seq![sep] + pieces.last()
    }
}

/// Splitting loses nothing: no piece holds a separator, and the pieces with
/// separators between them are the text again.
pub proof fn law_split_then_join(s: Seq<char>, sep: char)
    ensures
        split_on(s, sep).len() > 0,
        forall|i: int|
            0 <= i < split_on(s, sep).len() ==> !(#[trigger] split_on(s, sep)[i]).contains(sep),
        joined_with(split_on(s, sep), sep) == s,
    decreases s.len(),
{
    let pieces = split_on(s, sep);
    if s.len() > 0 {
        law_split_then_join(s.drop_last(), sep);
        let before = split_on(s.drop_last(), sep);
        if s.last() == sep {
            assert(pieces.drop_last() =~= before);
            assert(joined_with(pieces, sep) =~= s);
        } else {
            let longer = before.last().push(s.last());
            assert(!before[before.len() - 1].contains(sep));
            assert forall|i: int| 0 <= i < pieces.len() implies !(#[trigger] pieces[i]).contains(
                sep,
            ) by {
                if i < pieces.len() - 1 {
                    assert(pieces[i] == before[i]);
                } else if longer.contains(sep) {
                    let k = longer.index_of(sep);
                    assert(k < before.last().len());
                    assert(before.last()[k] == sep);
                }
            }
            assert(pieces.drop_last() =~= before.drop_last());
            assert(joined_with(pieces, sep) =~= joined_with(before, sep).push(s.last()));
            assert(joined_with(pieces, sep) =~= s);
        }
    }
}

/// Splitting finds the pieces that were put together: after a separator, a
/// piece without one is the last piece.
pub proof fn law_split_of_appended(s: Seq<char>, sep: char, piece: Seq<char>)
    requires
        !piece.contains(sep),
    ensures
        split_on(s + seq![sep] + piece, sep) == split_on(s, sep).push(piece),
    decreases piece.len(),
{
    let whole = s + seq![sep] + piece;
    if piece.len() == 0 {
        assert(whole.drop_last() =~= s);
        assert(piece =~= Seq::empty());
    } else {
        let shorter = piece.drop_last();
        assert(!shorter.contains(sep)) by {
            if shorter.contains(sep) {
                let k = shorter.index_of(sep);
                assert(piece[k] == sep);
            }
        }
        law_split_of_appended(s, sep, shorter);
        assert(whole.drop_last() =~= s + seq![sep] + shorter);
        assert(piece[piece.len() - 1] == whole.last());
        let before = split_on(s, sep).push(shorter);
        assert(before.drop_last() =~= split_on(s, sep));
        assert(shorter.push(piece.last()) =~= piece);
    }
}

/// A separator between two texts leaves each with the pieces it has.
pub proof fn law_split_counts_add_up(left: Seq<char>, sep: char, right: Seq<char>)
    ensures
        split_on(left + seq![sep] + right, sep).len() == split_on(left, sep).len() + split_on(
            right,
            sep,
        ).len(),
    decreases right.len(),
{
    let whole = left + seq![sep] + right;
    if right.len() == 0 {
        assert(whole.drop_last() =~= left);
    } else {
        law_split_counts_add_up(left, sep, right.drop_last());
        assert(whole.drop_last() =~= left + seq![sep] + right.drop_last());
        law_split_then_join(right.drop_last(), sep);
        law_split_then_join(whole.drop_last(), sep);
    }
}

/// A text without separators is one piece.
pub proof fn law_split_of_one_piece(piece: Seq<char>, sep: char)
    requires
        !piece.contains(sep),
    ensures
        split_on(piece, sep) == seq![piece],
    decreases piece.len(),
{
    if piece.len() == 0 {
        assert(piece =~= Seq::empty());
    } else {
        let shorter = piece.drop_last();
        assert(!shorter.contains(sep)) by {
            if shorter.contains(sep) {
                let k = shorter.index_of(sep);
                assert(piece[k] == sep);
            }
        }
        law_split_of_one_piece(shorter, sep);
        assert(piece[piece.len() - 1] == piece.last());
        assert(seq![shorter].drop_last() =~= Seq::<Seq<char>>::empty());
        assert(shorter.push(piece.last()) =~= piece);
        assert(Seq::<Seq<char>>::empty().push(piece) =~= seq![piece]);
    }
}

/// A number in decimal is made of digits alone and reads back as that number.
pub proof fn law_decimal_reads_back(n: nat)
    ensures
        decimal(n).len() > 0,
        forall|i: int| 0 <= i < decimal(n).len() ==> is_digit(#[trigger] decimal(n)[i]),
        digits_value(decimal(n)) == n,
        n <= u32::MAX ==> is_numeral(decimal(n)) && digits_value(unsigned_part(decimal(n))) == n,
    decreases n,
{
    let text = decimal(n);
    if n < 10 {
        assert(text.drop_last() =~= Seq::empty());
        assert(digits_value(text.drop_last()) == 0);
        assert(text.last() == digit(n));
    } else {
        law_decimal_reads_back(n / 10);
        assert(text.drop_last() =~= decimal(n / 10));
        assert(text.last() == digit(n % 10));
        assert forall|i: int| 0 <= i < text.len() implies is_digit(#[trigger] text[i]) by {
            if i < text.len() - 1 {
                assert(text[i] == decimal(n / 10)[i]);
            }
        }
    }
    assert(is_digit(text[0]));
    assert(unsigned_part(text) == text);
}

/// What an optional text holds.
pub open spec fn text_if_any(text: Option<String>) -> Option<Seq<char>> {
    match text {
        Some(text) => Some(text@),
        None => None,
    }
}

/// Whether dropping the first `n` characters drops a whole leading run: those
/// of the kind `edge`, and no more can be dropped.
pub open spec fn is_leading_run(s: Seq<char>, edge: Edge, n: int) -> bool {
    &&& 0 <= n <= s.len()
    &&& forall|i: int| 0 <= i < n ==> edge.has(#[trigger] s[i])
    &&& n < s.len() ==> !edge.has(s[n])
}

/// Whether the characters from `n` on are a whole trailing run: those of the
/// kind `edge`, and no more can be dropped.
pub open spec fn is_trailing_run(s: Seq<char>, edge: Edge, n: int) -> bool {
    &&& 0 <= n <= s.len()
    &&& forall|i: int| n <= i < s.len() ==> edge.has(#[trigger] s[i])
    &&& n > 0 ==> !edge.has(s[n - 1])
}

/// Without its leading run a text is what follows the longest run of such
/// characters at its start.
pub proof fn law_leading_run_is_dropped(s: Seq<char>, edge: Edge)
    ensures
        exists|n: int| #[trigger] is_leading_run(s, edge, n) && without_leading(s, edge) == s.skip(n),
    decreases s.len(),
{
    if s.len() > 0 && edge.has(s[0]) {
        let rest = s.drop_first();
        law_leading_run_is_dropped(rest, edge);
        let n = choose|n: int| #[trigger]
            is_leading_run(rest, edge, n) && without_leading(rest, edge) == rest.skip(n);
        assert forall|i: int| 0 <= i < n + 1 implies edge.has(#[trigger] s[i]) by {
            if i > 0 {
                assert(edge.has(rest[i - 1]));
            }
        }
        assert(is_leading_run(s, edge, n + 1));
        assert(rest.skip(n) =~= s.skip(n + 1));
    } else {
        assert(is_leading_run(s, edge, 0));
        assert(s.skip(0) =~= s);
    }
}

/// Without its trailing run a text is what stands before the longest run of
/// such characters at its end.
pub proof fn law_trailing_run_is_dropped(s: Seq<char>, edge: Edge)
    ensures
        exists|n: int| #[trigger]
            is_trailing_run(s, edge, n) && without_trailing(s, edge) == s.take(n),
    decreases s.len(),
{
    if s.len() > 0 && edge.has(s.last()) {
        let rest = s.drop_last();
        law_trailing_run_is_dropped(rest, edge);
        let n = choose|n: int| #[trigger]
            is_trailing_run(rest, edge, n) && without_trailing(rest, edge) == rest.take(n);
        assert forall|i: int| n <= i < s.len() implies edge.has(#[trigger] s[i]) by {
            if i < rest.len() {
                assert(edge.has(rest[i]));
            }
        }
        assert(is_trailing_run(s, edge, n));
        assert(rest.take(n) =~= s.take(n));
    } else {
        assert(is_trailing_run(s, edge, s.len() as int));
        assert(s.take(s.len() as int) =~= s);
    }
}

/// Whether what stands from `from` to `to` is a text without the whitespace at
/// its ends: all before and after is whitespace, and its own ends are not.
pub open spec fn is_middle(s: Seq<char>, from: int, to: int) -> bool {
    &&& 0 <= from <= to <= s.len()
    &&& forall|i: int| 0 <= i < from ==> whitespace(#[trigger] s[i])
    &&& forall|i: int| to <= i < s.len() ==> whitespace(#[trigger] s[i])
    &&& from < to ==> !whitespace(s[from]) && !whitespace(s[to - 1])
}

/// A trimmed text is the middle of the text: whitespace goes from both ends, and
/// nothing else goes.
pub proof fn law_trimmed_is_the_middle(s: Seq<char>)
    ensures
        exists|from: int, to: int| #[trigger]
            is_middle(s, from, to) && trimmed(s) == s.subrange(from, to),
{
    law_leading_run_is_dropped(s, Edge::Space);
    let from = choose|n: int| #[trigger]
        is_leading_run(s, Edge::Space, n) && without_leading(s, Edge::Space) == s.skip(n);
    let inner = s.skip(from);
    law_trailing_run_is_dropped(inner, Edge::Space);
    let length = choose|n: int| #[trigger]
        is_trailing_run(inner, Edge::Space, n) && without_trailing(inner, Edge::Space)
            == inner.take(n);
    let to = from + length;
    assert forall|i: int| 0 <= i < from implies whitespace(#[trigger] s[i]) by {
        assert(Edge::Space.has(s[i]));
    }
    assert forall|i: int| to <= i < s.len() implies whitespace(#[trigger] s[i]) by {
        assert(Edge::Space.has(inner[i - from]));
    }
    assert(is_middle(s, from, to));
    assert(inner.take(length) =~= s.subrange(from, to));
}

/// A text trims to nothing if and only if it is whitespace alone.
pub proof fn law_blank_is_whitespace_alone(s: Seq<char>)
    ensures
        trimmed(s).len() == 0 <==> forall|i: int| 0 <= i < s.len() ==> whitespace(#[trigger] s[i]),
{
    law_trimmed_is_the_middle(s);
    let (from, to) = choose|from: int, to: int| #[trigger]
        is_middle(s, from, to) && trimmed(s) == s.subrange(from, to);
    assert(trimmed(s).len() == to - from);
    if from < to {
        assert(!whitespace(s[from]));
    }
}

/// The kinds of characters that are trimmed: whitespace, which in ASCII is the
/// space and the five controls from the tab to the carriage return, or one given
/// character.
pub proof fn law_kinds_of_edges(c: char, edge: char)
    ensures
        Edge::Only(edge).has(c) <==> c == edge,
        Edge::Space.has(c) <==> whitespace(c),
        c as int <= 127 ==> (whitespace(c) <==> (c == ' ' || c == '\t' || c == '\n' || c == '\r'
            || c as int == 11 || c as int == 12)),
        whitespace('\u{a0}') && whitespace('\u{3000}') && whitespace('\u{2028}'),
{
}

/// A text occurs in another if and only if the other is that text with something
/// before it and something after it.
pub proof fn law_occurs_within(hay: Seq<char>, needle: Seq<char>)
    ensures
        occurs(hay, needle) <==> exists|before: Seq<char>, after: Seq<char>|
            hay == #[trigger] (before + needle + after),
{
    if occurs(hay, needle) {
        let at = choose|at: int| stands_at(hay, needle, at);
        let before = hay.take(at);
        let after = hay.skip(at + needle.len());
        assert(hay =~= before + hay.subrange(at, at + needle.len()) + after);
        assert(hay == before + needle + after);
    }
    if exists|before: Seq<char>, after: Seq<char>| hay == #[trigger] (before + needle + after) {
        let (before, after) = choose|before: Seq<char>, after: Seq<char>|
            hay == #[trigger] (before + needle + after);
        let at = before.len() as int;
        assert(hay.subrange(at, at + needle.len()) =~= needle);
        assert(stands_at(hay, needle, at));
    }
}

/// Replacing changes the one character wherever it stands, and nothing else.
pub proof fn law_replaced_in_place(s: Seq<char>, from: char, to: char)
    ensures
        replaced(s, from, to).len() == s.len(),
        forall|i: int|
            0 <= i < s.len() ==> #[trigger] replaced(s, from, to)[i] == (if s[i] == from {
                to
            } else {
                s[i]
            }),
{
}

/// Whether two characters are the same letter in ASCII, in either case, or the
/// same character.
pub open spec fn same_letter(left: char, right: char) -> bool {
    ||| left == right
    ||| 'A' <= left <= 'Z' && right as int == left as int + 32
    ||| 'A' <= right <= 'Z' && left as int == right as int + 32
}

/// Texts are the same but for case if and only if they have the same letters in
/// the same places.
pub proof fn law_folding_forgets_case_alone(left: Seq<char>, right: Seq<char>)
    ensures
        folded(left) == folded(right) <==> left.len() == right.len() && forall|i: int|
            0 <= i < left.len() ==> same_letter(#[trigger] left[i], right[i]),
{
    if folded(left) == folded(right) {
        assert(folded(left).len() == left.len());
        assert(folded(right).len() == right.len());
        assert forall|i: int| 0 <= i < left.len() implies same_letter(#[trigger] left[i], right[i]) by {
            assert(folded(left)[i] == folded_code(left[i]));
            assert(folded(right)[i] == folded_code(right[i]));
        }
    }
    if left.len() == right.len() && forall|i: int|
        0 <= i < left.len() ==> same_letter(#[trigger] left[i], right[i]) {
        assert forall|i: int| 0 <= i < left.len() implies folded(left)[i] == folded(right)[i] by {
            assert(same_letter(left[i], right[i]));
        }
        assert(folded(left) =~= folded(right));
    }
}

/// Decimal is positional: one more digit at the end is ten times the number and
/// the digit.
pub proof fn law_decimal_is_positional(n: nat, d: nat)
    requires
        d < 10,
    ensures
        decimal(d) == seq![(48 + d) as char],
        n > 0 ==> decimal(10 * n + d) == decimal(n).push((48 + d) as char),
{
    if n > 0 {
        assert((10 * n + d) / 10 == n);
        assert((10 * n + d) % 10 == d);
    }
}

/// The value of digits is positional: one more digit at the end is ten times the
/// value and the digit.
pub proof fn law_value_is_positional(digits: Seq<char>, last: char)
    requires
        '0' <= last <= '9',
    ensures
        digits_value(Seq::empty()) == 0,
        digits_value(digits.push(last)) == 10 * digits_value(digits) + (last as int - 48),
{
    assert(digits.push(last).drop_last() =~= digits);
}

/// Whether `s` is `digits`, with or without one `+` before them.
pub open spec fn signed_or_not(s: Seq<char>, digits: Seq<char>) -> bool {
    s == digits || s == seq!['+'] + digits
}

/// A numeral is one digit or more, with or without one `+` before them, whose
/// value fits in 32 bits; it stands for that value.
pub proof fn law_numerals(s: Seq<char>)
    ensures
        is_numeral(s) <==> exists|digits: Seq<char>| #[trigger]
            signed_or_not(s, digits) && digits.len() > 0 && (forall|i: int|
                0 <= i < digits.len() ==> '0' <= #[trigger] digits[i] <= '9') && digits_value(digits)
                <= 4_294_967_295,
        forall|digits: Seq<char>| #[trigger]
            signed_or_not(s, digits) && digits.len() > 0 && '0' <= digits[0] <= '9'
                ==> unsigned_part(s) == digits,
{
    assert forall|digits: Seq<char>| #[trigger]
        signed_or_not(s, digits) && digits.len() > 0 && '0' <= digits[0] <= '9' implies unsigned_part(
        s,
    ) == digits by {
        assert((seq!['+'] + digits).drop_first() =~= digits);
    }
    if is_numeral(s) {
        let digits = unsigned_part(s);
        if s[0] == '+' {
            assert(seq!['+'] + digits =~= s);
        }
        assert(signed_or_not(s, digits));
        assert forall|i: int| 0 <= i < digits.len() implies '0' <= #[trigger] digits[i] <= '9' by {
            assert(is_digit(digits[i]));
        }
    }
    if exists|digits: Seq<char>| #[trigger]
        signed_or_not(s, digits) && digits.len() > 0 && (forall|i: int|
            0 <= i < digits.len() ==> '0' <= #[trigger] digits[i] <= '9') && digits_value(digits)
            <= 4_294_967_295 {
        let digits = choose|digits: Seq<char>| #[trigger]
            signed_or_not(s, digits) && digits.len() > 0 && (forall|i: int|
                0 <= i < digits.len() ==> '0' <= #[trigger] digits[i] <= '9') && digits_value(digits)
                <= 4_294_967_295;
        assert('0' <= digits[0] <= '9');
        assert(unsigned_part(s) == digits);
    }
}

} // verus!
