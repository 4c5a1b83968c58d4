//! Model sizes as names give them: a number right before a unit, as in
//! `smollm-135m` or `qwen2.5-0.5b`.

use crate::text::{
    chars_of, decimal, digits_value, is_digit, law_decimal_reads_back, parse_u32, unsigned_part,
};
use vstd::prelude::*;

verus! {

broadcast use vstd::string::group_string_axioms;

/// Whether `c` can stand in a number: a digit, or the point before a fraction.
pub open spec fn numeric(c: char) -> bool {
    is_digit(c) || c == '.'
}

/// Whether `c` goes on with a word in lower case: a letter or a digit.
pub open spec fn wordy(c: char) -> bool {
    is_digit(c) || 'a' <= c <= 'z'
}

/// The digits and points that stand right before position `at`.
pub open spec fn number_before(s: Seq<char>, at: int) -> Seq<char>
    decreases at,
{
    if 0 < at <= s.len() && numeric(s[at - 1]) {
        number_before(s, at - 1).push(s[at - 1])
    } else {
        Seq::empty()
    }
}

/// What stands before the point of a number.
pub open spec fn whole_part(number: Seq<char>) -> Seq<char>
    decreases number.len(),
{
    if number.len() == 0 || number[0] == '.' {
        Seq::empty()
    } else {
        seq![number[0]] + whole_part(number.drop_first())
    }
}

/// What stands after the point of a number.
pub open spec fn fraction_part(number: Seq<char>) -> Seq<char> {
    if whole_part(number).len() < number.len() {
        number.skip(whole_part(number).len() as int + 1)
    } else {
        Seq::empty()
    }
}

/// Whether digits and points make a number: a digit at least, and then a point
/// and digits, or not.
pub open spec fn is_number(number: Seq<char>) -> bool {
    &&& whole_part(number).len() > 0
    &&& forall|i: int|
        0 <= i < fraction_part(number).len() ==> is_digit(#[trigger] fraction_part(number)[i])
}

/// Whether `c` is a unit: `m` for millions of parameters, `b` for billions.
pub open spec fn is_unit(c: char) -> bool {
    c == 'm' || c == 'b'
}

/// How many digits after the point of a number with this unit count thousands
/// of parameters.
pub open spec fn places(unit: char) -> nat {
    if unit == 'm' {
        3
    } else {
        6
    }
}

/// The first digits of a fraction, with zeros where it is shorter.
pub open spec fn padded(fraction: Seq<char>, places: nat) -> Seq<char> {
    Seq::new(places, |i: int| if i < fraction.len() { fraction[i] } else { '0' })
}

/// A size in thousands of parameters, the rest cut off.
pub open spec fn thousands(number: Seq<char>, unit: char) -> nat {
    digits_value(whole_part(number) + padded(fraction_part(number), places(unit)))
}

/// Whether what stands at `from` is one of several: it follows a digit and `x`,
/// as in `8x7b`.
pub open spec fn repeated(s: Seq<char>, from: int) -> bool {
    2 <= from <= s.len() && s[from - 1] == 'x' && is_digit(s[from - 2])
}

/// Whether a size from `least` to `most` thousands of parameters has its unit at
/// position `at`. The unit ends a word, and the size is not one of several.
pub open spec fn size_at(s: Seq<char>, at: int, least: nat, most: nat) -> bool {
    let number = number_before(s, at);
    &&& 0 <= at < s.len()
    &&& is_unit(s[at])
    &&& at + 1 < s.len() ==> !wordy(s[at + 1])
    &&& is_number(number)
    &&& !repeated(s, at - number.len())
    &&& least <= thousands(number, s[at]) <= most
}

/// Whether `s`, in lower case, names a size from `least` to `most` thousands of
/// parameters.
pub open spec fn of_size(s: Seq<char>, least: nat, most: nat) -> bool {
    exists|at: int| size_at(s, at, least, most)
}

/// A class of models.
#[derive(Clone, Copy, Debug, PartialEq, Eq, Structural)]
pub enum Class {
    /// 135M to 360M parameters.
    Tiny,
    /// 0.5B to 3B parameters.
    Small,
    /// 7B to 14B parameters.
    Large,
    /// Any other size, or none.
    Other,
}

/// The class of the model that `name`, in lower case, names. Where it names
/// several sizes, the largest class counts.
pub open spec fn class_of(name: Seq<char>) -> Class {
    if of_size(name, 7_000_000, 14_000_000) {
        Class::Large
    } else if of_size(name, 500_000, 3_000_000) {
        Class::Small
    } else if of_size(name, 135_000, 360_000) {
        Class::Tiny
    } else {
        Class::Other
    }
}

proof fn lemma_number_is_numeric(s: Seq<char>, at: int)
    ensures
        forall|i: int|
            0 <= i < number_before(s, at).len() ==> numeric(#[trigger] number_before(s, at)[i]),
    decreases at,
{
    if 0 < at <= s.len() && numeric(s[at - 1]) {
        lemma_number_is_numeric(s, at - 1);
        let before = number_before(s, at - 1);
        assert forall|i: int| 0 <= i < number_before(s, at).len() implies numeric(
            #[trigger] number_before(s, at)[i],
        ) by {
            if i < before.len() {
                assert(numeric(before[i]));
            }
        }
    }
}

/// Where the digits and points that stand right before `at` begin.
fn number_start(chars: &Vec<char>, at: usize) -> (start: usize)
    requires
        at <= chars.len(),
    ensures
        start <= at,
        chars@.subrange(start as int, at as int) == number_before(chars@, at as int),
{
    let mut start: usize = at;
    assert(number_before(chars@, at as int) =~= number_before(chars@, start as int)
        + chars@.subrange(start as int, at as int));
    while start > 0
        invariant
            start <= at <= chars.len(),
            number_before(chars@, at as int) == number_before(chars@, start as int)
                + chars@.subrange(start as int, at as int),
        decreases start,
    {
        let c = chars[start - 1];
        if !(('0' <= c && c <= '9') || c == '.') {
            assert(number_before(chars@, start as int) =~= Seq::empty());
            assert(number_before(chars@, at as int) =~= chars@.subrange(start as int, at as int));
            return start;
        }
        assert(number_before(chars@, start as int) + chars@.subrange(start as int, at as int)
            =~= number_before(chars@, start - 1) + chars@.subrange(start - 1, at as int));
        start = start - 1;
    }
    assert(number_before(chars@, at as int) =~= chars@.subrange(start as int, at as int));
    start
}

/// The size whose unit stands at position `at`, in thousands of parameters, if
/// its number is one and the size fits in 32 bits.
fn size_before(chars: &Vec<char>, start: usize, at: usize) -> (size: Option<u32>)
    requires
        start <= at < chars.len(),
        chars@.subrange(start as int, at as int) == number_before(chars@, at as int),
    ensures
        size is Some <==> is_number(number_before(chars@, at as int)) && thousands(
            number_before(chars@, at as int),
            chars@[at as int],
        ) <= u32::MAX,
        size matches Some(n) ==> n == thousands(
            number_before(chars@, at as int),
            chars@[at as int],
        ),
{
    let ghost number = number_before(chars@, at as int);
    proof {
        lemma_number_is_numeric(chars@, at as int);
    }
    assert forall|i: int| start <= i < at implies numeric(#[trigger] chars@[i]) by {
        assert(number[i - start] == chars@[i]);
    }
    let mut digits = String::new();
    let mut end: usize = start;
    assert(digits@ + whole_part(chars@.subrange(start as int, at as int)) =~= whole_part(number));
    while end < at && chars[end] != '.'
        invariant
            start <= end <= at < chars.len(),
            forall|i: int| start <= i < at ==> numeric(#[trigger] chars@[i]),
            digits@.len() == end - start,
            forall|i: int| 0 <= i < digits@.len() ==> is_digit(#[trigger] digits@[i]),
            digits@ + whole_part(chars@.subrange(end as int, at as int)) == whole_part(number),
        decreases at - end,
    {
        assert(numeric(chars@[end as int]));
        let ghost rest = chars@.subrange(end as int, at as int);
        assert(rest.drop_first() =~= chars@.subrange(end + 1, at as int));
        let ghost before = digits@;
        digits.push(chars[end]);
        assert(before + whole_part(rest) =~= digits@ + whole_part(rest.drop_first()));
        end = end + 1;
    }
    assert(whole_part(chars@.subrange(end as int, at as int)) =~= Seq::empty());
    assert(digits@ =~= whole_part(number));
    if end == start {
        return None;
    }
    let point: usize = if end < at { end + 1 } else { at };
    let ghost fraction = fraction_part(number);
    assert(fraction =~= chars@.subrange(point as int, at as int));
    let mut i: usize = point;
    while i < at
        invariant
            point <= i <= at < chars.len(),
            fraction == chars@.subrange(point as int, at as int),
            fraction == fraction_part(number),
            number == number_before(chars@, at as int),
            forall|j: int| 0 <= j < i - point ==> is_digit(#[trigger] fraction[j]),
        decreases at - i,
    {
        let c = chars[i];
        assert(fraction[i - point] == c);
        if c < '0' || '9' < c {
            assert(!is_digit(fraction_part(number)[i - point]));
            return None;
        }
        i = i + 1;
    }
    let count: usize = if chars[at] == 'm' { 3 } else { 6 };
    let ghost whole = digits@;
    let ghost pad = padded(fraction, count as nat);
    let mut j: usize = 0;
    assert(whole + pad.take(0) =~= whole);
    while j < count
        invariant
            j <= count <= 6,
            point <= at < chars.len(),
            fraction == chars@.subrange(point as int, at as int),
            pad == padded(fraction, count as nat),
            forall|i: int| 0 <= i < fraction.len() ==> is_digit(#[trigger] fraction[i]),
            digits@ == whole + pad.take(j as int),
            digits@.len() > 0,
            forall|i: int| 0 <= i < digits@.len() ==> is_digit(#[trigger] digits@[i]),
        decreases count - j,
    {
        if j < at - point {
            assert(fraction[j as int] == chars@[point + j]);
            digits.push(chars[point + j]);
        } else {
            digits.push('0');
        }
        assert(digits@ =~= whole + pad.take(j as int + 1));
        j = j + 1;
    }
    assert(pad.take(j as int) =~= pad);
    assert(is_digit(digits@[0]));
    assert(unsigned_part(digits@) == digits@);
    parse_u32(&digits)
}

/// Whether `text`, in lower case, names a size from `least` to `most` thousands
/// of parameters.
pub fn names_size(text: &str, least: u32, most: u32) -> (answer: bool)
    ensures
        answer == of_size(text@, least as nat, most as nat),
{
    let chars = chars_of(text);
    let mut at: usize = 0;
    while at < chars.len()
        invariant
            at <= chars.len(),
            chars@ == text@,
            forall|k: int| 0 <= k < at ==> !size_at(text@, k, least as nat, most as nat),
        decreases chars.len() - at,
    {
        if chars[at] == 'm' || chars[at] == 'b' {
            let ends = if at + 1 < chars.len() {
                let next = chars[at + 1];
                !(('0' <= next && next <= '9') || ('a' <= next && next <= 'z'))
            } else {
                true
            };
            let start = number_start(&chars, at);
            let alone = !(start >= 2 && chars[start - 1] == 'x' && '0' <= chars[start - 2]
                && chars[start - 2] <= '9');
            if ends && alone {
                if let Some(size) = size_before(&chars, start, at) {
                    if least <= size && size <= most {
                        assert(size_at(text@, at as int, least as nat, most as nat));
                        return true;
                    }
                }
            }
        }
        at = at + 1;
    }
    false
}

/// The class of the model that `name`, in lower case, names. Where it names
/// several sizes, the largest class counts.
pub fn class(name: &str) -> (class: Class)
    ensures
        class == class_of(name@),
{
    if names_size(name, 7_000_000, 14_000_000) {
        Class::Large
    } else if names_size(name, 500_000, 3_000_000) {
        Class::Small
    } else if names_size(name, 135_000, 360_000) {
        Class::Tiny
    } else {
        Class::Other
    }
}

// ---------------------------------------------------------------------------
// Laws
// ---------------------------------------------------------------------------

proof fn lemma_whole_part_of_digits(s: Seq<char>)
    requires
        forall|i: int| 0 <= i < s.len() ==> is_digit(#[trigger] s[i]),
    ensures
        whole_part(s) == s,
    decreases s.len(),
{
    if s.len() > 0 {
        assert(is_digit(s[0]));
        let rest = s.drop_first();
        assert forall|i: int| 0 <= i < rest.len() implies is_digit(#[trigger] rest[i]) by {
            assert(is_digit(s[i + 1]));
        }
        lemma_whole_part_of_digits(rest);
        assert(seq![s[0]] + rest =~= s);
    } else {
        assert(whole_part(s) =~= s);
    }
}

proof fn lemma_number_found(s: Seq<char>, from: int, at: int)
    requires
        0 <= from <= at <= s.len(),
        from > 0 ==> !numeric(s[from - 1]),
        forall|i: int| from <= i < at ==> numeric(#[trigger] s[i]),
    ensures
        number_before(s, at) == s.subrange(from, at),
    decreases at - from,
{
    if from == at {
        assert(s.subrange(from, at) =~= Seq::empty());
    } else {
        assert(numeric(s[at - 1]));
        lemma_number_found(s, from, at - 1);
        assert(s.subrange(from, at - 1).push(s[at - 1]) =~= s.subrange(from, at));
    }
}

proof fn lemma_zeros_scale(digits: Seq<char>, zeros: Seq<char>)
    requires
        forall|i: int| 0 <= i < zeros.len() ==> zeros[i] == '0',
    ensures
        zeros.len() == 3 ==> digits_value(digits + zeros) == digits_value(digits) * 1_000,
        zeros.len() == 6 ==> digits_value(digits + zeros) == digits_value(digits) * 1_000_000,
{
    if zeros.len() == 3 {
        lemma_three_zeros_scale(digits, zeros);
    } else if zeros.len() == 6 {
        let first = zeros.take(3);
        let last = zeros.skip(3);
        lemma_three_zeros_scale(digits, first);
        lemma_three_zeros_scale(digits + first, last);
        assert(digits + zeros =~= digits + first + last);
    }
}

proof fn lemma_three_zeros_scale(digits: Seq<char>, zeros: Seq<char>)
    requires
        zeros.len() == 3,
        forall|i: int| 0 <= i < zeros.len() ==> zeros[i] == '0',
    ensures
        digits_value(digits + zeros) == digits_value(digits) * 1_000,
{
    let one = digits.push('0');
    let two = one.push('0');
    let three = two.push('0');
    assert(digits + zeros =~= three);
    assert(three.drop_last() =~= two);
    assert(two.drop_last() =~= one);
    assert(one.drop_last() =~= digits);
    assert(digits_value(one) == digits_value(digits) * 10);
    assert(digits_value(two) == digits_value(one) * 10);
}

/// A whole number of units in a name is found: `head`, the number, the unit and
/// `tail` name a size of so many millions or billions of parameters, where
/// `head` does not run into the number nor the unit into `tail`.
pub proof fn law_size_is_found(
    head: Seq<char>,
    units: nat,
    unit: char,
    tail: Seq<char>,
    least: nat,
    most: nat,
)
    requires
        is_unit(unit),
        head.len() > 0 ==> !numeric(head.last()),
        !repeated(head, head.len() as int),
        tail.len() > 0 ==> !wordy(tail[0]),
        unit == 'm' ==> least <= units * 1_000 <= most,
        unit == 'b' ==> least <= units * 1_000_000 <= most,
    ensures
        of_size(head + decimal(units) + seq![unit] + tail, least, most),
{
    let number = decimal(units);
    let s = head + number + seq![unit] + tail;
    let from = head.len() as int;
    let at = from + number.len();
    law_decimal_reads_back(units);
    assert forall|i: int| from <= i < at implies numeric(#[trigger] s[i]) by {
        assert(is_digit(number[i - from]));
    }
    if from > 0 {
        assert(s[from - 1] == head.last());
    }
    if from > 1 {
        assert(s[from - 2] == head[from - 2]);
    }
    lemma_number_found(s, from, at);
    assert(s.subrange(from, at) =~= number);
    lemma_whole_part_of_digits(number);
    assert(s[at] == unit);
    if at + 1 < s.len() {
        assert(s[at + 1] == tail[0]);
    }
    lemma_zeros_scale(number, padded(fraction_part(number), places(unit)));
    assert(size_at(s, at, least, most));
}

proof fn lemma_number_is_a_run(s: Seq<char>, at: int)
    requires
        0 <= at <= s.len(),
    ensures
        number_before(s, at).len() <= at,
        number_before(s, at) == s.subrange(at - number_before(s, at).len(), at),
        at - number_before(s, at).len() > 0 ==> !numeric(s[at - number_before(s, at).len() - 1]),
    decreases at,
{
    if 0 < at && numeric(s[at - 1]) {
        lemma_number_is_a_run(s, at - 1);
        let before = number_before(s, at - 1);
        let from = at - 1 - before.len();
        assert(before.push(s[at - 1]) =~= s.subrange(from, at));
    } else {
        assert(s.subrange(at, at) =~= Seq::empty());
    }
}

proof fn lemma_whole_part_is_a_prefix(number: Seq<char>)
    ensures
        whole_part(number).len() <= number.len(),
        whole_part(number) == number.take(whole_part(number).len() as int),
        forall|i: int| 0 <= i < whole_part(number).len() ==> #[trigger] number[i] != '.',
        whole_part(number).len() < number.len() ==> number[whole_part(number).len() as int] == '.',
    decreases number.len(),
{
    if number.len() == 0 || number[0] == '.' {
        assert(number.take(0) =~= Seq::empty());
    } else {
        let rest = number.drop_first();
        lemma_whole_part_is_a_prefix(rest);
        let whole = whole_part(rest);
        assert(seq![number[0]] + whole =~= number.take(whole.len() as int + 1));
        assert forall|i: int| 0 <= i < whole.len() + 1 implies #[trigger] number[i] != '.' by {
            if i > 0 {
                assert(rest[i - 1] != '.');
            }
        }
    }
}

proof fn lemma_whole_part_ends_at_the_point(number: Seq<char>, end: int)
    requires
        0 <= end <= number.len(),
        forall|i: int| 0 <= i < end ==> #[trigger] number[i] != '.',
        end < number.len() ==> number[end] == '.',
    ensures
        whole_part(number) == number.take(end),
{
    lemma_whole_part_is_a_prefix(number);
    let length = whole_part(number).len() as int;
    if length < end {
        assert(number[length] == '.');
    }
    if end < length {
        assert(number[end] != '.');
    }
}

/// Whether `s` has digits from `from` to `point`, then a point and digits up to
/// `at` or nothing, and no more digits or points before them.
pub open spec fn digits_stand(s: Seq<char>, from: int, point: int, at: int) -> bool {
    &&& 0 <= from < point <= at < s.len()
    &&& forall|i: int| from <= i < point ==> '0' <= #[trigger] s[i] <= '9'
    &&& point < at ==> s[point] == '.'
    &&& forall|i: int| point < i < at ==> '0' <= #[trigger] s[i] <= '9'
    &&& from > 0 ==> !('0' <= s[from - 1] <= '9') && s[from - 1] != '.'
}

/// The digits of a size in thousands of parameters: those before the point, and
/// the first three after it for millions, six for billions, with zeros for those
/// that are missing.
pub open spec fn scaled(s: Seq<char>, from: int, point: int, at: int) -> Seq<char> {
    s.subrange(from, point) + Seq::new(
        if s[at] == 'm' { 3 } else { 6 },
        |i: int| if point + 1 + i < at { s[point + 1 + i] } else { '0' },
    )
}

/// Whether the digits from `from` to `at` and the unit at `at` make a size from
/// `least` to `most` thousands of parameters: the unit is `m` or `b`, neither a
/// letter nor a digit follows it, and the digits do not follow a digit and `x`.
pub open spec fn size_stands(
    s: Seq<char>,
    from: int,
    point: int,
    at: int,
    least: nat,
    most: nat,
) -> bool {
    &&& digits_stand(s, from, point, at)
    &&& s[at] == 'm' || s[at] == 'b'
    &&& at + 1 < s.len() ==> !('0' <= s[at + 1] <= '9') && !('a' <= s[at + 1] <= 'z')
    &&& !(from >= 2 && s[from - 1] == 'x' && '0' <= s[from - 2] <= '9')
    &&& least <= digits_value(scaled(s, from, point, at)) <= most
}

proof fn lemma_size_stands(s: Seq<char>, at: int, least: nat, most: nat)
    requires
        size_at(s, at, least, most),
    ensures
        exists|from: int, point: int| size_stands(s, from, point, at, least, most),
{
    let number = number_before(s, at);
    let whole = whole_part(number);
    let from = at - number.len();
    let point = from + whole.len();
    lemma_number_is_a_run(s, at);
    lemma_number_is_numeric(s, at);
    lemma_whole_part_is_a_prefix(number);
    let fraction = fraction_part(number);
    assert forall|i: int| from <= i < point implies '0' <= #[trigger] s[i] <= '9' by {
        assert(number[i - from] == s[i]);
        assert(numeric(number[i - from]));
        assert(number[i - from] != '.');
    }
    if point < at {
        assert(number[point - from] == s[point]);
    }
    assert forall|i: int| point < i < at implies '0' <= #[trigger] s[i] <= '9' by {
        assert(fraction[i - point - 1] == s[i]);
        assert(is_digit(fraction[i - point - 1]));
    }
    assert(digits_stand(s, from, point, at));
    assert(whole =~= s.subrange(from, point));
    assert(scaled(s, from, point, at) =~= whole + padded(fraction, places(s[at])));
    assert(size_stands(s, from, point, at, least, most));
}

proof fn lemma_standing_size_is_one(
    s: Seq<char>,
    from: int,
    point: int,
    at: int,
    least: nat,
    most: nat,
)
    requires
        size_stands(s, from, point, at, least, most),
    ensures
        size_at(s, at, least, most),
{
    assert forall|i: int| from <= i < at implies numeric(#[trigger] s[i]) by {
        if i != point {
            assert('0' <= s[i] <= '9');
        }
    }
    lemma_number_found(s, from, at);
    let number = s.subrange(from, at);
    assert forall|i: int| 0 <= i < point - from implies #[trigger] number[i] != '.' by {
        assert('0' <= s[from + i] <= '9');
    }
    lemma_whole_part_ends_at_the_point(number, point - from);
    assert(whole_part(number) =~= s.subrange(from, point));
    let fraction = fraction_part(number);
    assert forall|i: int| 0 <= i < fraction.len() implies is_digit(#[trigger] fraction[i]) by {
        assert(fraction[i] == s[point + 1 + i]);
        assert('0' <= s[point + 1 + i] <= '9');
    }
    assert(scaled(s, from, point, at) =~= whole_part(number) + padded(fraction, places(s[at])));
}

/// A size is a number and its unit, and any number with its unit is a size.
pub proof fn law_size_is_number_and_unit(s: Seq<char>, at: int, least: nat, most: nat)
    ensures
        size_at(s, at, least, most) <==> exists|from: int, point: int|
            size_stands(s, from, point, at, least, most),
{
    if size_at(s, at, least, most) {
        lemma_size_stands(s, at, least, most);
    }
    if exists|from: int, point: int| size_stands(s, from, point, at, least, most) {
        let (from, point) = choose|from: int, point: int|
            size_stands(s, from, point, at, least, most);
        lemma_standing_size_is_one(s, from, point, at, least, most);
    }
}

/// A model is large if its name gives a size from 7B to 14B; else small if it
/// gives one from 0.5B to 3B; else tiny if it gives one from 135M to 360M.
pub proof fn law_classes_go_by_size(name: Seq<char>)
    ensures
        class_of(name) == Class::Large <==> exists|at: int|
            size_at(name, at, 7_000_000, 14_000_000),
        class_of(name) == Class::Small <==> class_of(name) != Class::Large && exists|at: int|
            size_at(name, at, 500_000, 3_000_000),
        class_of(name) == Class::Tiny <==> class_of(name) != Class::Large && class_of(name)
            != Class::Small && exists|at: int| size_at(name, at, 135_000, 360_000),
{
}

} // verus!
