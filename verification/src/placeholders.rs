//! Reading a query text back: the numbers of its placeholders, in the order
//! in which they stand, and how they behave under concatenation.

use vstd::prelude::*;
use crate::text::{decimal, digit_char, joined};

verus! {

/// Whether `c` is a decimal digit.
pub open spec fn is_digit(c: char) -> bool {
    '0' <= c && c <= '9'
}

/// The number that the digit `c` writes.
pub open spec fn digit_value(c: char) -> nat {
    (c as u32 - '0' as u32) as nat
}

/// The number written by the digits of `s` from index `i` on, up to the
/// first character that is no digit, continuing the number `acc`.
pub open spec fn number_from(s: Seq<char>, i: int, acc: nat) -> nat
    decreases s.len() - i,
{
    if 0 <= i < s.len() && is_digit(s[i]) {
        number_from(s, i + 1, acc * 10 + digit_value(s[i]))
    } else {
        acc
    }
}

/// The numbers of the placeholders of `s` from index `i` on: for every `$`,
/// the number that the digits after it write.
pub open spec fn placeholders_from(s: Seq<char>, i: int) -> Seq<nat>
    decreases s.len() - i,
{
    if 0 <= i < s.len() {
        if s[i] == '$' {
            seq![number_from(s, i + 1, 0)] + placeholders_from(s, i + 1)
        } else {
            placeholders_from(s, i + 1)
        }
    } else {
        Seq::empty()
    }
}

/// The numbers of the placeholders of a text, in the order in which they
/// stand in it.
pub open spec fn placeholders(s: Seq<char>) -> Seq<nat> {
    placeholders_from(s, 0)
}

/// Whether a text holds no `$`.
pub open spec fn dollar_free(s: Seq<char>) -> bool {
    forall|j: int| 0 <= j < s.len() ==> s[j] != '$'
}

/// Whether a text is empty or begins with a character that is no digit, so
/// that it ends a number that stands before it.
pub open spec fn ends_number(s: Seq<char>) -> bool {
    s.len() == 0 || !is_digit(s[0])
}

/// Whether a text holds digits only.
pub open spec fn all_digits(s: Seq<char>) -> bool {
    forall|j: int| 0 <= j < s.len() ==> is_digit(#[trigger] s[j])
}

/// The placeholders of all `items`, in order.
pub open spec fn placeholders_of_all(items: Seq<Seq<char>>) -> Seq<nat>
    decreases items.len(),
{
    if items.len() == 0 {
        Seq::empty()
    } else {
        placeholders_of_all(items.drop_last()) + placeholders(items.last())
    }
}

/// Reading a number in the second part of a text does not depend on the
/// first part.
pub proof fn lemma_number_shift(x: Seq<char>, y: Seq<char>, j: int, acc: nat)
    requires
        0 <= j,
    ensures
        number_from(x + y, x.len() + j, acc) == number_from(y, j, acc),
    decreases y.len() - j,
{
    if j < y.len() {
        assert((x + y)[x.len() + j] == y[j]);
        if is_digit(y[j]) {
            lemma_number_shift(x, y, j + 1, acc * 10 + digit_value(y[j]));
        }
    }
}

/// Reading the placeholders of the second part of a text does not depend on
/// the first part.
pub proof fn lemma_placeholders_shift(x: Seq<char>, y: Seq<char>, j: int)
    requires
        0 <= j,
    ensures
        placeholders_from(x + y, x.len() + j) == placeholders_from(y, j),
    decreases y.len() - j,
{
    if j < y.len() {
        assert((x + y)[x.len() + j] == y[j]);
        lemma_placeholders_shift(x, y, j + 1);
        lemma_number_shift(x, y, j + 1, 0);
    }
}

/// A number in the first part of a text is not continued by a second part
/// that begins with no digit.
pub proof fn lemma_number_prefix(x: Seq<char>, y: Seq<char>, i: int, acc: nat)
    requires
        0 <= i <= x.len(),
        ends_number(y),
    ensures
        number_from(x + y, i, acc) == number_from(x, i, acc),
    decreases x.len() - i,
{
    if i < x.len() {
        assert((x + y)[i] == x[i]);
        if is_digit(x[i]) {
            lemma_number_prefix(x, y, i + 1, acc * 10 + digit_value(x[i]));
        }
    } else {
        if y.len() > 0 {
            assert((x + y)[i] == y[0]);
        }
    }
}

proof fn lemma_split_from(x: Seq<char>, y: Seq<char>, i: int)
    requires
        0 <= i <= x.len(),
        ends_number(y),
    ensures
        placeholders_from(x + y, i) == placeholders_from(x, i) + placeholders(y),
    decreases x.len() - i,
{
    if i < x.len() {
        assert((x + y)[i] == x[i]);
        lemma_split_from(x, y, i + 1);
        lemma_number_prefix(x, y, i + 1, 0);
        assert(placeholders_from(x + y, i) =~= placeholders_from(x, i) + placeholders(y));
    } else {
        lemma_placeholders_shift(x, y, 0);
        assert(placeholders_from(x + y, i) =~= placeholders_from(x, i) + placeholders(y));
    }
}

/// Where the second part of a text begins with no digit, the placeholders
/// of the whole are those of the first part, then those of the second.
pub proof fn lemma_placeholders_split(x: Seq<char>, y: Seq<char>)
    requires
        ends_number(y),
    ensures
        placeholders(x + y) == placeholders(x) + placeholders(y),
{
    lemma_split_from(x, y, 0);
}

proof fn lemma_skip_from(x: Seq<char>, y: Seq<char>, i: int)
    requires
        0 <= i <= x.len(),
        dollar_free(x),
    ensures
        placeholders_from(x + y, i) == placeholders(y),
    decreases x.len() - i,
{
    if i < x.len() {
        assert((x + y)[i] == x[i]);
        lemma_skip_from(x, y, i + 1);
    } else {
        lemma_placeholders_shift(x, y, 0);
    }
}

/// A first part without `$` adds no placeholder.
pub proof fn lemma_placeholders_skip(x: Seq<char>, y: Seq<char>)
    requires
        dollar_free(x),
    ensures
        placeholders(x + y) == placeholders(y),
{
    lemma_skip_from(x, y, 0);
}

/// A text without `$` has no placeholder.
pub proof fn lemma_dollar_free_has_none(x: Seq<char>)
    requires
        dollar_free(x),
    ensures
        placeholders(x) == Seq::<nat>::empty(),
{
    lemma_placeholders_skip(x, Seq::empty());
    assert(x + Seq::<char>::empty() =~= x);
}

proof fn lemma_none_from(x: Seq<char>, i: int)
    requires
        0 <= i,
        placeholders_from(x, i).len() == 0,
    ensures
        forall|j: int| i <= j < x.len() ==> x[j] != '$',
    decreases x.len() - i,
{
    if i < x.len() {
        lemma_none_from(x, i + 1);
    }
}

/// A text that has no placeholder holds no `$`.
pub proof fn lemma_none_is_dollar_free(x: Seq<char>)
    requires
        placeholders(x).len() == 0,
    ensures
        dollar_free(x),
{
    lemma_none_from(x, 0);
}

/// A `$` makes one placeholder, numbered by the digits that follow it.
pub proof fn lemma_placeholder_at_dollar(z: Seq<char>)
    ensures
        placeholders(seq!['$'] + z) == seq![number_from(z, 0, 0)] + placeholders(z),
{
    let s = seq!['$'] + z;
    assert(s[0] == '$');
    lemma_placeholders_shift(seq!['$'], z, 0);
    lemma_number_shift(seq!['$'], z, 0, 0);
}

proof fn lemma_digits_from(u: Seq<char>, y: Seq<char>, i: int, acc: nat)
    requires
        0 <= i <= u.len(),
        all_digits(u),
    ensures
        number_from(u + y, i, acc) == number_from(y, 0, number_from(u, i, acc)),
    decreases u.len() - i,
{
    if i < u.len() {
        assert((u + y)[i] == u[i]);
        assert(is_digit(u[i]));
        lemma_digits_from(u, y, i + 1, acc * 10 + digit_value(u[i]));
    } else {
        lemma_number_shift(u, y, 0, acc);
    }
}

/// The decimal numeral of `n` holds digits only, and they write `n`.
pub proof fn lemma_decimal_reads_back(n: nat)
    ensures
        all_digits(decimal(n)),
        dollar_free(decimal(n)),
        decimal(n).len() > 0,
        number_from(decimal(n), 0, 0) == n,
    decreases n,
{
    if n < 10 {
        assert(decimal(n) =~= seq![digit_char(n)]);
        assert(is_digit(digit_char(n)));
        assert(digit_value(digit_char(n)) == n);
        reveal_with_fuel(number_from, 3);
    } else {
        let u = decimal(n / 10);
        let d = digit_char(n % 10);
        lemma_decimal_reads_back(n / 10);
        assert(decimal(n) =~= u + seq![d]);
        assert(is_digit(d));
        assert(digit_value(d) == n % 10);
        lemma_digits_from(u, seq![d], 0, 0);
        reveal_with_fuel(number_from, 3);
        assert(number_from(seq![d], 0, n / 10) == (n / 10) * 10 + n % 10);
        assert forall|j: int| 0 <= j < decimal(n).len() implies is_digit(#[trigger] decimal(n)[j]) by {
            if j < u.len() {
                assert(decimal(n)[j] == u[j]);
            }
        }
    }
}

/// A `$` with the numeral of `n`, followed by no further digit, is one
/// placeholder with the number `n`.
pub proof fn lemma_numbered_placeholder(n: nat, rest: Seq<char>)
    requires
        ends_number(rest),
    ensures
        placeholders(seq!['$'] + (decimal(n) + rest)) == seq![n] + placeholders(rest),
{
    lemma_decimal_reads_back(n);
    lemma_placeholder_at_dollar(decimal(n) + rest);
    lemma_number_prefix(decimal(n), rest, 0, 0);
    lemma_placeholders_skip(decimal(n), rest);
}

/// The placeholders of two lists of items, one after the other.
pub proof fn lemma_placeholders_of_all_concat(a: Seq<Seq<char>>, b: Seq<Seq<char>>)
    ensures
        placeholders_of_all(a + b) == placeholders_of_all(a) + placeholders_of_all(b),
    decreases b.len(),
{
    if b.len() == 0 {
        assert(a + b =~= a);
    } else {
        lemma_placeholders_of_all_concat(a, b.drop_last());
        assert((a + b).drop_last() =~= a + b.drop_last());
        assert((a + b).last() == b.last());
    }
}

/// Items without `$` have no placeholder between them.
pub proof fn lemma_placeholders_of_all_none(items: Seq<Seq<char>>)
    requires
        forall|k: int| 0 <= k < items.len() ==> dollar_free(#[trigger] items[k]),
    ensures
        placeholders_of_all(items) == Seq::<nat>::empty(),
    decreases items.len(),
{
    if items.len() > 0 {
        lemma_placeholders_of_all_none(items.drop_last());
        lemma_dollar_free_has_none(items.last());
    }
}

/// Joining items with a separator that holds no `$` and begins with no
/// digit keeps the placeholders of the items, in order.
pub proof fn lemma_placeholders_of_joined(items: Seq<Seq<char>>, sep: Seq<char>)
    requires
        dollar_free(sep),
        sep.len() > 0,
        !is_digit(sep[0]),
    ensures
        placeholders(joined(items, sep)) == placeholders_of_all(items),
    decreases items.len(),
{
    if items.len() == 0 {
    } else if items.len() == 1 {
        assert(items.drop_last() =~= Seq::<Seq<char>>::empty());
        assert(placeholders_of_all(items.drop_last()) =~= Seq::<nat>::empty());
    } else {
        let head = joined(items.drop_last(), sep);
        lemma_placeholders_of_joined(items.drop_last(), sep);
        assert(joined(items, sep) =~= head + (sep + items.last()));
        assert((sep + items.last())[0] == sep[0]);
        lemma_placeholders_split(head, sep + items.last());
        lemma_placeholders_skip(sep, items.last());
    }
}

} // verus!
