//! Phone-number text: stripping everything but digits, and the progressive
//! `DDD-DDD-DDDD` grouping shown while a number is typed.

use vstd::prelude::*;

verus! {

/// An ASCII decimal digit.
pub open spec fn is_ascii_digit(c: char) -> bool {
    '0' <= c <= '9'
}

/// The predicate that `clean_digits` filters by.
pub open spec fn digit_pred() -> spec_fn(char) -> bool {
    |c: char| is_ascii_digit(c)
}

/// The digits of `s`, in the order in which they stand in `s`.
pub open spec fn clean_digits(s: Seq<char>) -> Seq<char> {
    s.filter(digit_pred())
}

/// The grouping that is shown for a run of digits: up to three digits and
/// more than ten stay as they are, four to six become `DDD-D..`, seven to ten
/// become `DDD-DDD-D..`.
pub open spec fn group_digits(d: Seq<char>) -> Seq<char> {
    if d.len() <= 3 || d.len() > 10 {
        d
    } else if d.len() <= 6 {
        d.subrange(0, 3) + seq!['-'] + d.subrange(3, d.len() as int)
    } else {
        d.subrange(0, 3) + seq!['-'] + d.subrange(3, 6) + seq!['-'] + d.subrange(
            6,
            d.len() as int,
        )
    }
}

/// What is shown for the text `s`: its digits, grouped.
pub open spec fn format_progressive(s: Seq<char>) -> Seq<char> {
    group_digits(clean_digits(s))
}

/// Every element of `clean_digits(s)` is a digit.
pub proof fn lemma_clean_digits_all_digits(s: Seq<char>)
    ensures
        forall|i: int|
            0 <= i < clean_digits(s).len() ==> is_ascii_digit(#[trigger] clean_digits(s)[i]),
{
    assert forall|i: int| 0 <= i < clean_digits(s).len() implies is_ascii_digit(
        #[trigger] clean_digits(s)[i],
    ) by {
        s.lemma_filter_pred(digit_pred(), i);
    }
}

/// `a` can be read off `b` from left to right: `idx` gives, for each element
/// of `a`, a position of `b` that holds it, and the positions increase.
pub open spec fn embeds_at(a: Seq<char>, b: Seq<char>, idx: Seq<int>) -> bool {
    &&& idx.len() == a.len()
    &&& forall|k: int| 0 <= k < idx.len() ==> 0 <= #[trigger] idx[k] < b.len() && a[k] == b[idx[k]]
    &&& forall|j: int, k: int| 0 <= j < k < idx.len() ==> idx[j] < idx[k]
}

/// `a` holds elements of `b` in the relative order that they have in `b`.
pub open spec fn keeps_order_of(a: Seq<char>, b: Seq<char>) -> bool {
    exists|idx: Seq<int>| embeds_at(a, b, idx)
}

/// The digits of a text are digits only, stand in the order that they have in
/// the text, and are no more than the text is long.
pub proof fn lemma_clean_digits_shape(s: Seq<char>)
    ensures
        forall|i: int|
            0 <= i < clean_digits(s).len() ==> is_ascii_digit(#[trigger] clean_digits(s)[i]),
        keeps_order_of(clean_digits(s), s),
        clean_digits(s).len() <= s.len(),
    decreases s.len(),
{
    lemma_clean_digits_all_digits(s);
    s.lemma_filter_len(digit_pred());
    if s.len() == 0 {
        reveal(Seq::filter);
        assert(embeds_at(clean_digits(s), s, Seq::<int>::empty()));
    } else {
        let init = s.drop_last();
        let c = s.last();
        lemma_clean_digits_shape(init);
        init.lemma_filter_push(c, digit_pred());
        assert(init.push(c) == s);
        let idx = choose|idx: Seq<int>| embeds_at(clean_digits(init), init, idx);
        if is_ascii_digit(c) {
            let longer = idx.push(s.len() - 1);
            assert(embeds_at(clean_digits(s), s, longer));
        } else {
            assert(embeds_at(clean_digits(s), s, idx));
        }
    }
}

/// A text of digits only is its own cleaning.
pub proof fn lemma_clean_digits_of_digits(d: Seq<char>)
    requires
        forall|i: int| 0 <= i < d.len() ==> is_ascii_digit(#[trigger] d[i]),
    ensures
        clean_digits(d) == d,
    decreases d.len(),
{
    if d.len() == 0 {
        reveal(Seq::filter);
    } else {
        lemma_clean_digits_of_digits(d.drop_last());
        d.drop_last().lemma_filter_push(d.last(), digit_pred());
        assert(d.drop_last().push(d.last()) == d);
    }
}

/// Cleaning takes the hyphens of a grouping out again.
pub proof fn lemma_clean_digits_of_grouping(d: Seq<char>)
    requires
        forall|i: int| 0 <= i < d.len() ==> is_ascii_digit(#[trigger] d[i]),
    ensures
        clean_digits(group_digits(d)) == d,
{
    let p = digit_pred();
    let hyphen = seq!['-'];
    let n = d.len() as int;
    lemma_clean_digits_of_digits(d);
    assert(hyphen.filter(p) == Seq::<char>::empty()) by {
        Seq::<char>::empty().lemma_filter_push('-', p);
        assert(Seq::<char>::empty().push('-') == hyphen);
        reveal(Seq::filter);
    }
    if d.len() <= 3 || d.len() > 10 {
    } else if d.len() <= 6 {
        let a = d.subrange(0, 3);
        let b = d.subrange(3, n);
        lemma_clean_digits_of_digits(a);
        lemma_clean_digits_of_digits(b);
        Seq::filter_distributes_over_add(a, hyphen, p);
        Seq::filter_distributes_over_add(a + hyphen, b, p);
        assert(a + Seq::<char>::empty() + b == d);
    } else {
        let a = d.subrange(0, 3);
        let b = d.subrange(3, 6);
        let c = d.subrange(6, n);
        lemma_clean_digits_of_digits(a);
        lemma_clean_digits_of_digits(b);
        lemma_clean_digits_of_digits(c);
        Seq::filter_distributes_over_add(a, hyphen, p);
        Seq::filter_distributes_over_add(a + hyphen, b, p);
        Seq::filter_distributes_over_add(a + hyphen + b, hyphen, p);
        Seq::filter_distributes_over_add(a + hyphen + b + hyphen, c, p);
        assert(a + Seq::<char>::empty() + b + Seq::<char>::empty() + c == d);
    }
}

/// The digits of a formatted text are the digits of the text.
pub proof fn lemma_format_keeps_digits(s: Seq<char>)
    ensures
        clean_digits(format_progressive(s)) == clean_digits(s),
{
    lemma_clean_digits_all_digits(s);
    lemma_clean_digits_of_grouping(clean_digits(s));
}

/// Formatting what was formatted, with or without cleaning it in between,
/// changes nothing.
pub proof fn lemma_format_idempotent(s: Seq<char>)
    ensures
        format_progressive(clean_digits(format_progressive(s))) == format_progressive(s),
        format_progressive(format_progressive(s)) == format_progressive(s),
{
    lemma_format_keeps_digits(s);
    lemma_clean_digits_all_digits(s);
    lemma_clean_digits_of_digits(clean_digits(s));
}

/// `String::push` of std: the character is appended to the text.
pub assume_specification[ String::push ](s: &mut String, c: char)
    ensures
        final(s)@ == old(s)@.push(c),
;

/// Removes every character that is not an ASCII digit.
pub fn clean_phone_number(input: &str) -> (digits: String)
    ensures
        digits@ == clean_digits(input@),
        forall|i: int| 0 <= i < digits@.len() ==> is_ascii_digit(#[trigger] digits@[i]),
        keeps_order_of(digits@, input@),
        digits@.len() <= input@.len(),
{
    let mut digits = String::new();
    proof {
        reveal(Seq::filter);
    }
    for c in it: input.chars()
        invariant
            it.seq() == input@,
            digits@ == clean_digits(input@.take(it.index() as int)),
    {
        proof {
            let seen = input@.take(it.index() as int);
            seen.lemma_filter_push(c, digit_pred());
            assert(seen.push(c) == input@.take(it.index() + 1));
        }
        if '0' <= c && c <= '9' {
            digits.push(c);
        }
    }
    proof {
        assert(input@.take(input@.len() as int) == input@);
        lemma_clean_digits_shape(input@);
    }
    digits
}

/// The configured phone number as the login compares it: `value`, the text
/// of the configuration variable, cleaned to its digits; `None` where the
/// variable is not set.
pub fn get_evar(value: Option<&str>) -> (phone: Option<String>)
    ensures
        match value {
            Some(text) => phone matches Some(digits) && digits@ == clean_digits(text@),
            None => phone is None,
        },
{
    match value {
        Some(text) => Some(clean_phone_number(text)),
        None => None,
    }
}

/// Formats the digits of `input` progressively as `DDD-DDD-DDDD`; more than
/// ten digits are passed through without grouping.
pub fn fmt_phone_input(input: &str) -> (formatted: String)
    ensures
        formatted@ == format_progressive(input@),
{
    let digits_only = clean_phone_number(input);
    let d = digits_only.as_str();
    let n: usize = d.unicode_len();
    proof {
        lemma_clean_digits_all_digits(input@);
        assert(vstd::string::is_ascii(d));
        reveal_strlit("-");
        assert("-"@ == seq!['-']);
    }
    if n <= 3 || n > 10 {
        digits_only
    } else if n <= 6 {
        let mut formatted = String::from_str(d.substring_ascii(0, 3));
        formatted.append("-");
        formatted.append(d.substring_ascii(3, n));
        formatted
    } else {
        let mut formatted = String::from_str(d.substring_ascii(0, 3));
        formatted.append("-");
        formatted.append(d.substring_ascii(3, 6));
        formatted.append("-");
        formatted.append(d.substring_ascii(6, n));
        formatted
    }
}

} // verus!
