//! What holds of numerals, of searching and of trimming.

use vstd::prelude::*;

use crate::ir::identifier::{continues_identifier, is_identifier, to_identifier};
use crate::text::{
    concat2, concat3, contains_text, decimal, digit_char, is_white, join_texts, occurs_at,
    occurs_in, push_decimal, push_signed, same_text, starts_with, texts, trim, trimmed_end,
    trimmed_start,
};

verus! {

/// The number that a row of decimal digits stands for.
pub open spec fn numeral_value(digits: Seq<char>) -> int
    decreases digits.len(),
{
    if digits.len() == 0 {
        0
    } else {
        10 * numeral_value(digits.drop_last()) + (digits.last() as int - '0' as int)
    }
}

/// Whether a character is a decimal digit.
pub open spec fn is_digit(c: char) -> bool {
    '0' <= c && c <= '9'
}

proof fn lemma_numeral(n: nat)
    ensures
        numeral_value(decimal(n)) == n,
        decimal(n).len() > 0,
        forall|i: int| 0 <= i < decimal(n).len() ==> is_digit(#[trigger] decimal(n)[i]),
        n > 0 ==> decimal(n)[0] != '0',
        n == 0 ==> decimal(n) == seq!['0'],
    decreases n,
{
    if n < 10 {
        assert(digit_char(n) as int == 48 + n);
        assert(decimal(n).drop_last() =~= Seq::<char>::empty());
        assert(decimal(n).last() == digit_char(n));
        assert(numeral_value(Seq::<char>::empty()) == 0);
        if n == 0 {
            assert(decimal(n) =~= seq!['0']);
        }
    } else {
        lemma_numeral(n / 10);
        assert(digit_char(n % 10) as int == 48 + n % 10);
        assert(decimal(n).drop_last() =~= decimal(n / 10));
        assert(decimal(n).last() == digit_char(n % 10));
        assert(decimal(n)[0] == decimal(n / 10)[0]);
        assert forall|i: int| 0 <= i < decimal(n).len() implies is_digit(
            #[trigger] decimal(n)[i],
        ) by {
            if i < decimal(n / 10).len() {
                assert(decimal(n)[i] == decimal(n / 10)[i]);
            }
        }
    }
}

/// What is appended for a number are decimal digits that stand for it, without
/// leading zeros.
pub proof fn law_numerals_stand_for_their_number(out: &mut String, n: u64)
    requires
        call_ensures(push_decimal, (out, n), ()),
    ensures
        old(out)@.is_prefix_of(final(out)@),
        ({
            let digits = final(out)@.skip(old(out)@.len() as int);
            &&& digits.len() > 0
            &&& forall|i: int| 0 <= i < digits.len() ==> is_digit(#[trigger] digits[i])
            &&& numeral_value(digits) == n
            &&& n > 0 ==> digits[0] != '0'
            &&& n == 0 ==> digits == seq!['0']
        }),
{
    lemma_numeral(n as nat);
    assert(final(out)@.skip(old(out)@.len() as int) =~= decimal(n as nat));
}

/// A negative number is written as a minus sign and the numeral of its
/// absolute value, any other as its numeral.
pub proof fn law_signed_numerals(out: &mut String, n: i32)
    requires
        call_ensures(push_signed, (out, n), ()),
    ensures
        old(out)@.is_prefix_of(final(out)@),
        ({
            let text = final(out)@.skip(old(out)@.len() as int);
            &&& n >= 0 ==> numeral_value(text) == n && text[0] != '-'
            &&& n < 0 ==> text[0] == '-' && numeral_value(text.drop_first()) == -n
        }),
{
    reveal_strlit("-");
    let text = final(out)@.skip(old(out)@.len() as int);
    if n < 0 {
        lemma_numeral((-n) as nat);
        assert(text =~= "-"@ + decimal((-n) as nat));
        assert(text.drop_first() =~= decimal((-n) as nat));
    } else {
        lemma_numeral(n as nat);
        assert(text =~= decimal(n as nat));
        assert(is_digit(decimal(n as nat)[0]));
    }
}

/// A text contains another exactly where it can be taken apart into something,
/// the other, and something.
pub proof fn law_containing_is_standing_between(
    haystack: &str,
    needle: &str,
    yes: bool,
    before: Seq<char>,
    after: Seq<char>,
)
    requires
        call_ensures(contains_text, (haystack, needle), yes),
    ensures
        haystack@ == before + needle@ + after ==> yes,
        yes ==> exists|at: int| #[trigger]
            stands_at(haystack@, needle@, at),
{
    if haystack@ == before + needle@ + after {
        let at = before.len() as int;
        assert(haystack@.subrange(at, at + needle@.len()) =~= needle@);
        assert(occurs_at(haystack@, needle@, at));
        assert(occurs_in(haystack@, needle@));
    }
    if yes {
        let at = choose|at: int| #[trigger] occurs_at(haystack@, needle@, at);
        assert(haystack@ =~= haystack@.take(at) + needle@ + haystack@.skip(at + needle@.len())) by {
            assert forall|i: int| at <= i < at + needle@.len() implies haystack@[i] == needle@[i
                - at] by {
                assert(haystack@.subrange(at, at + needle@.len())[i - at] == haystack@[i]);
            }
        }
        assert(stands_at(haystack@, needle@, at));
    }
}

/// Whether `needle` stands in `haystack` behind the first `at` characters.
pub open spec fn stands_at(haystack: Seq<char>, needle: Seq<char>, at: int) -> bool {
    &&& 0 <= at <= haystack.len() - needle.len()
    &&& haystack == haystack.take(at) + needle + haystack.skip(at + needle.len())
}

/// A text begins with another exactly where it is the other and something
/// behind it.
pub proof fn law_beginning_is_standing_first(s: &str, prefix: &str, yes: bool, rest: Seq<char>)
    requires
        call_ensures(starts_with, (s, prefix), yes),
    ensures
        s@ == prefix@ + rest ==> yes,
        yes ==> s@ == prefix@ + s@.skip(prefix@.len() as int),
{
    if s@ == prefix@ + rest {
        assert(s@.subrange(0, prefix@.len() as int) =~= prefix@);
    }
    if yes {
        assert(s@ =~= prefix@ + s@.skip(prefix@.len() as int));
    }
}

/// Two texts are the same exactly where they have the same characters.
pub proof fn law_same_text(a: &str, b: &str, same: bool)
    requires
        call_ensures(same_text, (a, b), same),
    ensures
        same ==> a@.len() == b@.len(),
        same <==> a@.len() == b@.len() && forall|i: int| 0 <= i < a@.len() ==> a@[i] == b@[i],
{
    if a@.len() == b@.len() && forall|i: int| 0 <= i < a@.len() ==> a@[i] == b@[i] {
        assert(a@ =~= b@);
    }
}

/// One more part goes behind the others, with the separator before it; a
/// single part stands alone.
pub proof fn law_joining_appends(
    parts: Vec<String>,
    longer: Vec<String>,
    separator: &str,
    short: String,
    long: String,
)
    requires
        call_ensures(join_texts, (&parts, separator), short),
        call_ensures(join_texts, (&longer, separator), long),
        longer@.len() == parts@.len() + 1,
        longer@.drop_last() == parts@,
    ensures
        parts@.len() == 0 ==> short@.len() == 0 && long@ == longer@[0]@,
        parts@.len() > 0 ==> long@ == short@ + separator@ + longer@.last()@,
{
    let all = texts(longer@);
    assert(all.drop_last() =~= texts(parts@)) by {
        assert forall|i: int| 0 <= i < parts@.len() implies all[i] == texts(parts@)[i] by {
            assert(longer@.drop_last()[i] == longer@[i]);
        }
    }
    assert(all.last() == longer@.last()@);
}

/// Texts are put one behind the other in the order in which they are given.
pub proof fn law_concatenation_keeps_order(a: &str, b: &str, c: &str, two: String, three: String)
    requires
        call_ensures(concat2, (a, b), two),
        call_ensures(concat3, (a, b, c), three),
    ensures
        two@.len() == a@.len() + b@.len(),
        a@.is_prefix_of(two@),
        two@.skip(a@.len() as int) == b@,
        three@ == two@ + c@,
{
    assert(two@.skip(a@.len() as int) =~= b@);
    assert(three@ =~= two@ + c@);
}

/// Whether every character of the text is white space.
pub open spec fn all_white(s: Seq<char>) -> bool {
    forall|i: int| 0 <= i < s.len() ==> is_white(#[trigger] s[i])
}

proof fn lemma_trimmed_start(s: Seq<char>)
    ensures
        ({
            let t = trimmed_start(s);
            let n = s.len() - t.len();
            &&& 0 <= n
            &&& s == s.take(n) + t
            &&& all_white(s.take(n))
            &&& t.len() > 0 ==> !is_white(t[0])
        }),
    decreases s.len(),
{
    if s.len() > 0 && is_white(s[0]) {
        let rest = s.drop_first();
        lemma_trimmed_start(rest);
        let t = trimmed_start(s);
        let n = s.len() - t.len();
        assert forall|i: int| 0 <= i < n implies is_white(#[trigger] s.take(n)[i]) by {
            if i > 0 {
                assert(rest.take(n - 1)[i - 1] == s[i]);
            }
        }
        assert(s =~= s.take(n) + t) by {
            assert forall|i: int| n <= i < s.len() implies s[i] == t[i - n] by {
                assert(rest[i - 1] == s[i]);
                assert((rest.take(n - 1) + t)[i - 1] == t[i - n]);
            }
        }
    } else {
        assert(s.take(0) =~= Seq::<char>::empty());
        assert(s =~= s.take(0) + s);
    }
}

proof fn lemma_trimmed_end(s: Seq<char>)
    ensures
        ({
            let t = trimmed_end(s);
            let n = t.len() as int;
            &&& n <= s.len()
            &&& t == s.take(n)
            &&& all_white(s.skip(n))
            &&& t.len() > 0 ==> !is_white(t.last())
        }),
    decreases s.len(),
{
    if s.len() > 0 && is_white(s.last()) {
        let rest = s.drop_last();
        lemma_trimmed_end(rest);
        let t = trimmed_end(s);
        let n = t.len() as int;
        assert(s.take(n) =~= rest.take(n));
        assert forall|i: int| 0 <= i < s.skip(n).len() implies is_white(
            #[trigger] s.skip(n)[i],
        ) by {
            if n + i < rest.len() {
                assert(rest.skip(n)[i] == s[n + i]);
            }
        }
    } else {
        assert(s.take(s.len() as int) =~= s);
    }
}

/// Trimming takes white space away from both ends and nothing else: what is
/// left neither begins nor ends with any.
pub proof fn law_trimming_takes_white_space_away(s: &str, trimmed: String)
    requires
        call_ensures(trim, (s,), trimmed),
    ensures
        exists|start: int, end: int| #[trigger]
            leaves(s@, trimmed@, start, end),
        trimmed@.len() > 0 ==> !is_white(trimmed@[0]) && !is_white(trimmed@.last()),
{
    let head = trimmed_start(s@);
    lemma_trimmed_start(s@);
    lemma_trimmed_end(head);
    let start = s@.len() - head.len();
    let end = start + trimmed@.len();
    assert(s@.subrange(start, end) =~= trimmed@) by {
        assert forall|i: int| 0 <= i < trimmed@.len() implies s@[start + i] == trimmed@[i] by {
            assert((s@.take(start) + head)[start + i] == head[i]);
        }
    }
    assert forall|i: int| 0 <= i < s@.skip(end).len() implies is_white(#[trigger] s@.skip(end)[i])
        by {
        assert(head.skip(trimmed@.len() as int)[i] == head[trimmed@.len() + i]);
        assert((s@.take(start) + head)[end + i] == head[trimmed@.len() + i]);
    }
    if trimmed@.len() > 0 {
        assert(trimmed@[0] == head[0]);
    }
    assert(leaves(s@, trimmed@, start, end));
}

/// Whether `left` is what stands between `start` and `end`, and everything
/// around it is white space.
pub open spec fn leaves(s: Seq<char>, left: Seq<char>, start: int, end: int) -> bool {
    &&& 0 <= start <= end <= s.len()
    &&& left == s.subrange(start, end)
    &&& all_white(s.take(start))
    &&& all_white(s.skip(end))
}

/// Among the ASCII characters the white space is the blank and what lies
/// between the tab and the carriage return.
pub proof fn law_ascii_white_space(c: char)
    requires
        c as u32 <= 0x7f,
    ensures
        is_white(c) <==> c == ' ' || ('\t' <= c && c <= '\r'),
{
}

/// A letter or an underscore is an identifier; an identifier stays one with one
/// more character exactly where that is a letter, a digit or an underscore; a
/// text that begins with anything else is none, and neither is the empty text.
pub proof fn law_identifiers(name: &str, id: Option<String>, head: Seq<char>, c: char)
    requires
        call_ensures(to_identifier, (name,), id),
    ensures
        id is Some ==> id->0@ == name@,
        name@.len() == 0 ==> id is None,
        name@.len() == 1 ==> (id is Some <==> ('a' <= name@[0] && name@[0] <= 'z') || ('A'
            <= name@[0] && name@[0] <= 'Z') || name@[0] == '_'),
        head.len() > 0 && name@ == head.push(c) ==> (id is Some <==> is_identifier(head) && (('a'
            <= c && c <= 'z') || ('A' <= c && c <= 'Z') || c == '_' || ('0' <= c && c <= '9'))),
{
    if head.len() > 0 && name@ == head.push(c) {
        assert(name@[0] == head[0]);
        assert(name@[head.len() as int] == c);
        if is_identifier(name@) {
            assert forall|i: int| 0 < i < head.len() implies continues_identifier(#[trigger] head[i]) by {
                assert(name@[i] == head[i]);
            }
        }
        if is_identifier(head) && id is None {
            assert forall|i: int| 0 < i < head.len() implies continues_identifier(#[trigger] name@[i]) by {
                assert(name@[i] == head[i]);
            }
        }
    }
}

/// Beyond ASCII the white space is the next-line and no-break characters, the
/// Ogham mark, the typographic blanks, the line and paragraph separators, and
/// the mathematical and ideographic blanks.
pub proof fn law_other_white_space(c: char)
    requires
        c as u32 > 0x7f,
    ensures
        is_white(c) <==> c == '\u{85}' || c == '\u{a0}' || c == '\u{1680}' || ('\u{2000}' <= c && c
            <= '\u{200a}') || c == '\u{2028}' || c == '\u{2029}' || c == '\u{202f}' || c
            == '\u{205f}' || c == '\u{3000}',
{
}

} // verus!
