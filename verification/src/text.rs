//! Small text routines shared by the client and its error messages.

use vstd::prelude::*;

verus! {

/// The texts of a list of strings, in order.
pub open spec fn texts(strings: Seq<String>) -> Seq<Seq<char>> {
    Seq::new(strings.len(), |i: int| strings[i]@)
}

/// The character for a decimal digit.
pub open spec fn digit_char(d: nat) -> char
    recommends
        d < 10,
{
    if d == 0 {
        '0'
    } else if d == 1 {
        '1'
    } else if d == 2 {
        '2'
    } else if d == 3 {
        '3'
    } else if d == 4 {
        '4'
    } else if d == 5 {
        '5'
    } else if d == 6 {
        '6'
    } else if d == 7 {
        '7'
    } else if d == 8 {
        '8'
    } else {
        '9'
    }
}

/// The decimal numeral of `n`, without leading zeros.
pub open spec fn decimal(n: nat) -> Seq<char>
    decreases n,
{
    if n < 10 {
        seq![digit_char(n)]
    } else {
        decimal(n / 10).push(digit_char(n % 10))
    }
}

/// `text` without the `/` characters at its end.
pub open spec fn without_trailing_slashes(text: Seq<char>) -> Seq<char>
    decreases text.len(),
{
    if text.len() > 0 && text.last() == '/' {
        without_trailing_slashes(text.drop_last())
    } else {
        text
    }
}

/// What is left of a text without its trailing slashes is the start of that
/// text, and ends in no `/`.
pub proof fn lemma_without_trailing_slashes(text: Seq<char>)
    ensures
        without_trailing_slashes(text).is_prefix_of(text),
        without_trailing_slashes(text).len() == 0 || without_trailing_slashes(text).last() != '/',
        forall|i: int|
            without_trailing_slashes(text).len() <= i < text.len() ==> text[i] == '/',
    decreases text.len(),
{
    if text.len() > 0 && text.last() == '/' {
        let shorter = text.drop_last();
        lemma_without_trailing_slashes(shorter);
        assert forall|i: int|
            without_trailing_slashes(text).len() <= i < text.len() implies text[i] == '/' by {
            if i < shorter.len() {
                assert(shorter[i] == text[i]);
            }
        }
    }
}

/// The one-character text for a decimal digit.
fn digit_text(d: u16) -> (text: &'static str)
    requires
        d < 10,
    ensures
        text@ == seq![digit_char(d as nat)],
{
    proof {
        reveal_strlit("0");
        reveal_strlit("1");
        reveal_strlit("2");
        reveal_strlit("3");
        reveal_strlit("4");
        reveal_strlit("5");
        reveal_strlit("6");
        reveal_strlit("7");
        reveal_strlit("8");
        reveal_strlit("9");
    }
    let text = if d == 0 {
        "0"
    } else if d == 1 {
        "1"
    } else if d == 2 {
        "2"
    } else if d == 3 {
        "3"
    } else if d == 4 {
        "4"
    } else if d == 5 {
        "5"
    } else if d == 6 {
        "6"
    } else if d == 7 {
        "7"
    } else if d == 8 {
        "8"
    } else {
        "9"
    };
    assert(text@ =~= seq![digit_char(d as nat)]);
    text
}

/// Writes `n` as a decimal numeral.
pub fn decimal_text(n: u16) -> (text: String)
    ensures
        text@ == decimal(n as nat),
    decreases n,
{
    if n < 10 {
        String::from_str(digit_text(n))
    } else {
        let mut text = decimal_text(n / 10);
        text.append(digit_text(n % 10));
        assert(text@ =~= decimal(n as nat));
        text
    }
}

/// Copies `text` without the `/` characters at its end.
pub fn trim_trailing_slashes(text: &str) -> (trimmed: String)
    ensures
        trimmed@ == without_trailing_slashes(text@),
{
    let mut end: usize = text.unicode_len();
    assert(text@.subrange(0, end as int) =~= text@);
    while end > 0 && text.get_char(end - 1) == '/'
        invariant
            end <= text@.len(),
            without_trailing_slashes(text@) == without_trailing_slashes(
                text@.subrange(0, end as int),
            ),
        decreases end,
    {
        proof {
            let cut = text@.subrange(0, end as int);
            assert(cut.last() == '/');
            assert(cut.drop_last() =~= text@.subrange(0, end - 1));
        }
        end = end - 1;
    }
    proof {
        let cut = text@.subrange(0, end as int);
        assert(end > 0 ==> cut.last() == text@[end - 1]);
    }
    String::from_str(text.substring_char(0, end))
}

} // verus!
