use vstd::prelude::*;

use crate::platypus::older;

verus! {

/// Whether a character is a decimal digit.
pub open spec fn is_digit(c: char) -> bool {
    '0' <= c && c <= '9'
}

/// Whether every character of the text is a decimal digit.
pub open spec fn is_numeral(s: Seq<char>) -> bool {
    forall|i: int| 0 <= i < s.len() ==> is_digit(#[trigger] s[i])
}

/// The value of a decimal digit.
pub open spec fn digit_value(c: char) -> nat {
    (c as int - '0' as int) as nat
}

/// The number that a decimal numeral stands for, most significant digit first.
pub open spec fn numeral_value(s: Seq<char>) -> nat
    decreases s.len(),
{
    if s.len() == 0 {
        0
    } else {
        numeral_value(s.drop_last()) * 10 + digit_value(s.last())
    }
}

/// Ten to the power `n`.
pub open spec fn pow10(n: nat) -> nat
    decreases n,
{
    if n == 0 {
        1
    } else {
        10 * pow10((n - 1) as nat)
    }
}

/// The age after `n` more years.
pub open spec fn aged(age: Seq<char>, n: nat) -> Seq<char>
    decreases n,
{
    if n == 0 {
        age
    } else {
        older(aged(age, (n - 1) as nat))
    }
}

/// Growing older keeps an age written in decimal digits a decimal numeral,
/// and adds ten to the power of its length to the number it stands for:
/// "4" becomes "14", "14" becomes "114".
pub proof fn lemma_older_adds_power_of_ten(age: Seq<char>)
    requires
        is_numeral(age),
    ensures
        is_numeral(older(age)),
        numeral_value(older(age)) == pow10(age.len()) + numeral_value(age),
    decreases age.len(),
{
    reveal_strlit("1");
    let grown = older(age);
    assert(grown.len() == age.len() + 1);
    assert(grown[0] == '1');
    assert forall|i: int| 0 <= i < grown.len() implies is_digit(#[trigger] grown[i]) by {
        if i > 0 {
            assert(grown[i] == age[i - 1]);
        }
    }
    if age.len() == 0 {
        assert(grown.drop_last() =~= Seq::<char>::empty());
        assert(grown.last() == '1');
        assert(numeral_value(grown) == numeral_value(grown.drop_last()) * 10 + digit_value(grown.last()));
    } else {
        let front = age.drop_last();
        assert(is_numeral(front)) by {
            assert forall|i: int| 0 <= i < front.len() implies is_digit(#[trigger] front[i]) by {
                assert(front[i] == age[i]);
            }
        }
        lemma_older_adds_power_of_ten(front);
        assert(grown.drop_last() =~= older(front));
        assert(grown.last() == age.last());
        assert(pow10(age.len()) == 10 * pow10(front.len()));
        assert(numeral_value(grown) == numeral_value(older(front)) * 10 + digit_value(age.last()));
        assert(numeral_value(age) == numeral_value(front) * 10 + digit_value(age.last()));
    }
}

/// After `n` more years the age text is `n` ones followed by the old age text.
pub proof fn lemma_aged_prepends_ones(age: Seq<char>, n: nat)
    ensures
        aged(age, n) =~= Seq::new(n, |i: int| '1') + age,
    decreases n,
{
    reveal_strlit("1");
    if n > 0 {
        lemma_aged_prepends_ones(age, (n - 1) as nat);
    }
}

} // verus!
