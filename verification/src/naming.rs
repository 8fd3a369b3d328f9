use vstd::prelude::*;
use vstd::string::StringExecFns;

verus! {

/// The character of a decimal digit.
pub open spec fn digit_char(d: nat) -> char {
    if d == 0 {
        '0'
    } else if d == 1 {
        '1'
    } else if d == 2 {
        '2'
    } else if d == 3 {
        '3'
    } else if d == 4 {
        '4'
    } else if d == 5 {
        '5'
    } else if d == 6 {
        '6'
    } else if d == 7 {
        '7'
    } else if d == 8 {
        '8'
    } else {
        '9'
    }
}

/// The decimal numeral of `n`, without leading zeros.
pub open spec fn decimal(n: nat) -> Seq<char>
    decreases n,
{
    if n < 10 {
        seq![digit_char(n)]
    } else {
        decimal(n / 10).push(digit_char(n % 10))
    }
}

/// `count` zeros.
pub open spec fn zeros(count: nat) -> Seq<char> {
    Seq::new(count, |i: int| '0')
}

/// The decimal numeral of `n`, filled with leading zeros up to `width`
/// characters. A longer numeral is kept whole.
pub open spec fn zero_padded(n: nat, width: nat) -> Seq<char> {
    let d = decimal(n);
    if d.len() >= width {
        d
    } else {
        zeros((width - d.len()) as nat) + d
    }
}

/// What every page image name starts with.
pub open spec fn name_prefix() -> Seq<char> {
    seq!['p', 'a', 'g', 'e', '_']
}

/// What every page image name ends with.
pub open spec fn name_suffix() -> Seq<char> {
    seq!['.', 'p', 'n', 'g']
}

/// The file name of the image of the page at zero-based `page_index`:
/// the one-based page number in at least four digits between the fixed
/// prefix and suffix.
pub open spec fn page_file_name_spec(page_index: nat) -> Seq<char> {
    name_prefix() + zero_padded(page_index + 1, 4) + name_suffix()
}

/// The name of the document that synthesis writes.
pub open spec fn output_document_name_spec() -> Seq<char> {
    seq!['o', 'u', 't', 'p', 'u', 't', '.', 'p', 'd', 'f']
}

fn digit_str(d: u128) -> (r: &'static str)
    requires
        d < 10,
    ensures
        r@ == seq![digit_char(d as nat)],
{
    proof {
        reveal_strlit("0");
        reveal_strlit("1");
        reveal_strlit("2");
        reveal_strlit("3");
        reveal_strlit("4");
        reveal_strlit("5");
        reveal_strlit("6");
        reveal_strlit("7");
        reveal_strlit("8");
        reveal_strlit("9");
    }
    let r = if d == 0 {
        "0"
    } else if d == 1 {
        "1"
    } else if d == 2 {
        "2"
    } else if d == 3 {
        "3"
    } else if d == 4 {
        "4"
    } else if d == 5 {
        "5"
    } else if d == 6 {
        "6"
    } else if d == 7 {
        "7"
    } else if d == 8 {
        "8"
    } else {
        "9"
    };
    assert(r@ =~= seq![digit_char(d as nat)]);
    r
}

fn append_decimal(out: &mut String, n: u128)
    ensures
        final(out)@ == old(out)@ + decimal(n as nat),
    decreases n,
{
    if n >= 10 {
        append_decimal(out, n / 10);
    }
    out.append(digit_str(n % 10));
    assert(final(out)@ =~= old(out)@ + decimal(n as nat));
}

/// A numeral has one digit below ten, two below a hundred, three below a
/// thousand, and at least four from there on.
pub proof fn lemma_decimal_len(n: nat)
    ensures
        decimal(n).len() >= 1,
        n < 10 ==> decimal(n).len() == 1,
        10 <= n < 100 ==> decimal(n).len() == 2,
        100 <= n < 1000 ==> decimal(n).len() == 3,
        1000 <= n ==> decimal(n).len() >= 4,
    decreases n,
{
    if n >= 10 {
        lemma_decimal_len(n / 10);
    }
}

/// The number that a digit character stands for; zero for any other
/// character.
pub open spec fn digit_value(c: char) -> nat {
    if c == '1' {
        1
    } else if c == '2' {
        2
    } else if c == '3' {
        3
    } else if c == '4' {
        4
    } else if c == '5' {
        5
    } else if c == '6' {
        6
    } else if c == '7' {
        7
    } else if c == '8' {
        8
    } else if c == '9' {
        9
    } else {
        0
    }
}

/// The number that a decimal numeral stands for, leading zeros allowed.
pub open spec fn numeral_value(s: Seq<char>) -> nat
    decreases s.len(),
{
    if s.len() == 0 {
        0
    } else {
        numeral_value(s.drop_last()) * 10 + digit_value(s.last())
    }
}

/// The one-based page number that a page image name carries between its
/// prefix and its suffix.
pub open spec fn page_number_of(name: Seq<char>) -> nat {
    numeral_value(name.subrange(5, name.len() - 4))
}

/// The numeral of a number stands for that number.
pub proof fn lemma_value_of_decimal(n: nat)
    ensures
        numeral_value(decimal(n)) == n,
    decreases n,
{
    let d = decimal(n);
    if n < 10 {
        assert(d.drop_last() =~= Seq::<char>::empty());
        assert(numeral_value(d.drop_last()) == 0);
        assert(d.last() == digit_char(n));
    } else {
        lemma_value_of_decimal(n / 10);
        assert(d.drop_last() =~= decimal(n / 10));
        assert(d.last() == digit_char(n % 10));
    }
}

/// Leading zeros do not change the number that a numeral stands for.
pub proof fn lemma_value_ignores_leading_zeros(count: nat, s: Seq<char>)
    ensures
        numeral_value(zeros(count) + s) == numeral_value(s),
    decreases s.len(), count,
{
    let whole = zeros(count) + s;
    if s.len() > 0 {
        lemma_value_ignores_leading_zeros(count, s.drop_last());
        assert(whole.drop_last() =~= zeros(count) + s.drop_last());
        assert(whole.last() == s.last());
    } else if count > 0 {
        lemma_value_ignores_leading_zeros((count - 1) as nat, s);
        assert(whole.drop_last() =~= zeros((count - 1) as nat) + s);
        assert(whole.last() == '0');
    } else {
        assert(whole =~= s);
    }
}

/// A page image name carries its page number: reading the digits of the
/// name of the page at `page_index` gives `page_index + 1`.
pub proof fn lemma_name_carries_page_number(page_index: nat)
    ensures
        page_number_of(page_file_name_spec(page_index)) == page_index + 1,
{
    let n = page_index + 1;
    let name = page_file_name_spec(page_index);
    let middle = zero_padded(n, 4);
    assert(name.subrange(5, name.len() - 4) =~= middle);
    lemma_value_of_decimal(n);
    if decimal(n).len() < 4 {
        lemma_value_ignores_leading_zeros((4 - decimal(n).len()) as nat, decimal(n));
    }
}

/// Different pages get different file names, so no page's image
/// overwrites another's.
pub proof fn lemma_names_distinct(i: nat, j: nat)
    requires
        i != j,
    ensures
        page_file_name_spec(i) != page_file_name_spec(j),
{
    lemma_name_carries_page_number(i);
    lemma_name_carries_page_number(j);
}

/// Every page image name has the fixed prefix, at least four digits and
/// the fixed suffix: thirteen characters or more.
pub proof fn lemma_name_shape(page_index: nat)
    ensures
        page_file_name_spec(page_index).len() >= 13,
        page_file_name_spec(page_index).subrange(0, 5) == name_prefix(),
        page_index < 9999 ==> page_file_name_spec(page_index).len() == 13,
{
    let n = page_index + 1;
    let name = page_file_name_spec(page_index);
    lemma_decimal_len(n);
    lemma_decimal_len_four(n);
    assert(name.subrange(0, 5) =~= name_prefix());
}

/// A number from a thousand up to 9999 has a numeral of four digits.
pub proof fn lemma_decimal_len_four(n: nat)
    ensures
        1000 <= n < 10000 ==> decimal(n).len() == 4,
{
    if 1000 <= n < 10000 {
        lemma_decimal_len(n / 10);
    }
}

/// Builds the file name of the image of the page at zero-based
/// `page_index`: `page_0001.png` for the first page.
pub fn page_file_name(page_index: usize) -> (name: String)
    ensures
        name@ == page_file_name_spec(page_index as nat),
{
    let n: u128 = page_index as u128 + 1;
    let mut name = String::from_str("page_");
    proof {
        reveal_strlit("page_");
        reveal_strlit(".png");
        reveal_strlit("0");
        reveal_strlit("00");
        reveal_strlit("000");
        lemma_decimal_len(n as nat);
        assert(name@ =~= name_prefix());
    }
    if n < 10 {
        name.append("000");
        assert("000"@ =~= zeros(3));
    } else if n < 100 {
        name.append("00");
        assert("00"@ =~= zeros(2));
    } else if n < 1000 {
        name.append("0");
        assert("0"@ =~= zeros(1));
    }
    append_decimal(&mut name, n);
    name.append(".png");
    assert(".png"@ =~= name_suffix());
    assert(name@ =~= page_file_name_spec(page_index as nat));
    name
}

/// The name of the document that synthesis writes: `output.pdf`.
pub fn output_document_name() -> (name: String)
    ensures
        name@ == output_document_name_spec(),
{
    proof {
        reveal_strlit("output.pdf");
    }
    let name = String::from_str("output.pdf");
    assert(name@ =~= output_document_name_spec());
    name
}

} // verus!
