//! Text that messages, file names and labels are made of: decimal numbers,
//! zero padding, joined lines, and the searches that labels need.

use vstd::prelude::*;

verus! {

/// The character of a decimal digit.
pub open spec fn digit_char(d: int) -> char {
    (48 + d) as char
}

/// A natural number in decimal, without leading zeros.
pub open spec fn decimal(n: nat) -> Seq<char>
    decreases n,
{
    if n < 10 {
        seq![digit_char(n as int)]
    } else {
        decimal(n / 10).push(digit_char((n % 10) as int))
    }
}

/// An integer in decimal, with a minus sign in front where it is negative.
pub open spec fn signed_decimal(n: int) -> Seq<char> {
    if n < 0 {
        seq!['-'] + decimal((-n) as nat)
    } else {
        decimal(n as nat)
    }
}

/// `n` zeros.
pub open spec fn zeros(n: nat) -> Seq<char> {
    Seq::new(n, |i: int| '0')
}

/// A natural number in decimal, with zeros in front up to `width` characters.
pub open spec fn padded(n: nat, width: nat) -> Seq<char> {
    if decimal(n).len() < width {
        zeros((width - decimal(n).len()) as nat) + decimal(n)
    } else {
        decimal(n)
    }
}

/// An integer in decimal, with zeros behind the sign up to `width` characters,
/// the sign among them.
pub open spec fn signed_padded(n: int, width: nat) -> Seq<char> {
    if n < 0 {
        seq!['-'] + padded((-n) as nat, if width > 0 { (width - 1) as nat } else { 0 })
    } else {
        padded(n as nat, width)
    }
}

/// The first `n` of `parts`, with `sep` between each and the next.
pub open spec fn joined_prefix(parts: Seq<Seq<char>>, sep: Seq<char>, n: nat) -> Seq<char>
    decreases n,
{
    if n == 0 {
        seq![]
    } else if n == 1 {
        parts[0]
    } else {
        joined_prefix(parts, sep, (n - 1) as nat) + sep + parts[n - 1]
    }
}

/// All of `parts`, with `sep` between each and the next.
pub open spec fn joined(parts: Seq<Seq<char>>, sep: Seq<char>) -> Seq<char> {
    joined_prefix(parts, sep, parts.len())
}

/// What the strings of a list hold.
pub open spec fn texts(list: Seq<String>) -> Seq<Seq<char>> {
    Seq::new(list.len(), |i: int| list[i]@)
}

/// What an optional string holds.
pub open spec fn text_opt(s: Option<String>) -> Option<Seq<char>> {
    match s {
        Some(t) => Some(t@),
        None => None,
    }
}

/// Whether every character is a decimal digit.
pub open spec fn all_digits(s: Seq<char>) -> bool {
    forall|i: int| 0 <= i < s.len() ==> '0' <= #[trigger] s[i] <= '9'
}

/// The number that decimal digits stand for.
pub open spec fn digits_value(s: Seq<char>) -> nat
    decreases s.len(),
{
    if s.len() == 0 {
        0
    } else {
        digits_value(s.drop_last()) * 10 + (s.last() as int - 48) as nat
    }
}

/// The digits of a number are decimal digits, at least one of them.
pub proof fn lemma_decimal_digits(n: nat)
    ensures
        decimal(n).len() >= 1,
        all_digits(decimal(n)),
    decreases n,
{
    if n >= 10 {
        lemma_decimal_digits(n / 10);
    }
}

/// Reading the digits of a number gives the number back.
pub proof fn decimal_reads_back(n: nat)
    ensures
        digits_value(decimal(n)) == n,
    decreases n,
{
    lemma_decimal_digits(n);
    if n >= 10 {
        decimal_reads_back(n / 10);
        assert(decimal(n).drop_last() =~= decimal(n / 10));
    } else {
        assert(decimal(n).drop_last() =~= Seq::<char>::empty());
        assert(digits_value(Seq::<char>::empty()) == 0);
    }
}

/// Two numbers with the same digits are the same number.
pub proof fn decimal_is_injective(a: nat, b: nat)
    requires
        decimal(a) == decimal(b),
    ensures
        a == b,
{
    decimal_reads_back(a);
    decimal_reads_back(b);
}

/// A further digit makes a number ten times as large and adds the digit.
pub proof fn digits_count_by_place(s: Seq<char>, c: char)
    requires
        '0' <= c <= '9',
    ensures
        digits_value(Seq::<char>::empty()) == 0,
        digits_value(s.push(c)) == digits_value(s) * 10 + (c as int - '0' as int),
{
    assert(s.push(c).drop_last() =~= s);
}

/// Digits of which the first is not zero stand for a number that is not zero.
proof fn lemma_value_positive(s: Seq<char>)
    requires
        s.len() > 0,
        '0' < s[0] <= '9',
    ensures
        digits_value(s) > 0,
    decreases s.len(),
{
    if s.len() > 1 {
        lemma_value_positive(s.drop_last());
    }
}

/// Every number is written in one way: as the digits that stand for it, without
/// zeros in front.
pub proof fn decimal_has_no_leading_zeros(s: Seq<char>)
    requires
        s.len() > 0,
        forall|i: int| 0 <= i < s.len() ==> '0' <= #[trigger] s[i] <= '9',
        s.len() > 1 ==> s[0] != '0',
    ensures
        decimal(digits_value(s)) == s,
    decreases s.len(),
{
    let front = s.drop_last();
    let last = (s.last() as int - 48) as nat;
    assert('0' <= s.last() <= '9');
    if s.len() > 1 {
        assert('0' <= s[0] <= '9');
        lemma_value_positive(front);
        assert forall|i: int| 0 <= i < front.len() implies '0' <= #[trigger] front[i] <= '9' by {
            assert(front[i] == s[i]);
        }
        decimal_has_no_leading_zeros(front);
        let v = digits_value(front);
        assert((v * 10 + last) / 10 == v && (v * 10 + last) % 10 == last);
        assert(decimal(v).push(digit_char(last as int)) =~= s);
    } else {
        assert(front =~= Seq::<char>::empty());
        assert(digits_value(front) == 0);
        assert(seq![digit_char(last as int)] =~= s);
    }
}

/// Zeros in front do not change what digits stand for.
proof fn lemma_zeros_in_front(k: nat, s: Seq<char>)
    ensures
        digits_value(zeros(k) + s) == digits_value(s),
    decreases k + s.len(),
{
    if s.len() > 0 {
        assert((zeros(k) + s).drop_last() =~= zeros(k) + s.drop_last());
        lemma_zeros_in_front(k, s.drop_last());
    } else if k > 0 {
        assert((zeros(k) + s).drop_last() =~= zeros((k - 1) as nat) + s);
        lemma_zeros_in_front((k - 1) as nat, s);
    } else {
        assert(zeros(k) + s =~= s);
    }
}

/// A padded number is as wide as asked for, or as wide as its digits where they
/// are more, and its digits stand for the number.
pub proof fn padding_keeps_the_number(n: nat, width: nat)
    ensures
        padded(n, width).len() >= width,
        padded(n, width).len() > width ==> padded(n, width) == decimal(n),
        forall|i: int|
            0 <= i < padded(n, width).len() ==> '0' <= #[trigger] padded(n, width)[i] <= '9',
        digits_value(padded(n, width)) == n,
{
    lemma_decimal_digits(n);
    decimal_reads_back(n);
    if decimal(n).len() < width {
        lemma_zeros_in_front((width - decimal(n).len()) as nat, decimal(n));
    }
}

/// A negative number is its sign and its magnitude, and the sign counts as one
/// of the characters where it is padded. Other numbers have no sign.
pub proof fn only_negative_numbers_have_a_sign(n: nat, width: nat)
    ensures
        signed_decimal(n as int) == decimal(n),
        n > 0 ==> signed_decimal(-n) == seq!['-'] + decimal(n),
        signed_padded(n as int, width) == padded(n, width),
        n > 0 && width > 0 ==> signed_padded(-n, width) == seq!['-'] + padded(
            n,
            (width - 1) as nat,
        ),
{
}

/// Nothing is joined to nothing, one part to itself, and a further part stands
/// behind the others and the separator.
pub proof fn joining_adds_parts_at_the_end(parts: Seq<Seq<char>>, sep: Seq<char>, part: Seq<char>)
    ensures
        joined(Seq::<Seq<char>>::empty(), sep) == Seq::<char>::empty(),
        joined(seq![part], sep) == part,
        parts.len() > 0 ==> joined(parts.push(part), sep) == joined(parts, sep) + sep + part,
{
    lemma_joined_prefix(parts, parts.push(part), sep, parts.len());
}

/// A list of strings holds each of them at its place, and an optional string
/// holds what it is where it is there.
pub proof fn lists_hold_each_text(list: Seq<String>, i: int, s: Option<String>)
    ensures
        texts(list).len() == list.len(),
        0 <= i < list.len() ==> texts(list)[i] == list[i]@,
        s is Some ==> text_opt(s) == Some(s->0@),
        s is None ==> text_opt(s) is None,
{
}

/// What the first parts are joined to depends on them alone.
proof fn lemma_joined_prefix(a: Seq<Seq<char>>, b: Seq<Seq<char>>, sep: Seq<char>, n: nat)
    requires
        n <= a.len(),
        n <= b.len(),
        forall|i: int| 0 <= i < n ==> a[i] == b[i],
    ensures
        joined_prefix(a, sep, n) == joined_prefix(b, sep, n),
    decreases n,
{
    if n > 1 {
        lemma_joined_prefix(a, b, sep, (n - 1) as nat);
    }
}

/// The one-digit text of `d`.
fn digit_text(d: u64) -> (r: &'static str)
    requires
        d < 10,
    ensures
        r@ == seq![digit_char(d as int)],
{
    proof {
        reveal_strlit("0");
        reveal_strlit("1");
        reveal_strlit("2");
        reveal_strlit("3");
        reveal_strlit("4");
        reveal_strlit("5");
        reveal_strlit("6");
        reveal_strlit("7");
        reveal_strlit("8");
        reveal_strlit("9");
    }
    if d == 0 {
        "0"
    } else if d == 1 {
        "1"
    } else if d == 2 {
        "2"
    } else if d == 3 {
        "3"
    } else if d == 4 {
        "4"
    } else if d == 5 {
        "5"
    } else if d == 6 {
        "6"
    } else if d == 7 {
        "7"
    } else if d == 8 {
        "8"
    } else {
        "9"
    }
}

/// `n` in decimal.
pub fn decimal_text(n: u64) -> (r: String)
    ensures
        r@ == decimal(n as nat),
    decreases n,
{
    let mut text = String::new();
    if n >= 10 {
        text = decimal_text(n / 10);
    }
    text.append(digit_text(n % 10));
    text
}

/// `n` in decimal, with its sign where it is negative.
pub fn signed_decimal_text(n: i64) -> (r: String)
    ensures
        r@ == signed_decimal(n as int),
{
    if n < 0 {
        let magnitude: u64 = (-(n as i128)) as u64;
        let mut text = String::from_str("-");
        text.append(decimal_text(magnitude).as_str());
        proof {
            reveal_strlit("-");
            assert("-"@ =~= seq!['-']);
        }
        text
    } else {
        decimal_text(n as u64)
    }
}

/// `n` in decimal, with zeros in front up to `width` characters.
pub fn padded_text(n: u64, width: usize) -> (r: String)
    ensures
        r@ == padded(n as nat, width as nat),
{
    let digits = decimal_text(n);
    let mut text = String::new();
    let count: usize = digits.as_str().unicode_len();
    let mut len: usize = count;
    proof {
        reveal_strlit("0");
        assert("0"@ =~= seq!['0']);
        assert(zeros(0) =~= Seq::<char>::empty());
    }
    while len < width
        invariant
            count <= len,
            len <= width || len == count,
            text@ == zeros((len - count) as nat),
            "0"@ == seq!['0'],
        decreases width - len,
    {
        text.append("0");
        len = len + 1;
        assert(text@ =~= zeros((len - count) as nat));
    }
    text.append(digits.as_str());
    assert(count >= width ==> zeros(0) + decimal(n as nat) =~= decimal(n as nat));
    text
}

/// `n` in decimal, with zeros behind the sign up to `width` characters.
pub fn signed_padded_text(n: i64, width: usize) -> (r: String)
    ensures
        r@ == signed_padded(n as int, width as nat),
{
    if n < 0 {
        let magnitude: u64 = (-(n as i128)) as u64;
        let rest: usize = if width > 0 { width - 1 } else { 0 };
        let mut text = String::from_str("-");
        text.append(padded_text(magnitude, rest).as_str());
        proof {
            reveal_strlit("-");
            assert("-"@ =~= seq!['-']);
        }
        text
    } else {
        padded_text(n as u64, width)
    }
}

/// The strings of `list`, with `sep` between each and the next.
pub fn joined_text(list: &Vec<String>, sep: &str) -> (r: String)
    ensures
        r@ == joined(texts(list@), sep@),
{
    let mut text = String::new();
    let mut i: usize = 0;
    while i < list.len()
        invariant
            i <= list.len(),
            text@ == joined_prefix(texts(list@), sep@, i as nat),
        decreases list.len() - i,
    {
        if i > 0 {
            text.append(sep);
        }
        text.append(list[i].as_str());
        i = i + 1;
        assert(text@ =~= joined_prefix(texts(list@), sep@, i as nat));
    }
    text
}

/// Whether two texts are the same.
pub fn same_text(a: &str, b: &str) -> (r: bool)
    ensures
        r == (a@ == b@),
{
    String::from_str(a) == String::from_str(b)
}

/// Whether `s` starts with `prefix`.
pub fn starts_with(s: &str, prefix: &str) -> (r: bool)
    ensures
        r == prefix@.is_prefix_of(s@),
{
    let n: usize = prefix.unicode_len();
    if n > s.unicode_len() {
        return false;
    }
    same_text(s.substring_char(0, n), prefix)
}

} // verus!
