use vstd::prelude::*;

verus! {

/// The characters with the Unicode property White_Space, the ones that
/// `char::is_whitespace` and `str::trim` treat as whitespace.
pub open spec fn is_white_space(c: char) -> bool {
    let u = c as u32;
    ||| 0x09 <= u <= 0x0D
    ||| u == 0x20
    ||| u == 0x85
    ||| u == 0xA0
    ||| u == 0x1680
    ||| 0x2000 <= u <= 0x200A
    ||| u == 0x2028
    ||| u == 0x2029
    ||| u == 0x202F
    ||| u == 0x205F
    ||| u == 0x3000
}

/// Every character of `s` is whitespace (so is the empty text).
pub open spec fn is_blank(s: Seq<char>) -> bool {
    forall|k: int| 0 <= k < s.len() ==> is_white_space(#[trigger] s[k])
}

/// `r` is `s` without its leading and trailing whitespace.
pub open spec fn is_trim_of(r: Seq<char>, s: Seq<char>) -> bool {
    exists|i: int, j: int|
        {
            &&& 0 <= i <= j <= s.len()
            &&& r == s.subrange(i, j)
            &&& forall|k: int| 0 <= k < i ==> is_white_space(#[trigger] s[k])
            &&& forall|k: int| j <= k < s.len() ==> is_white_space(#[trigger] s[k])
            &&& i < j ==> !is_white_space(s[i]) && !is_white_space(s[j - 1])
        }
}

/// A trimmed text is empty exactly where the text is blank.
pub proof fn lemma_trim_empty_iff_blank(r: Seq<char>, s: Seq<char>)
    requires
        is_trim_of(r, s),
    ensures
        r.len() == 0 <==> is_blank(s),
{
    let (i, j) = choose|i: int, j: int|
        {
            &&& 0 <= i <= j <= s.len()
            &&& r == s.subrange(i, j)
            &&& forall|k: int| 0 <= k < i ==> is_white_space(#[trigger] s[k])
            &&& forall|k: int| j <= k < s.len() ==> is_white_space(#[trigger] s[k])
            &&& i < j ==> !is_white_space(s[i]) && !is_white_space(s[j - 1])
        };
    if r.len() == 0 {
        assert forall|k: int| 0 <= k < s.len() implies is_white_space(#[trigger] s[k]) by {
            if k < i {
            } else {
                assert(j <= k);
            }
        }
    } else {
        assert(!is_white_space(s[i]));
    }
}

/// Removes leading and trailing whitespace with `str::trim`.
/// The contract claims what std documents: the result is the text without the
/// whitespace (Unicode White_Space) at its start and at its end.
#[verifier::external_body]
pub(crate) fn trim(s: &str) -> (r: &str)
    ensures
        is_trim_of(r@, s@),
{
    s.trim()
}

/// The decimal digit character of `d` (below ten).
pub open spec fn digit_char(d: nat) -> char {
    (48 + d) as char
}

/// Decimal notation of `n`, without leading zeros.
pub open spec fn decimal(n: nat) -> Seq<char>
    decreases n,
{
    if n < 10 {
        seq![digit_char(n)]
    } else {
        decimal(n / 10).push(digit_char(n % 10))
    }
}

fn push_digit(s: &mut String, d: u8)
    requires
        d < 10,
    ensures
        final(s)@ == old(s)@.push(digit_char(d as nat)),
{
    proof {
        reveal_strlit("0");
        reveal_strlit("1");
        reveal_strlit("2");
        reveal_strlit("3");
        reveal_strlit("4");
        reveal_strlit("5");
        reveal_strlit("6");
        reveal_strlit("7");
        reveal_strlit("8");
        reveal_strlit("9");
    }
    let digit = match d {
        0 => "0",
        1 => "1",
        2 => "2",
        3 => "3",
        4 => "4",
        5 => "5",
        6 => "6",
        7 => "7",
        8 => "8",
        _ => "9",
    };
    s.append(digit);
}

/// Writes a byte in decimal, as `u8`'s `Display` does.
pub(crate) fn u8_decimal(n: u8) -> (r: String)
    ensures
        r@ == decimal(n as nat),
{
    let mut s = String::new();
    if n >= 100 {
        push_digit(&mut s, n / 100);
        push_digit(&mut s, (n / 10) % 10);
        push_digit(&mut s, n % 10);
        assert(decimal(n as nat) =~= seq![
            digit_char((n / 100) as nat),
            digit_char(((n / 10) % 10) as nat),
            digit_char((n % 10) as nat),
        ]) by {
            reveal_with_fuel(decimal, 3);
        }
    } else if n >= 10 {
        push_digit(&mut s, n / 10);
        push_digit(&mut s, n % 10);
        assert(decimal(n as nat) =~= seq![digit_char((n / 10) as nat), digit_char((n % 10) as nat)]) by {
            reveal_with_fuel(decimal, 2);
        }
    } else {
        push_digit(&mut s, n);
        assert(decimal(n as nat) =~= seq![digit_char(n as nat)]);
    }
    assert(s@ =~= decimal(n as nat));
    s
}

} // verus!
