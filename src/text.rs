use vstd::prelude::*;
use vstd::string::*;

verus! {

/// What `regex::Regex::new` decides about a pattern: whether it compiles.
pub uninterp spec fn regex_compiles(pattern: Seq<char>) -> bool;

/// What `regex::Regex::replace_all` produces for a compiled pattern, a text and a
/// replacement that holds no group reference.
pub uninterp spec fn regex_replaced(pattern: Seq<char>, text: Seq<char>, replacement: Seq<char>) -> Seq<char>;

/// What `str::to_lowercase` produces: the Unicode lower-case mapping of each character.
pub uninterp spec fn lower_of(s: Seq<char>) -> Seq<char>;

/// What `convert_case` produces for a string converted to camel case.
pub uninterp spec fn camel_case_of(s: Seq<char>) -> Seq<char>;

/// `s` without its leading and trailing `'-'` characters.
pub open spec fn trim_dash(s: Seq<char>) -> Seq<char>
    decreases s.len(),
{
    if s.len() > 0 && s[0] == '-' {
        trim_dash(s.drop_first())
    } else if s.len() > 0 && s.last() == '-' {
        trim_dash(s.drop_last())
    } else {
        s
    }
}

/// The decimal digits of a natural number, most significant first.
pub open spec fn digits_of(n: nat) -> Seq<char>
    decreases n,
{
    if n < 10 {
        seq![digit_char(n)]
    } else {
        digits_of(n / 10) + seq![digit_char(n % 10)]
    }
}

pub open spec fn digit_char(d: nat) -> char {
    if d == 0 { '0' } else if d == 1 { '1' } else if d == 2 { '2' } else if d == 3 { '3' }
    else if d == 4 { '4' } else if d == 5 { '5' } else if d == 6 { '6' } else if d == 7 { '7' }
    else if d == 8 { '8' } else { '9' }
}

/// The decimal text of an integer, with a leading `'-'` when it is negative.
pub open spec fn decimal_of(n: int) -> Seq<char> {
    if n < 0 {
        seq!['-'] + digits_of((-n) as nat)
    } else {
        digits_of(n as nat)
    }
}

/// The characters of an optional text.
pub open spec fn opt_view(o: Option<String>) -> Option<Seq<char>> {
    match o {
        Some(s) => Some(s@),
        None => None,
    }
}

/// Relies on `regex::Regex::new` to compile `pattern`, and on `Regex::replace_all`
/// to replace each match of it in `text` by `replacement`.
#[verifier::external_body]
pub(crate) fn replace_all_matches(pattern: &str, text: &str, replacement: &str) -> (r: Option<String>)
    ensures
        r.is_some() == regex_compiles(pattern@),
        r.is_some() ==> r.unwrap()@ == regex_replaced(pattern@, text@, replacement@),
{
    match regex::Regex::new(pattern) {
        Ok(re) => Some(re.replace_all(text, replacement).into_owned()),
        Err(_) => None,
    }
}

/// Relies on `str::to_lowercase`: the result depends on the characters alone.
#[verifier::external_body]
pub(crate) fn to_lower(s: &str) -> (r: String)
    ensures
        r@ == lower_of(s@),
{
    s.to_lowercase()
}

/// The character of a decimal digit.
pub(crate) fn digit(d: u32) -> (r: &'static str)
    requires
        d < 10,
    ensures
        r@ == seq![digit_char(d as nat)],
{
    proof {
        reveal_strlit("0");
        reveal_strlit("1");
        reveal_strlit("2");
        reveal_strlit("3");
        reveal_strlit("4");
        reveal_strlit("5");
        reveal_strlit("6");
        reveal_strlit("7");
        reveal_strlit("8");
        reveal_strlit("9");
    }
    if d == 0 { "0" } else if d == 1 { "1" } else if d == 2 { "2" } else if d == 3 { "3" }
    else if d == 4 { "4" } else if d == 5 { "5" } else if d == 6 { "6" } else if d == 7 { "7" }
    else if d == 8 { "8" } else { "9" }
}

fn digits(m: u32) -> (r: String)
    ensures
        r@ == digits_of(m as nat),
    decreases m,
{
    if m < 10 {
        String::from_str(digit(m))
    } else {
        digits(m / 10).concat(digit(m % 10))
    }
}

/// The decimal text of an integer.
pub fn decimal(n: i32) -> (r: String)
    ensures
        r@ == decimal_of(n as int),
{
    if n < 0 {
        proof {
            reveal_strlit("-");
        }
        let m: u32 = (0i64 - n as i64) as u32;
        String::from_str("-").concat(digits(m).as_str())
    } else {
        digits(n as u32)
    }
}

/// The text without its leading and trailing dashes.
pub fn trim_dashes(s: &str) -> (r: String)
    ensures
        r@ == trim_dash(s@),
{
    let n = s.unicode_len();
    let mut lo: usize = 0;
    assert(s@.subrange(0, n as int) =~= s@);
    while lo < n && s.get_char(lo) == '-'
        invariant
            n == s@.len(),
            lo <= n,
            trim_dash(s@) == trim_dash(s@.subrange(lo as int, n as int)),
        decreases n - lo,
    {
        assert(s@.subrange(lo as int, n as int).drop_first() =~= s@.subrange(lo as int + 1, n as int));
        lo = lo + 1;
    }
    let mut hi: usize = n;
    while hi > lo && s.get_char(hi - 1) == '-'
        invariant
            n == s@.len(),
            lo <= hi <= n,
            lo == n || s@[lo as int] != '-',
            trim_dash(s@) == trim_dash(s@.subrange(lo as int, hi as int)),
        decreases hi - lo,
    {
        let ghost t = s@.subrange(lo as int, hi as int);
        assert(t.drop_last() =~= s@.subrange(lo as int, hi as int - 1));
        hi = hi - 1;
    }
    String::from_str(s.substring_char(lo, hi))
}

/// Relies on `convert_case::Casing::to_case` with `Case::Camel`.
#[verifier::external_body]
pub(crate) fn to_camel_case(s: &str) -> (r: String)
    ensures
        r@ == camel_case_of(s@),
{
    convert_case::Casing::to_case(&s, convert_case::Case::Camel)
}

/// Whether two texts hold the same characters.
pub fn same_text(a: &str, b: &str) -> (r: bool)
    ensures
        r == (a@ == b@),
{
    let x = String::from_str(a);
    let y = String::from_str(b);
    x == y
}

} // verus!
