//! Numeric attribute values.
//!
//! A numeric attribute (`Size`, `Padding`) is kept as the decimal literal that
//! the markup gave, once that literal has been checked against the grammar of
//! Rust's floating-point literals read from a string:
//!
//! ```text
//! Float  ::= Sign? ( 'inf' | 'infinity' | 'nan' | Number )
//! Number ::= ( Digit+ | Digit+ '.' Digit* | Digit* '.' Digit+ ) Exp?
//! Exp    ::= 'e' Sign? Digit+
//! Sign   ::= [+-]
//! Digit  ::= [0-9]
//! ```
//!
//! Letters are matched without regard to case. Turning the literal into a
//! machine number is left to whoever renders the view.
use vstd::prelude::*;
use vstd::string::*;
use crate::text::chars_of;

verus! {

/// A decimal digit, `0` to `9`.
pub open spec fn is_digit(c: char) -> bool {
    '0' <= c && c <= '9'
}

/// A sign, `+` or `-`.
pub open spec fn is_sign(c: char) -> bool {
    c == '+' || c == '-'
}

/// The letter `lower`, in either case.
pub open spec fn is_letter(c: char, lower: char, upper: char) -> bool {
    c == lower || c == upper
}

/// The index of the first character at or after `from` that is no digit;
/// the length of `s` where only digits follow.
pub open spec fn digit_run(s: Seq<char>, from: int) -> int
    decreases s.len() - from,
{
    if 0 <= from < s.len() && is_digit(s[from]) {
        digit_run(s, from + 1)
    } else {
        from
    }
}

/// `Exp`, from index `from` to the end of `s`.
pub open spec fn is_exponent_at(s: Seq<char>, from: int) -> bool {
    let digits = if from + 1 < s.len() && is_sign(s[from + 1]) {
        from + 2
    } else {
        from + 1
    };
    &&& 0 <= from < s.len()
    &&& is_letter(s[from], 'e', 'E')
    &&& digits < s.len()
    &&& digit_run(s, digits) == s.len()
}

/// `Number`, from index `from` to the end of `s`.
pub open spec fn is_number_at(s: Seq<char>, from: int) -> bool {
    let int_end = digit_run(s, from);
    let has_point = int_end < s.len() && s[int_end] == '.';
    let frac_end = if has_point {
        digit_run(s, int_end + 1)
    } else {
        int_end
    };
    let digits = if has_point {
        (int_end - from) + (frac_end - (int_end + 1))
    } else {
        int_end - from
    };
    &&& 0 <= from <= s.len()
    &&& digits > 0
    &&& (frac_end == s.len() || is_exponent_at(s, frac_end))
}

/// One of the words `inf`, `infinity`, `nan`, from index `from` to the end of
/// `s`, in any mix of cases.
pub open spec fn is_special_at(s: Seq<char>, from: int) -> bool {
    let inf = {
        &&& is_letter(s[from], 'i', 'I')
        &&& is_letter(s[from + 1], 'n', 'N')
        &&& is_letter(s[from + 2], 'f', 'F')
    };
    let inity = {
        &&& is_letter(s[from + 3], 'i', 'I')
        &&& is_letter(s[from + 4], 'n', 'N')
        &&& is_letter(s[from + 5], 'i', 'I')
        &&& is_letter(s[from + 6], 't', 'T')
        &&& is_letter(s[from + 7], 'y', 'Y')
    };
    let nan = {
        &&& is_letter(s[from], 'n', 'N')
        &&& is_letter(s[from + 1], 'a', 'A')
        &&& is_letter(s[from + 2], 'n', 'N')
    };
    &&& 0 <= from <= s.len()
    &&& {
        ||| s.len() - from == 3 && (inf || nan)
        ||| s.len() - from == 8 && inf && inity
    }
}

/// `Float`: the whole of `s` is a floating-point literal.
pub open spec fn is_float_literal(s: Seq<char>) -> bool {
    let start: int = if s.len() > 0 && is_sign(s[0]) {
        1
    } else {
        0
    };
    is_number_at(s, start) || is_special_at(s, start)
}

fn letter(c: char, lower: char, upper: char) -> (r: bool)
    ensures
        r == is_letter(c, lower, upper),
{
    c == lower || c == upper
}

fn scan_digits(s: &Vec<char>, from: usize) -> (to: usize)
    requires
        from <= s.len(),
    ensures
        to == digit_run(s@, from as int),
        from <= to <= s.len(),
{
    let mut i: usize = from;
    while i < s.len() && '0' <= s[i] && s[i] <= '9'
        invariant
            from <= i <= s.len(),
            digit_run(s@, from as int) == digit_run(s@, i as int),
        decreases s.len() - i,
    {
        i += 1;
    }
    i
}

fn exponent_at(s: &Vec<char>, from: usize) -> (r: bool)
    requires
        from < s.len(),
    ensures
        r == is_exponent_at(s@, from as int),
{
    if !letter(s[from], 'e', 'E') {
        return false;
    }
    let after_sign: usize = if from + 1 < s.len() && (s[from + 1] == '+' || s[from + 1] == '-') {
        from + 2
    } else {
        from + 1
    };
    if after_sign >= s.len() {
        return false;
    }
    scan_digits(s, after_sign) == s.len()
}

fn number_at(s: &Vec<char>, from: usize) -> (r: bool)
    requires
        from <= s.len(),
    ensures
        r == is_number_at(s@, from as int),
{
    let int_end = scan_digits(s, from);
    let has_point = int_end < s.len() && s[int_end] == '.';
    let frac_end = if has_point {
        scan_digits(s, int_end + 1)
    } else {
        int_end
    };
    let digits = if has_point {
        (int_end - from) + (frac_end - (int_end + 1))
    } else {
        int_end - from
    };
    if digits == 0 {
        return false;
    }
    frac_end == s.len() || exponent_at(s, frac_end)
}

fn special_at(s: &Vec<char>, from: usize) -> (r: bool)
    requires
        from <= s.len(),
    ensures
        r == is_special_at(s@, from as int),
{
    let rest = s.len() - from;
    if rest != 3 && rest != 8 {
        return false;
    }
    let inf = letter(s[from], 'i', 'I') && letter(s[from + 1], 'n', 'N') && letter(
        s[from + 2],
        'f',
        'F',
    );
    if rest == 3 {
        let nan = letter(s[from], 'n', 'N') && letter(s[from + 1], 'a', 'A') && letter(
            s[from + 2],
            'n',
            'N',
        );
        inf || nan
    } else {
        inf && letter(s[from + 3], 'i', 'I') && letter(s[from + 4], 'n', 'N') && letter(
            s[from + 5],
            'i',
            'I',
        ) && letter(s[from + 6], 't', 'T') && letter(s[from + 7], 'y', 'Y')
    }
}

/// Whether `text` is a floating-point literal.
pub fn float_literal(text: &str) -> (r: bool)
    ensures
        r == is_float_literal(text@),
{
    let s = chars_of(text);
    let start: usize = if s.len() > 0 && (s[0] == '+' || s[0] == '-') {
        1
    } else {
        0
    };
    number_at(&s, start) || special_at(&s, start)
}

/// A numeric attribute value: a checked floating-point literal.
#[derive(Debug, PartialEq, Eq)]
pub struct Number {
    literal: String,
}

impl View for Number {
    type V = Seq<char>;

    closed spec fn view(&self) -> Seq<char> {
        self.literal@
    }
}

impl Clone for Number {
    fn clone(&self) -> (r: Number)
        ensures
            r@ == self@,
    {
        proof {
            use_type_invariant(self);
        }
        Number { literal: self.literal.clone() }
    }
}

impl Number {
    #[verifier::type_invariant]
    closed spec fn well_formed(self) -> bool {
        is_float_literal(self.literal@)
    }

    /// The number that `text` spells, where it is a floating-point literal.
    pub fn parse(text: &str) -> (r: Option<Number>)
        ensures
            r is Some <==> is_float_literal(text@),
            r matches Some(n) ==> n@ == text@,
    {
        if float_literal(text) {
            Some(Number { literal: String::from_str(text) })
        } else {
            None
        }
    }

    /// The number that an attribute gives: `default` where the attribute is
    /// absent or is no floating-point literal.
    pub fn parse_or(attribute: Option<&str>, default: Number) -> (r: Number)
        ensures
            r@ == number_or(attribute, default@),
    {
        match attribute {
            Some(text) => match Number::parse(text) {
                Some(n) => n,
                None => default,
            },
            None => default,
        }
    }

    /// Zero, spelled `0`.
    pub fn zero() -> (r: Number)
        ensures
            r@ == ZERO@,
    {
        proof {
            reveal_strlit("0");
        }
        assert(digit_run(ZERO@, 1) == 1);
        assert(digit_run(ZERO@, 0) == 1);
        Number { literal: String::from_str(ZERO) }
    }

    /// Ten, spelled `10`.
    pub fn ten() -> (r: Number)
        ensures
            r@ == TEN@,
    {
        proof {
            reveal_strlit("10");
        }
        assert(digit_run(TEN@, 2) == 2);
        assert(digit_run(TEN@, 1) == 2);
        assert(digit_run(TEN@, 0) == 2);
        Number { literal: String::from_str(TEN) }
    }

    /// The literal, as the markup spelled it.
    pub fn as_str(&self) -> (r: &str)
        ensures
            r@ == self@,
            is_float_literal(r@),
    {
        proof {
            use_type_invariant(self);
        }
        self.literal.as_str()
    }
}

/// The spelling of zero.
pub const ZERO: &'static str = "0";

/// The spelling of ten.
pub const TEN: &'static str = "10";

/// The spelling that [`Number::parse_or`] settles on.
pub open spec fn number_or(attribute: Option<&str>, default: Seq<char>) -> Seq<char> {
    match attribute {
        Some(text) => if is_float_literal(text@) {
            text@
        } else {
            default
        },
        None => default,
    }
}

} // verus!
