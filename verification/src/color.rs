//! Configured colors: named palette entries, ANSI indexed colors and RGB
//! triples, parsed from the strings a configuration file holds.

use vstd::prelude::*;
use vstd::string::StrSliceExecFns;

use crate::text::str_eq;

verus! {

/// A color a configuration can ask for.
#[derive(Clone, Copy, Debug, PartialEq, Eq, Structural)]
pub enum Color {
    /// The default terminal color.
    Default,
    /// The standard white color.
    LightWhite,
    /// The standard black color.
    LightBlack,
    /// The standard blue color.
    LightBlue,
    /// The standard cyan color.
    LightCyan,
    /// The standard green color.
    LightGreen,
    /// The standard magenta color.
    LightMagenta,
    /// The standard red color.
    LightRed,
    /// The standard yellow color.
    LightYellow,
    /// The standard grey color.
    LightGrey,
    /// The dimmed white color.
    DarkWhite,
    /// The dimmed black color.
    DarkBlack,
    /// The dimmed blue color.
    DarkBlue,
    /// The dimmed cyan color.
    DarkCyan,
    /// The dimmed green color.
    DarkGreen,
    /// The dimmed magenta color.
    DarkMagenta,
    /// The dimmed red color.
    DarkRed,
    /// The dimmed yellow color.
    DarkYellow,
    /// The dimmed grey color.
    DarkGrey,
    /// An ANSI indexed color.
    Index(u8),
    /// An RGB color triple.
    Rgb { red: u8, green: u8, blue: u8 },
}

/// Why a color string was rejected.
#[derive(Clone, Copy, Debug, PartialEq, Eq, Structural)]
pub enum InvalidColorError {
    /// The single value is no index between 0 and 255.
    Indexed,
    /// The red amount of a triple is no value between 0 and 255.
    Red,
    /// The green amount of a triple is no value between 0 and 255.
    Green,
    /// The blue amount of a triple is no value between 0 and 255.
    Blue,
    /// The string has neither one value nor three.
    Invalid,
}

/// Whether the character is a decimal digit.
pub open spec fn is_digit(c: char) -> bool {
    48 <= c as u32 <= 57
}

/// Whether every character is a decimal digit.
pub open spec fn all_digits(s: Seq<char>) -> bool {
    forall|i: int| 0 <= i < s.len() ==> is_digit(#[trigger] s[i])
}

/// The number the decimal digits spell.
pub open spec fn digits_value(s: Seq<char>) -> int
    decreases s.len(),
{
    if s.len() == 0 {
        0
    } else {
        digits_value(s.drop_last()) * 10 + (s.last() as u32 - 48)
    }
}

/// The channel value a comma-separated field holds: an optional sign
/// followed by decimal digits, worth between 0 and 255. A minus sign is
/// taken only where `allow_minus` says so, and then only before zero,
/// since a negative amount is out of range anyway.
pub open spec fn spec_parse_channel(s: Seq<char>, allow_minus: bool) -> Option<u8> {
    let negative = s.len() > 0 && s[0] == '-';
    let positive = s.len() > 0 && s[0] == '+';
    let digits = if negative || positive {
        s.skip(1)
    } else {
        s
    };
    if negative && !allow_minus {
        None
    } else if digits.len() == 0 || !all_digits(digits) {
        None
    } else if negative && digits_value(digits) != 0 {
        None
    } else if digits_value(digits) > 255 {
        None
    } else {
        Some(digits_value(digits) as u8)
    }
}

/// Position of the first comma, or the length when there is none.
pub open spec fn first_comma(s: Seq<char>) -> int
    decreases s.len(),
{
    if s.len() == 0 {
        0
    } else if s[0] == ',' {
        0
    } else {
        1 + first_comma(s.skip(1))
    }
}

/// The comma-separated fields of `s`, commas removed; a string without a
/// comma is one field, and every comma adds one.
pub open spec fn spec_split_commas(s: Seq<char>) -> Seq<Seq<char>>
    decreases s.len(),
{
    let i = first_comma_clipped(s);
    if i == s.len() {
        seq![s]
    } else {
        seq![s.take(i)] + spec_split_commas(s.skip(i + 1))
    }
}

/// `first_comma`, clipped into `[0, s.len()]` so the split always stands.
pub open spec fn first_comma_clipped(s: Seq<char>) -> int {
    if 0 <= first_comma(s) <= s.len() {
        first_comma(s)
    } else {
        s.len() as int
    }
}

/// The first comma lies in `[0, s.len()]`, no comma comes before it, and
/// it points at a comma unless there is none.
pub proof fn lemma_first_comma_props(s: Seq<char>)
    ensures
        0 <= first_comma(s) <= s.len(),
        first_comma(s) < s.len() ==> s[first_comma(s)] == ',',
        forall|t: int| 0 <= t < first_comma(s) ==> s[t] != ',',
    decreases s.len(),
{
    if s.len() == 0 {
    } else if s[0] == ',' {
    } else {
        lemma_first_comma_props(s.skip(1));
        assert(forall|t: int| 1 <= t < s.len() ==> s[t] == s.skip(1)[t - 1]);
    }
}

/// A prefix free of commas that ends at a comma or at the end pins the
/// first comma down.
pub proof fn lemma_first_comma_at(s: Seq<char>, j: int)
    requires
        0 <= j <= s.len(),
        forall|t: int| 0 <= t < j ==> s[t] != ',',
        j < s.len() ==> s[j] == ',',
    ensures
        first_comma(s) == j,
    decreases s.len(),
{
    if s.len() == 0 {
    } else if s[0] == ',' {
        assert(j == 0);
    } else {
        assert(j >= 1);
        assert(forall|t: int| 0 <= t < j - 1 ==> s.skip(1)[t] == s[t + 1]);
        lemma_first_comma_at(s.skip(1), j - 1);
    }
}

/// The color a configuration string names. Named palette entries come
/// first; otherwise one field names an indexed color and three fields an
/// RGB triple, each worth 0 to 255, rejected with the first bad channel.
pub open spec fn spec_parse_color(s: Seq<char>) -> Result<Color, InvalidColorError> {
    if s == "black"@ || s == "light black"@ {
        Ok(Color::LightBlack)
    } else if s == "blue"@ || s == "light blue"@ {
        Ok(Color::LightBlue)
    } else if s == "cyan"@ || s == "light cyan"@ {
        Ok(Color::LightCyan)
    } else if s == "green"@ || s == "light green"@ {
        Ok(Color::LightGreen)
    } else if s == "magenta"@ || s == "light magenta"@ {
        Ok(Color::LightMagenta)
    } else if s == "red"@ || s == "light red"@ {
        Ok(Color::LightRed)
    } else if s == "white"@ || s == "light white"@ {
        Ok(Color::LightWhite)
    } else if s == "yellow"@ || s == "light yellow"@ {
        Ok(Color::LightYellow)
    } else if s == "grey"@ || s == "light grey"@ {
        Ok(Color::LightGrey)
    } else if s == "dark black"@ {
        Ok(Color::DarkBlack)
    } else if s == "dark blue"@ {
        Ok(Color::DarkBlue)
    } else if s == "dark cyan"@ {
        Ok(Color::DarkCyan)
    } else if s == "dark green"@ {
        Ok(Color::DarkGreen)
    } else if s == "dark magenta"@ {
        Ok(Color::DarkMagenta)
    } else if s == "dark red"@ {
        Ok(Color::DarkRed)
    } else if s == "dark white"@ {
        Ok(Color::DarkWhite)
    } else if s == "dark yellow"@ {
        Ok(Color::DarkYellow)
    } else if s == "dark grey"@ {
        Ok(Color::DarkGrey)
    } else if s == "transparent"@ || s == "-1"@ {
        Ok(Color::Default)
    } else {
        let parts = spec_split_commas(s);
        if parts.len() == 1 {
            match spec_parse_channel(parts[0], false) {
                Some(index) => Ok(Color::Index(index)),
                None => Err(InvalidColorError::Indexed),
            }
        } else if parts.len() == 3 {
            match spec_parse_channel(parts[0], true) {
                None => Err(InvalidColorError::Red),
                Some(red) => match spec_parse_channel(parts[1], true) {
                    None => Err(InvalidColorError::Green),
                    Some(green) => match spec_parse_channel(parts[2], true) {
                        None => Err(InvalidColorError::Blue),
                        Some(blue) => Ok(Color::Rgb { red, green, blue }),
                    },
                },
            }
        } else {
            Err(InvalidColorError::Invalid)
        }
    }
}

/// The characters of a string slice, collected.
fn chars_of(s: &str) -> (r: Vec<char>)
    ensures
        r@ == s@,
{
    let length: usize = s.unicode_len();
    let mut out: Vec<char> = Vec::new();
    let mut i: usize = 0;
    while i < length
        invariant
            i <= length == s@.len(),
            out@ == s@.take(i as int),
        decreases length - i,
    {
        out.push(s.get_char(i));
        proof {
            assert(s@.take(i + 1) =~= s@.take(i as int).push(s@[i as int]));
        }
        i = i + 1;
    }
    proof {
        assert(s@.take(length as int) =~= s@);
    }
    out
}

/// Split characters at commas, removing the commas.
fn split_commas(chars: &Vec<char>) -> (r: Vec<Vec<char>>)
    ensures
        r@.map_values(|p: Vec<char>| p@) == spec_split_commas(chars@),
{
    let whole: usize = chars.len();
    let mut parts: Vec<Vec<char>> = Vec::new();
    let mut current: Vec<char> = Vec::new();
    let mut k: usize = 0;
    let mut j: usize = 0;
    proof {
        assert(chars@.skip(0) =~= chars@);
        assert(current@ =~= chars@.subrange(0, 0));
        assert(parts@.map_values(|p: Vec<char>| p@) + spec_split_commas(chars@)
            =~= spec_split_commas(chars@));
    }
    while j < whole
        invariant
            k <= j <= whole == chars@.len(),
            current@ == chars@.subrange(k as int, j as int),
            forall|t: int| k <= t < j ==> chars@[t] != ',',
            spec_split_commas(chars@) == parts@.map_values(|p: Vec<char>| p@)
                + spec_split_commas(chars@.skip(k as int)),
        decreases whole - j,
    {
        if chars[j] == ',' {
            proof {
                let tail = chars@.skip(k as int);
                assert(forall|t: int| 0 <= t < j - k ==> tail[t] == chars@[t + k]);
                lemma_first_comma_at(tail, j - k);
                assert(tail.take(j - k) =~= chars@.subrange(k as int, j as int));
                assert(tail.skip(j - k + 1) =~= chars@.skip(j + 1));
                assert(parts@.map_values(|p: Vec<char>| p@) + (seq![current@]
                    + spec_split_commas(chars@.skip(j + 1))) =~= parts@.push(current).map_values(
                    |p: Vec<char>| p@,
                ) + spec_split_commas(chars@.skip(j + 1)));
            }
            parts.push(current);
            current = Vec::new();
            k = j + 1;
            proof {
                assert(current@ =~= chars@.subrange(k as int, k as int));
            }
        } else {
            current.push(chars[j]);
            proof {
                assert(current@ =~= chars@.subrange(k as int, j + 1));
            }
        }
        j = j + 1;
    }
    proof {
        let tail = chars@.skip(k as int);
        assert(forall|t: int| 0 <= t < whole - k ==> tail[t] == chars@[t + k]);
        lemma_first_comma_at(tail, whole - k);
        assert(tail.take(whole - k) =~= tail);
        assert(spec_split_commas(tail) == seq![tail]);
        assert(current@ =~= tail);
        assert(parts@.map_values(|p: Vec<char>| p@) + seq![current@] =~= parts@.push(
            current,
        ).map_values(|p: Vec<char>| p@));
    }
    parts.push(current);
    parts
}

/// Parse one comma-separated field as a channel value between 0 and 255.
fn parse_channel(field: &Vec<char>, allow_minus: bool) -> (r: Option<u8>)
    ensures
        r == spec_parse_channel(field@, allow_minus),
{
    let length: usize = field.len();
    let mut start: usize = 0;
    let mut negative: bool = false;
    if length > 0 && field[0] == '-' {
        negative = true;
        start = 1;
    } else if length > 0 && field[0] == '+' {
        start = 1;
    }
    let ghost digits = field@.skip(start as int);
    proof {
        if start == 0 {
            assert(field@.skip(0) =~= field@);
        }
    }
    if negative && !allow_minus {
        return None;
    }
    if start >= length {
        return None;
    }
    let mut value: u32 = 0;
    let mut i: usize = start;
    while i < length
        invariant
            start <= i <= length == field@.len(),
            start < length,
            negative == (field@.len() > 0 && field@[0] == '-'),
            (start == 1) == (field@.len() > 0 && (field@[0] == '-' || field@[0] == '+')),
            start == 0 || start == 1,
            !(negative && !allow_minus),
            digits == field@.skip(start as int),
            all_digits(digits.take(i - start)),
            digits_value(digits.take(i - start)) <= 255 ==> value == digits_value(
                digits.take(i - start),
            ),
            digits_value(digits.take(i - start)) > 255 ==> 255 < value <= 2559,
        decreases length - i,
    {
        let c: char = field[i];
        let code: u32 = c as u32;
        if code < 48 || code > 57 {
            proof {
                assert(digits[i - start] == c);
                assert(!is_digit(digits[i - start]));
                assert(!all_digits(digits));
            }
            return None;
        }
        proof {
            assert(digits.take(i - start + 1) =~= digits.take(i - start).push(digits[i - start]));
            assert(digits.take(i - start + 1).drop_last() =~= digits.take(i - start));
            lemma_digits_value_non_negative(digits.take(i - start));
        }
        if value <= 255 {
            value = value * 10 + (code - 48);
        }
        i = i + 1;
    }
    proof {
        assert(digits.take(length - start) =~= digits);
    }
    if negative && value != 0 {
        return None;
    }
    if value > 255 {
        return None;
    }
    Some(value as u8)
}

/// Digits spell a number that is never negative.
pub proof fn lemma_digits_value_non_negative(s: Seq<char>)
    requires
        all_digits(s),
    ensures
        digits_value(s) >= 0,
    decreases s.len(),
{
    if s.len() == 0 {
    } else {
        assert(all_digits(s.drop_last())) by {
            assert(forall|i: int| 0 <= i < s.len() - 1 ==> s.drop_last()[i] == s[i]);
        }
        lemma_digits_value_non_negative(s.drop_last());
        assert(is_digit(s.last()));
    }
}

impl Color {
    /// The color the given configuration string names: a named palette
    /// entry, `transparent` or `-1` for the terminal default, a single
    /// value for an ANSI indexed color, or three comma-separated values
    /// for an RGB triple; each value must lie between 0 and 255, and a bad
    /// triple is rejected with its first bad channel.
    pub fn try_from(s: &str) -> (r: Result<Color, InvalidColorError>)
        ensures
            r == spec_parse_color(s@),
    {
        if str_eq(s, "black") || str_eq(s, "light black") {
            return Ok(Color::LightBlack);
        }
        if str_eq(s, "blue") || str_eq(s, "light blue") {
            return Ok(Color::LightBlue);
        }
        if str_eq(s, "cyan") || str_eq(s, "light cyan") {
            return Ok(Color::LightCyan);
        }
        if str_eq(s, "green") || str_eq(s, "light green") {
            return Ok(Color::LightGreen);
        }
        if str_eq(s, "magenta") || str_eq(s, "light magenta") {
            return Ok(Color::LightMagenta);
        }
        if str_eq(s, "red") || str_eq(s, "light red") {
            return Ok(Color::LightRed);
        }
        if str_eq(s, "white") || str_eq(s, "light white") {
            return Ok(Color::LightWhite);
        }
        if str_eq(s, "yellow") || str_eq(s, "light yellow") {
            return Ok(Color::LightYellow);
        }
        if str_eq(s, "grey") || str_eq(s, "light grey") {
            return Ok(Color::LightGrey);
        }
        if str_eq(s, "dark black") {
            return Ok(Color::DarkBlack);
        }
        if str_eq(s, "dark blue") {
            return Ok(Color::DarkBlue);
        }
        if str_eq(s, "dark cyan") {
            return Ok(Color::DarkCyan);
        }
        if str_eq(s, "dark green") {
            return Ok(Color::DarkGreen);
        }
        if str_eq(s, "dark magenta") {
            return Ok(Color::DarkMagenta);
        }
        if str_eq(s, "dark red") {
            return Ok(Color::DarkRed);
        }
        if str_eq(s, "dark white") {
            return Ok(Color::DarkWhite);
        }
        if str_eq(s, "dark yellow") {
            return Ok(Color::DarkYellow);
        }
        if str_eq(s, "dark grey") {
            return Ok(Color::DarkGrey);
        }
        if str_eq(s, "transparent") || str_eq(s, "-1") {
            return Ok(Color::Default);
        }
        let chars: Vec<char> = chars_of(s);
        let parts: Vec<Vec<char>> = split_commas(&chars);
        let part_count: usize = parts.len();
        if part_count == 1 {
            match parse_channel(&parts[0], false) {
                Some(index) => Ok(Color::Index(index)),
                None => Err(InvalidColorError::Indexed),
            }
        } else if part_count == 3 {
            match parse_channel(&parts[0], true) {
                None => Err(InvalidColorError::Red),
                Some(red) => match parse_channel(&parts[1], true) {
                    None => Err(InvalidColorError::Green),
                    Some(green) => match parse_channel(&parts[2], true) {
                        None => Err(InvalidColorError::Blue),
                        Some(blue) => Ok(Color::Rgb { red, green, blue }),
                    },
                },
            }
        } else {
            Err(InvalidColorError::Invalid)
        }
    }
}

} // verus!
