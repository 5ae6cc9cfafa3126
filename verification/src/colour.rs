use vstd::prelude::*;

use crate::model::{Embed, EmbedView};

verus! {

/// A colour given either as a hexadecimal string (optionally prefixed with
/// "#" or "0x") or as a raw integer.
pub enum ColourType {
    Hex(String),
    Integer(usize),
}

/// The colour substituted for a hexadecimal string that does not parse.
pub const FALLBACK_COLOUR: usize = 10066329;

pub open spec fn is_hex_digit(c: char) -> bool {
    (48 <= c as u32 && c as u32 <= 57)  // '0' ..= '9'
    || (97 <= c as u32 && c as u32 <= 102)  // 'a' ..= 'f'
    || (65 <= c as u32 && c as u32 <= 70)  // 'A' ..= 'F'
}

pub open spec fn hex_digit_val(c: char) -> nat {
    if 48 <= c as u32 && c as u32 <= 57 {
        (c as u32 - 48) as nat
    } else if 97 <= c as u32 && c as u32 <= 102 {
        (c as u32 - 87) as nat
    } else {
        (c as u32 - 55) as nat
    }
}

/// Every leading '#' removed, as `trim_start_matches('#')` leaves the string.
pub open spec fn strip_hashes(s: Seq<char>) -> Seq<char>
    decreases s.len(),
{
    if s.len() > 0 && s[0] == '#' {
        strip_hashes(s.skip(1))
    } else {
        s
    }
}

/// Every leading "0x" removed, as `trim_start_matches("0x")` leaves the
/// string.
pub open spec fn strip_hex_marker(s: Seq<char>) -> Seq<char>
    decreases s.len(),
{
    if s.len() >= 2 && s[0] == '0' && s[1] == 'x' {
        strip_hex_marker(s.skip(2))
    } else {
        s
    }
}

/// The hexadecimal string as the parser sees it: first all leading '#'
/// stripped, then all leading "0x".
pub open spec fn stripped(s: Seq<char>) -> Seq<char> {
    strip_hex_marker(strip_hashes(s))
}

/// A non-empty string of hexadecimal digits.
pub open spec fn hex_digits(s: Seq<char>) -> bool {
    s.len() > 0 && forall|i: int| 0 <= i < s.len() ==> is_hex_digit(#[trigger] s[i])
}

/// The value of a string of hexadecimal digits, most significant first.
pub open spec fn hex_value(s: Seq<char>) -> nat
    decreases s.len(),
{
    if s.len() == 0 {
        0
    } else {
        hex_value(s.drop_last()) * 16 + hex_digit_val(s.last())
    }
}

/// An optional leading '+' removed: base-16 parsing of an unsigned integer
/// accepts one.
pub open spec fn sign_stripped(s: Seq<char>) -> Seq<char> {
    if s.len() > 0 && s[0] == '+' {
        s.skip(1)
    } else {
        s
    }
}

/// Whether base-16 parsing of `s` into a `usize` succeeds: after an optional
/// '+', a non-empty run of hexadecimal digits whose value fits.
pub open spec fn parses_as_hex(s: Seq<char>) -> bool {
    hex_digits(sign_stripped(s)) && hex_value(sign_stripped(s)) <= usize::MAX
}

/// The colour that a hexadecimal string normalizes to: the parsed value of
/// the stripped string, or the fallback where parsing fails.
pub open spec fn colour_value(s: Seq<char>) -> usize {
    if parses_as_hex(stripped(s)) {
        hex_value(sign_stripped(stripped(s))) as usize
    } else {
        FALLBACK_COLOUR
    }
}

/// The colour an embed is left with for either form of colour input.
pub open spec fn colour_spec(c: ColourType) -> usize {
    match c {
        ColourType::Hex(h) => colour_value(h@),
        ColourType::Integer(i) => i,
    }
}

fn hex_digit_of(c: char) -> (r: Option<u8>)
    ensures
        r is Some <==> is_hex_digit(c),
        r is Some ==> r.unwrap() as nat == hex_digit_val(c),
{
    let u = c as u32;
    if 48 <= u && u <= 57 {
        Some((u - 48) as u8)
    } else if 97 <= u && u <= 102 {
        Some((u - 87) as u8)
    } else if 65 <= u && u <= 70 {
        Some((u - 55) as u8)
    } else {
        None
    }
}

/// The value of a prefix never exceeds the value of the whole digit string.
proof fn lemma_hex_value_prefix_le(s: Seq<char>, k: int)
    requires
        0 <= k <= s.len(),
    ensures
        hex_value(s.subrange(0, k)) <= hex_value(s),
    decreases s.len() - k,
{
    if k == s.len() {
        assert(s.subrange(0, k) =~= s);
    } else {
        assert(s.drop_last().subrange(0, k) =~= s.subrange(0, k));
        lemma_hex_value_prefix_le(s.drop_last(), k);
    }
}

/// Base-16 parsing of an unsigned integer: `Some` exactly when `s` is an
/// optional '+' followed by hexadecimal digits whose value fits in a
/// `usize`.
pub fn parse_hex(s: &str) -> (r: Option<usize>)
    ensures
        r is Some <==> parses_as_hex(s@),
        r is Some ==> r.unwrap() == hex_value(sign_stripped(s@)),
{
    let n = s.unicode_len();
    let start: usize = if n > 0 && s.get_char(0) == '+' {
        1
    } else {
        0
    };
    let ghost digits = sign_stripped(s@);
    proof {
        assert(digits =~= s@.skip(start as int));
    }
    if start == n {
        return None;
    }
    let mut acc: usize = 0;
    let mut j: usize = start;
    while j < n
        invariant
            start <= j <= n,
            n == s@.len(),
            digits == sign_stripped(s@),
            digits == s@.skip(start as int),
            digits.len() == n - start,
            forall|i: int| 0 <= i < j - start ==> is_hex_digit(#[trigger] digits[i]),
            acc == hex_value(digits.subrange(0, j - start)),
        decreases n - j,
    {
        let c = s.get_char(j);
        proof {
            assert(digits[j - start] == s@[j as int]);
        }
        let d = match hex_digit_of(c) {
            Some(d) => d,
            None => {
                proof {
                    assert(!is_hex_digit(digits[j - start]));
                    assert(!hex_digits(digits));
                }
                return None;
            },
        };
        let ghost prefix = digits.subrange(0, j - start + 1);
        proof {
            assert(prefix.drop_last() =~= digits.subrange(0, j - start));
            assert(prefix.last() == c);
        }
        let shifted = match acc.checked_mul(16) {
            Some(v) => v,
            None => {
                proof {
                    assert(hex_value(prefix) == acc * 16 + hex_digit_val(c));
                    lemma_hex_value_prefix_le(digits, j - start + 1);
                    assert(hex_value(digits) > usize::MAX);
                }
                return None;
            },
        };
        acc = match shifted.checked_add(d as usize) {
            Some(v) => v,
            None => {
                proof {
                    assert(hex_value(prefix) == acc * 16 + hex_digit_val(c));
                    lemma_hex_value_prefix_le(digits, j - start + 1);
                    assert(hex_value(digits) > usize::MAX);
                }
                return None;
            },
        };
        j += 1;
    }
    proof {
        assert(digits.subrange(0, digits.len() as int) =~= digits);
    }
    Some(acc)
}

/// The index after every leading '#'.
fn scan_hashes(s: &str, from: usize) -> (r: usize)
    requires
        from <= s@.len(),
        strip_hashes(s@) == strip_hashes(s@.skip(from as int)),
    ensures
        r <= s@.len(),
        strip_hashes(s@) == s@.skip(r as int),
    decreases s@.len() - from,
{
    let n = s.unicode_len();
    if from < n && s.get_char(from) == '#' {
        proof {
            assert(s@.skip(from as int).skip(1) =~= s@.skip(from as int + 1));
        }
        scan_hashes(s, from + 1)
    } else {
        proof {
            if from < n {
                assert(s@.skip(from as int)[0] == s@[from as int]);
            } else {
                assert(s@.skip(from as int).len() == 0);
            }
        }
        from
    }
}

/// The index after every leading "0x" from `from` on.
fn scan_hex_marker(s: &str, from: usize) -> (r: usize)
    requires
        from <= s@.len(),
        strip_hex_marker(s@.skip(from as int)) == strip_hex_marker(s@),
    ensures
        r <= s@.len(),
        strip_hex_marker(s@) == s@.skip(r as int),
    decreases s@.len() - from,
{
    let n = s.unicode_len();
    if n - from >= 2 && s.get_char(from) == '0' && s.get_char(from + 1) == 'x' {
        proof {
            assert(s@.skip(from as int)[0] == s@[from as int]);
            assert(s@.skip(from as int)[1] == s@[from as int + 1]);
            assert(s@.skip(from as int).skip(2) =~= s@.skip(from as int + 2));
        }
        scan_hex_marker(s, from + 2)
    } else {
        proof {
            let t = s@.skip(from as int);
            if t.len() >= 2 {
                assert(t[0] == s@[from as int]);
                assert(t[1] == s@[from as int + 1]);
            }
        }
        from
    }
}

/// The colour a hexadecimal string normalizes to: '#' and "0x" prefixes are
/// stripped, the rest is parsed base 16, and an unparsable string falls back
/// to `FALLBACK_COLOUR`.
pub fn colour_of_hex(s: &str) -> (r: usize)
    ensures
        r == colour_value(s@),
{
    proof {
        assert(s@.skip(0) =~= s@);
    }
    let after_hashes = scan_hashes(s, 0);
    let ghost hashless = s@.skip(after_hashes as int);
    let n = s.unicode_len();
    let rest = s.substring_char(after_hashes, n);
    proof {
        assert(rest@ =~= hashless);
    }
    proof {
        assert(rest@.skip(0) =~= rest@);
    }
    let after_marker = scan_hex_marker(rest, 0);
    let body = rest.substring_char(after_marker, rest.unicode_len());
    proof {
        assert(body@ =~= stripped(s@));
    }
    match parse_hex(body) {
        Some(v) => v,
        None => FALLBACK_COLOUR,
    }
}

impl Embed {
    /// Sets the colour; a hexadecimal string is normalized by
    /// `colour_value`, an integer is taken as given.
    pub fn set_colour(self, colour: ColourType) -> (r: Embed)
        ensures
            r@ == (EmbedView { color: Some(colour_spec(colour)), ..self@ }),
    {
        let value = match &colour {
            ColourType::Hex(hex) => colour_of_hex(hex.as_str()),
            ColourType::Integer(raw) => *raw,
        };
        let mut this = self;
        this.color = Some(value);
        this
    }

    /// Alias of `set_colour`.
    pub fn set_color(self, color: ColourType) -> (r: Embed)
        ensures
            r@ == (EmbedView { color: Some(colour_spec(color)), ..self@ }),
    {
        self.set_colour(color)
    }
}

/// A leading '#' never changes what a colour string parses to.
pub proof fn lemma_colour_hash_prefix(s: Seq<char>)
    ensures
        colour_value(seq!['#'] + s) == colour_value(s),
{
    assert((seq!['#'] + s).skip(1) =~= s);
}

/// A leading "0x" never changes what a colour string parses to, as long as
/// the string does not begin with '#' (the '#' stripping runs first).
pub proof fn lemma_colour_hex_marker_prefix(s: Seq<char>)
    requires
        s.len() == 0 || s[0] != '#',
    ensures
        colour_value(seq!['0', 'x'] + s) == colour_value(s),
{
    let t = seq!['0', 'x'] + s;
    assert(strip_hashes(t) == t);
    assert(strip_hashes(s) == s);
    assert(t.skip(2) =~= s);
}

/// A bare string of hexadecimal digits parses to its own value whenever that
/// value fits in a `usize`.
pub proof fn lemma_colour_bare_digits(s: Seq<char>)
    requires
        hex_digits(s),
        hex_value(s) <= usize::MAX,
    ensures
        colour_value(s) == hex_value(s),
{
    assert(is_hex_digit(s[0]));
    assert(strip_hashes(s) == s);
    assert(strip_hex_marker(s) == s) by {
        if s.len() >= 2 && s[0] == '0' && s[1] == 'x' {
            assert(is_hex_digit(s[1]));
        }
    }
    assert(sign_stripped(s) == s);
}

/// A string that does not parse as hexadecimal always normalizes to the
/// fallback colour.
pub proof fn lemma_colour_unparsable(s: Seq<char>)
    requires
        !parses_as_hex(stripped(s)),
    ensures
        colour_value(s) == FALLBACK_COLOUR,
{
}

} // verus!
