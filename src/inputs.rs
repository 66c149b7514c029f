//! Small decisions on user input: dimensions typed as text, and which file
//! extensions name images.
use vstd::prelude::*;

verus! {

/// Whether every character is an ASCII digit.
pub open spec fn all_digits(s: Seq<char>) -> bool {
    forall|i: int| 0 <= i < s.len() ==> '0' <= #[trigger] s[i] <= '9'
}

/// The value of a string of decimal digits.
pub open spec fn digits_value(s: Seq<char>) -> int
    decreases s.len(),
{
    if s.len() == 0 {
        0
    } else {
        digits_value(s.drop_last()) * 10 + (s.last() as int - '0' as int)
    }
}

/// A `u32` written in decimal: an optional `+`, then one or more digits, with a
/// value that fits; anything else, whitespace included, is no number.
pub open spec fn decimal_u32(s: Seq<char>) -> Option<u32> {
    let d = if s.len() > 0 && s[0] == '+' { s.drop_first() } else { s };
    if d.len() > 0 && all_digits(d) && digits_value(d) <= u32::MAX {
        Some(digits_value(d) as u32)
    } else {
        None
    }
}

/// Lower-case form of a string.
pub uninterp spec fn lower_of(s: Seq<char>) -> Seq<char>;

/// Relies on `<u32 as FromStr>::from_str` (through `str::parse`): std documents
/// an optional `+` followed by decimal digits, any other character an error,
/// and an error on overflow.
#[verifier::external_body]
fn parse_u32(s: &str) -> (r: Option<u32>)
    ensures
        r == decimal_u32(s@),
{
    s.parse::<u32>().ok()
}

/// Relies on `str::to_lowercase`: the result depends on the characters alone.
#[verifier::external_body]
pub(crate) fn lowercase(s: &str) -> (r: String)
    ensures
        r@ == lower_of(s@),
{
    s.to_lowercase()
}

/// Width and height typed as text; `None` unless both are decimal `u32`s.
pub fn parse_dimensions(width: &str, height: &str) -> (r: Option<(u32, u32)>)
    ensures
        r == match (decimal_u32(width@), decimal_u32(height@)) {
            (Some(w), Some(h)) => Some((w, h)),
            _ => None::<(u32, u32)>,
        },
{
    match (parse_u32(width), parse_u32(height)) {
        (Some(w), Some(h)) => Some((w, h)),
        _ => None,
    }
}

/// The lower-case extensions of images that the batch tools pick up; AVIF only
/// when `with_avif`.
pub open spec fn listed_extension(e: Seq<char>, with_avif: bool) -> bool {
    ||| e == seq!['j', 'p', 'g']
    ||| e == seq!['j', 'p', 'e', 'g']
    ||| e == seq!['p', 'n', 'g']
    ||| e == seq!['g', 'i', 'f']
    ||| e == seq!['b', 'm', 'p']
    ||| e == seq!['w', 'e', 'b', 'p']
    ||| with_avif && e == seq!['a', 'v', 'i', 'f']
}

proof fn lemma_three(x: Seq<char>, a: char, b: char, d: char)
    requires
        x.len() == 3,
    ensures
        x == seq![a, b, d] <==> (x[0] == a && x[1] == b && x[2] == d),
{
    if x[0] == a && x[1] == b && x[2] == d {
        assert(x =~= seq![a, b, d]);
    }
}

proof fn lemma_four(x: Seq<char>, a: char, b: char, d: char, e: char)
    requires
        x.len() == 4,
    ensures
        x == seq![a, b, d, e] <==> (x[0] == a && x[1] == b && x[2] == d && x[3] == e),
{
    if x[0] == a && x[1] == b && x[2] == d && x[3] == e {
        assert(x =~= seq![a, b, d, e]);
    }
}

fn chars_of(s: &str) -> (r: Vec<char>)
    ensures
        r@ == s@,
{
    let mut out: Vec<char> = Vec::new();
    for c in iter: s.chars()
        invariant
            out@ == iter.seq().take(iter.index() as int),
    {
        out.push(c);
    }
    assert(out@ =~= s@);
    out
}

/// Whether an already lower-cased extension is on the list.
pub fn is_listed_extension(lowered: &str, with_avif: bool) -> (r: bool)
    ensures
        r == listed_extension(lowered@, with_avif),
{
    let c = chars_of(lowered);
    if c.len() == 3 {
        let (a, b, d) = (c[0], c[1], c[2]);
        let r = (a == 'j' && b == 'p' && d == 'g') || (a == 'p' && b == 'n' && d == 'g')
            || (a == 'g' && b == 'i' && d == 'f') || (a == 'b' && b == 'm' && d == 'p');
        proof {
            lemma_three(c@, 'j', 'p', 'g');
            lemma_three(c@, 'p', 'n', 'g');
            lemma_three(c@, 'g', 'i', 'f');
            lemma_three(c@, 'b', 'm', 'p');
        }
        assert(r == listed_extension(c@, with_avif));
        r
    } else if c.len() == 4 {
        let (a, b, d, e) = (c[0], c[1], c[2], c[3]);
        let r = (a == 'j' && b == 'p' && d == 'e' && e == 'g') || (a == 'w' && b == 'e' && d == 'b' && e == 'p')
            || (with_avif && a == 'a' && b == 'v' && d == 'i' && e == 'f');
        proof {
            lemma_four(c@, 'j', 'p', 'e', 'g');
            lemma_four(c@, 'w', 'e', 'b', 'p');
            lemma_four(c@, 'a', 'v', 'i', 'f');
        }
        assert(r == listed_extension(c@, with_avif));
        r
    } else {
        false
    }
}

/// Whether a file with this extension is an image the batch tools take, case
/// ignored; a file without an extension is not.
pub fn is_image_file(extension: Option<&str>) -> (r: bool)
    ensures
        r == match extension {
            Some(e) => listed_extension(lower_of(e@), true),
            None => false,
        },
{
    match extension {
        Some(e) => {
            let lowered = lowercase(e);
            is_listed_extension(lowered.as_str(), true)
        },
        None => false,
    }
}

} // verus!
