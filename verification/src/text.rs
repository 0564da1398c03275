//! Operations on strings that the rest of the library shares.

use vstd::prelude::*;
use vstd::string::*;
use vstd::utf8::decode_utf8;
use vstd::utf8::valid_utf8;

verus! {

/// `std`'s equality of string slices: whether `a` and `b` hold the same
/// characters.
#[verifier::external_body]
pub(crate) fn str_eq(a: &str, b: &str) -> (same: bool)
    ensures
        same == (a@ == b@),
{
    a == b
}

/// `str::starts_with` for a string pattern: whether the characters of
/// `prefix` are the first characters of `s`.
#[verifier::external_body]
pub(crate) fn str_starts_with(s: &str, prefix: &str) -> (yes: bool)
    ensures
        yes == prefix@.is_prefix_of(s@),
{
    s.starts_with(prefix)
}

/// `String::from_utf8`: the text that `bytes` encode in UTF-8, and none
/// where they encode no text.
#[verifier::external_body]
pub(crate) fn utf8_text(bytes: Vec<u8>) -> (text: Option<String>)
    ensures
        text is Some == valid_utf8(bytes@),
        text matches Some(s) ==> s@ == decode_utf8(bytes@),
{
    String::from_utf8(bytes).ok()
}

/// What `std` writes for a string with `{:?}`: the string in double
/// quotes, with its special characters escaped.
pub uninterp spec fn debug_quoted(s: Seq<char>) -> Seq<char>;

/// `format!` with `{:?}` on a string slice.
#[verifier::external_body]
pub(crate) fn debug_text(s: &str) -> (text: String)
    ensures
        text@ == debug_quoted(s@),
{
    format!("{s:?}")
}

/// The media type that `mime_guess` gives first for a file name extension,
/// as `type/subtype`; `None` for an extension that it does not know.
pub uninterp spec fn guessed_mime(extension: Seq<char>) -> Option<Seq<char>>;

/// `mime_guess::from_ext`, then the first guess and its essence.
#[verifier::external_body]
pub(crate) fn guess_mime(extension: &str) -> (mime: Option<String>)
    ensures
        mime.deep_view() == guessed_mime(extension@),
{
    mime_guess::from_ext(extension).first().map(|m| m.essence_str().to_owned())
}

/// The text that `base64`'s standard engine, with padding, writes for
/// `bytes`.
pub uninterp spec fn base64_text(bytes: Seq<u8>) -> Seq<char>;

/// The most bytes that are handed to `base64` at once: three eighths of
/// what the machine can address, so that the text, a third longer, fits.
pub const BASE64_INPUT_LIMIT: usize = usize::MAX / 8 * 3;

/// `Engine::encode` of `base64::engine::general_purpose::STANDARD`. The
/// input is bounded so that the text fits in memory on every machine.
#[verifier::external_body]
pub(crate) fn base64_encode(bytes: &Vec<u8>) -> (text: String)
    requires
        bytes@.len() <= BASE64_INPUT_LIMIT,
    ensures
        text@ == base64_text(bytes@),
{
    base64::Engine::encode(&base64::engine::general_purpose::STANDARD, bytes)
}

/// `s` without the copies of `prefix` that it starts with.
pub open spec fn without_prefixes(s: Seq<char>, prefix: Seq<char>) -> Seq<char>
    decreases s.len(),
{
    if prefix.len() > 0 && prefix.is_prefix_of(s) {
        without_prefixes(s.skip(prefix.len() as int), prefix)
    } else {
        s
    }
}

/// `str::trim_start_matches` for a string pattern: `s` without the copies
/// of `prefix` that it starts with.
#[verifier::external_body]
pub(crate) fn trim_prefixes(s: &str, prefix: &str) -> (rest: String)
    requires
        prefix@.len() > 0,
    ensures
        rest@ == without_prefixes(s@, prefix@),
{
    s.trim_start_matches(prefix).to_owned()
}

/// No two pairs of `pairs` have the same first part.
pub open spec fn distinct_firsts<T>(pairs: Seq<(String, T)>) -> bool {
    forall|i: int, j: int| 0 <= i < j < pairs.len() ==> (#[trigger] pairs[i]).0@ != (#[trigger] pairs[j]).0@
}

/// Whether no two pairs of `pairs` have the same first part.
pub fn has_distinct_firsts<T>(pairs: &Vec<(String, T)>) -> (distinct: bool)
    ensures
        distinct == distinct_firsts(pairs@),
{
    let mut j: usize = 0;
    while j < pairs.len()
        invariant
            j <= pairs.len(),
            forall|a: int, b: int| 0 <= a < b < j ==> (#[trigger] pairs@[a]).0@ != (#[trigger] pairs@[b]).0@,
        decreases pairs.len() - j,
    {
        let mut i: usize = 0;
        while i < j
            invariant
                i <= j,
                j < pairs.len(),
                forall|a: int| 0 <= a < i ==> (#[trigger] pairs@[a]).0@ != pairs@[j as int].0@,
            decreases j - i,
        {
            if str_eq(pairs[i].0.as_str(), pairs[j].0.as_str()) {
                return false;
            }
            i += 1;
        }
        j += 1;
    }
    true
}

/// The character of a decimal digit.
pub open spec fn digit_char(digit: int) -> char {
    if digit == 0 {
        '0'
    } else if digit == 1 {
        '1'
    } else if digit == 2 {
        '2'
    } else if digit == 3 {
        '3'
    } else if digit == 4 {
        '4'
    } else if digit == 5 {
        '5'
    } else if digit == 6 {
        '6'
    } else if digit == 7 {
        '7'
    } else if digit == 8 {
        '8'
    } else {
        '9'
    }
}

/// The last `width` decimal digits of `n`, with zeros in front where `n`
/// has fewer.
pub open spec fn padded_decimal(n: nat, width: nat) -> Seq<char>
    decreases width,
{
    if width == 0 {
        Seq::empty()
    } else {
        padded_decimal(n / 10, (width - 1) as nat).push(digit_char((n % 10) as int))
    }
}

/// The decimal digits of `n`, without zeros in front.
pub open spec fn decimal(n: nat) -> Seq<char>
    decreases n,
{
    if n < 10 {
        seq![digit_char(n as int)]
    } else {
        decimal(n / 10).push(digit_char((n % 10) as int))
    }
}

/// The text of one decimal digit.
pub fn digit_str(digit: u64) -> (text: &'static str)
    requires
        digit < 10,
    ensures
        text@ == seq![digit_char(digit as int)],
{
    proof {
        reveal_strlit("0");
        reveal_strlit("1");
        reveal_strlit("2");
        reveal_strlit("3");
        reveal_strlit("4");
        reveal_strlit("5");
        reveal_strlit("6");
        reveal_strlit("7");
        reveal_strlit("8");
        reveal_strlit("9");
    }
    let text = if digit == 0 {
        "0"
    } else if digit == 1 {
        "1"
    } else if digit == 2 {
        "2"
    } else if digit == 3 {
        "3"
    } else if digit == 4 {
        "4"
    } else if digit == 5 {
        "5"
    } else if digit == 6 {
        "6"
    } else if digit == 7 {
        "7"
    } else if digit == 8 {
        "8"
    } else {
        "9"
    };
    assert(text@ =~= seq![digit_char(digit as int)]);
    text
}

/// Appends the last `width` decimal digits of `n` to `out`, with zeros in
/// front where `n` has fewer.
pub fn push_padded_decimal(out: &mut String, n: u64, width: u8)
    ensures
        final(out)@ == old(out)@ + padded_decimal(n as nat, width as nat),
    decreases width,
{
    if width == 0 {
        assert(out@ + Seq::<char>::empty() =~= out@);
    } else {
        push_padded_decimal(out, n / 10, width - 1);
        out.append(digit_str(n % 10));
        assert(old(out)@ + padded_decimal(n as nat, width as nat) =~= old(out)@ + padded_decimal(
            (n / 10) as nat,
            (width - 1) as nat,
        ) + seq![digit_char((n % 10) as int)]);
    }
}

/// Appends the decimal digits of `n` to `out`.
pub fn push_decimal(out: &mut String, n: u64)
    ensures
        final(out)@ == old(out)@ + decimal(n as nat),
    decreases n,
{
    if n < 10 {
        out.append(digit_str(n));
    } else {
        push_decimal(out, n / 10);
        out.append(digit_str(n % 10));
        assert(old(out)@ + decimal(n as nat) =~= old(out)@ + decimal((n / 10) as nat) + seq![
            digit_char((n % 10) as int),
        ]);
    }
}

} // verus!
