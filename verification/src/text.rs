//! Texts: numbers in decimal, suffix tests, and the cutting of long messages
//! into pieces that the chat will take.

use vstd::prelude::*;
use vstd::slice::slice_subrange;
use vstd::string::StrSliceExecFns;
use vstd::string::StringSliceAdditionalSpecFns;

verus! {

/// `String::push`: appends one character.
pub assume_specification[ String::push ](text: &mut String, c: char)
    ensures
        final(text)@ == old(text)@.push(c),
;

/// The longest text, in bytes, that goes out as one message.
pub const MESSAGE_LIMIT: usize = 4096;

/// The longest text, in bytes, that is sent at all. A longer one is replaced
/// by a pointer to the logs.
pub const TRACEBACK_LIMIT: usize = 16384;

/// What is sent in place of a text that is over `TRACEBACK_LIMIT`.
pub const TOO_LARGE_NOTICE: &'static str = "Error traceback is too large. Read the logs for more info.";

/// What lossy decoding makes of `bytes`: their text where they are valid
/// UTF-8, and otherwise the text with each invalid stretch replaced by the
/// replacement character, as the standard library defines it.
pub uninterp spec fn utf8_lossy(bytes: Seq<u8>) -> Seq<char>;

/// `String::from_utf8_lossy`, taken as an owned text.
#[verifier::external_body]
fn lossy_text(bytes: &[u8]) -> (text: String)
    ensures
        text@ == utf8_lossy(bytes@),
{
    String::from_utf8_lossy(bytes).into_owned()
}

/// The texts of a sequence of strings.
pub open spec fn texts(strings: Seq<String>) -> Seq<Seq<char>> {
    strings.map_values(|s: String| s@)
}

/// The character of the decimal digit `d`, for `d` below 10.
pub open spec fn digit_char(d: int) -> char {
    if d == 0 {
        '0'
    } else if d == 1 {
        '1'
    } else if d == 2 {
        '2'
    } else if d == 3 {
        '3'
    } else if d == 4 {
        '4'
    } else if d == 5 {
        '5'
    } else if d == 6 {
        '6'
    } else if d == 7 {
        '7'
    } else if d == 8 {
        '8'
    } else {
        '9'
    }
}

/// `n` in decimal, without leading zeros.
pub open spec fn decimal(n: nat) -> Seq<char>
    decreases n,
{
    if n < 10 {
        seq![digit_char(n as int)]
    } else {
        decimal(n / 10).push(digit_char((n % 10) as int))
    }
}

/// Whether `text` ends with `suffix`.
pub open spec fn has_suffix(text: Seq<char>, suffix: Seq<char>) -> bool {
    text.len() >= suffix.len() && text.subrange(text.len() - suffix.len(), text.len() as int)
        == suffix
}

/// The character of a decimal digit.
pub(crate) fn digit(d: u8) -> (c: char)
    requires
        d < 10,
    ensures
        c == digit_char(d as int),
{
    match d {
        0 => '0',
        1 => '1',
        2 => '2',
        3 => '3',
        4 => '4',
        5 => '5',
        6 => '6',
        7 => '7',
        8 => '8',
        _ => '9',
    }
}

/// Appends `n` in decimal to `out`.
pub fn push_decimal(out: &mut String, n: u128)
    ensures
        final(out)@ == old(out)@ + decimal(n as nat),
    decreases n,
{
    if n >= 10 {
        push_decimal(out, n / 10);
    }
    out.push(digit((n % 10) as u8));
    assert(out@ =~= old(out)@ + decimal(n as nat));
}

/// `n` in decimal.
pub fn decimal_text(n: u128) -> (text: String)
    ensures
        text@ == decimal(n as nat),
{
    let mut text = String::new();
    push_decimal(&mut text, n);
    assert(text@ =~= decimal(n as nat));
    text
}

/// Whether `text` ends with `suffix`.
pub fn ends_with(text: &str, suffix: &str) -> (ends: bool)
    ensures
        ends == has_suffix(text@, suffix@),
{
    let n = text.unicode_len();
    let k = suffix.unicode_len();
    if n < k {
        return false;
    }
    text.substring_char(n - k, n).eq(suffix)
}

/// The number of pieces that `len` bytes are cut into.
pub open spec fn piece_count(len: nat) -> nat {
    ((len + MESSAGE_LIMIT - 1) / (MESSAGE_LIMIT as int)) as nat
}

/// The `i`-th piece of `bytes`: `MESSAGE_LIMIT` bytes, or what is left.
pub open spec fn piece(bytes: Seq<u8>, i: int) -> Seq<u8> {
    bytes.subrange(
        i * MESSAGE_LIMIT as int,
        if (i + 1) * MESSAGE_LIMIT as int <= bytes.len() {
            (i + 1) * MESSAGE_LIMIT as int
        } else {
            bytes.len() as int
        },
    )
}

/// The messages that `text` goes out as. A text of at most `MESSAGE_LIMIT`
/// bytes goes out as it is. A longer one of at most `TRACEBACK_LIMIT` bytes
/// is cut every `MESSAGE_LIMIT` bytes, each piece decoded on its own, so that
/// a character cut in two shows as replacement characters. A text longer
/// than that is replaced by the notice.
pub open spec fn split_text_spec(text: Seq<char>) -> Seq<Seq<char>> {
    let bytes = vstd::utf8::encode_utf8(text);
    if bytes.len() > TRACEBACK_LIMIT {
        seq![TOO_LARGE_NOTICE@]
    } else if bytes.len() > MESSAGE_LIMIT {
        Seq::new(piece_count(bytes.len()), |i: int| utf8_lossy(piece(bytes, i)))
    } else {
        seq![text]
    }
}

/// Cuts `text` into the messages it goes out as.
pub fn split_text(text: &str) -> (chunks: Vec<String>)
    ensures
        texts(chunks@) == split_text_spec(text@),
{
    let bytes = text.as_bytes();
    let len = bytes.len();
    if len > TRACEBACK_LIMIT {
        let chunks = vec![TOO_LARGE_NOTICE.to_owned()];
        assert(texts(chunks@) =~= seq![TOO_LARGE_NOTICE@]);
        return chunks;
    }
    if len <= MESSAGE_LIMIT {
        let chunks = vec![text.to_owned()];
        assert(texts(chunks@) =~= seq![text@]);
        return chunks;
    }
    let mut chunks: Vec<String> = Vec::new();
    let mut start: usize = 0;
    while start < len
        invariant
            len == bytes@.len(),
            MESSAGE_LIMIT < len <= TRACEBACK_LIMIT,
            start <= len + MESSAGE_LIMIT,
            start == chunks@.len() * MESSAGE_LIMIT,
            chunks@.len() <= piece_count(len as nat),
            start >= len ==> chunks@.len() == piece_count(len as nat),
            forall|i: int|
                0 <= i < chunks@.len() ==> (#[trigger] chunks@[i])@ == utf8_lossy(piece(bytes@, i)),
        decreases len + MESSAGE_LIMIT - start,
    {
        let end = if len - start > MESSAGE_LIMIT {
            start + MESSAGE_LIMIT
        } else {
            len
        };
        let ghost index = chunks@.len() as int;
        let chunk = lossy_text(slice_subrange(bytes, start, end));
        assert(bytes@.subrange(start as int, end as int) == piece(bytes@, index));
        chunks.push(chunk);
        start = start + MESSAGE_LIMIT;
    }
    assert(texts(chunks@) =~= split_text_spec(text@));
    chunks
}

} // verus!
