use vstd::prelude::*;
use vstd::string::*;
use crate::error::WebError;

verus! {

/// The characters that count as whitespace around a credential.
pub open spec fn is_space(c: char) -> bool {
    let code = c as u32;
    ||| 0x09 <= code <= 0x0D
    ||| code == 0x20
    ||| code == 0x85
    ||| code == 0xA0
    ||| code == 0x1680
    ||| 0x2000 <= code <= 0x200A
    ||| code == 0x2028
    ||| code == 0x2029
    ||| code == 0x202F
    ||| code == 0x205F
    ||| code == 0x3000
}

/// The header begins with the scheme word `token`, in any mix of upper and
/// lower case ASCII letters.
pub open spec fn has_scheme(header: Seq<char>) -> bool {
    &&& header.len() >= 5
    &&& (header[0] == 't' || header[0] == 'T')
    &&& (header[1] == 'o' || header[1] == 'O')
    &&& (header[2] == 'k' || header[2] == 'K')
    &&& (header[3] == 'e' || header[3] == 'E')
    &&& (header[4] == 'n' || header[4] == 'N')
}

/// The first position at or after `from` that holds no whitespace, or the
/// length of the text if there is none.
pub open spec fn solid_start(text: Seq<char>, from: int) -> int
    decreases text.len() - from,
{
    if 0 <= from < text.len() && is_space(text[from]) {
        solid_start(text, from + 1)
    } else {
        from
    }
}

/// The end of the last run of non-whitespace that ends at or before `to`
/// and does not reach below `low`.
pub open spec fn solid_end(text: Seq<char>, low: int, to: int) -> int
    decreases to - low,
{
    if low < to <= text.len() && is_space(text[to - 1]) {
        solid_end(text, low, to - 1)
    } else {
        to
    }
}

/// The credential a header carries: what follows the scheme word and at
/// least one whitespace character, without the whitespace around it. A
/// header of any other shape, or one whose credential is empty, carries
/// none.
pub open spec fn credential_of(header: Seq<char>) -> Option<Seq<char>> {
    if has_scheme(header) && header.len() > 5 && is_space(header[5]) {
        let start = solid_start(header, 5);
        let end = solid_end(header, start, header.len() as int);
        if start < end {
            Some(header.subrange(start, end))
        } else {
            None
        }
    } else {
        None
    }
}

/// Everything between `from` and `solid_start` is whitespace, and
/// `solid_start` is either the end of the text or a character that is not.
pub proof fn lemma_solid_start(text: Seq<char>, from: int)
    requires
        0 <= from <= text.len(),
    ensures
        from <= solid_start(text, from) <= text.len(),
        forall|i: int| from <= i < solid_start(text, from) ==> is_space(#[trigger] text[i]),
        solid_start(text, from) < text.len() ==> !is_space(text[solid_start(text, from)]),
    decreases text.len() - from,
{
    if from < text.len() && is_space(text[from]) {
        lemma_solid_start(text, from + 1);
    }
}

/// Everything between `solid_end` and `to` is whitespace, and the character
/// before `solid_end` is not, unless `solid_end` is `low`.
pub proof fn lemma_solid_end(text: Seq<char>, low: int, to: int)
    requires
        0 <= low <= to <= text.len(),
    ensures
        low <= solid_end(text, low, to) <= to,
        forall|i: int| solid_end(text, low, to) <= i < to ==> is_space(#[trigger] text[i]),
        low < solid_end(text, low, to) ==> !is_space(text[solid_end(text, low, to) - 1]),
    decreases to - low,
{
    if low < to && is_space(text[to - 1]) {
        lemma_solid_end(text, low, to - 1);
    }
}

/// A credential is never empty, neither begins nor ends with whitespace,
/// and is the part of the header that lies between the whitespace after
/// the scheme word and the whitespace at the end.
pub proof fn lemma_credential_is_trimmed(header: Seq<char>)
    requires
        credential_of(header) is Some,
    ensures
        ({
            let credential = credential_of(header)->Some_0;
            &&& credential.len() > 0
            &&& !is_space(credential.first())
            &&& !is_space(credential.last())
            &&& exists|start: int, end: int|
                {
                    &&& 5 < start < end <= header.len()
                    &&& credential == #[trigger] header.subrange(start, end)
                    &&& forall|i: int| 5 <= i < start ==> is_space(#[trigger] header[i])
                    &&& forall|i: int| end <= i < header.len() ==> is_space(#[trigger] header[i])
                }
        }),
{
    let start = solid_start(header, 5);
    let end = solid_end(header, start, header.len() as int);
    lemma_solid_start(header, 5);
    lemma_solid_end(header, start, header.len() as int);
    assert(header.subrange(start, end).first() == header[start]);
    assert(header.subrange(start, end).last() == header[end - 1]);
}

/// A header that is too short, names another scheme, lacks the whitespace
/// after the scheme word, or carries only whitespace has no credential.
pub proof fn lemma_malformed_headers_carry_no_credential(header: Seq<char>)
    ensures
        header.len() <= 5 ==> credential_of(header) is None,
        !has_scheme(header) ==> credential_of(header) is None,
        header.len() > 5 && !is_space(header[5]) ==> credential_of(header) is None,
        (forall|i: int| 5 <= i < header.len() ==> is_space(#[trigger] header[i]))
            ==> credential_of(header) is None,
{
    if has_scheme(header) && header.len() > 5 && is_space(header[5]) {
        if forall|i: int| 5 <= i < header.len() ==> is_space(#[trigger] header[i]) {
            lemma_solid_start(header, 5);
            let start = solid_start(header, 5);
            lemma_solid_end(header, start, header.len() as int);
        }
    }
}

/// Whether the character counts as whitespace around a credential.
pub fn is_whitespace(c: char) -> (space: bool)
    ensures
        space == is_space(c),
{
    let code: u32 = c as u32;
    (0x09 <= code && code <= 0x0D) || code == 0x20 || code == 0x85 || code == 0xA0 || code
        == 0x1680 || (0x2000 <= code && code <= 0x200A) || code == 0x2028 || code == 0x2029
        || code == 0x202F || code == 0x205F || code == 0x3000
}

/// Reads the credential from the text of an `Authorization` header. An
/// absent header, and any header that `credential_of` gives no credential
/// for, is refused as unauthorized.
pub fn credential(header: Option<&str>) -> (result: Result<String, WebError>)
    ensures
        match result {
            Ok(credential) => header matches Some(text) && credential_of(text@) == Some(
                credential@,
            ),
            Err(error) => error is Unauthorized && (header matches Some(text) ==> credential_of(
                text@,
            ) is None),
        },
{
    let text = match header {
        Some(text) => text,
        None => {
            return Err(WebError::Unauthorized);
        },
    };
    let length = text.unicode_len();
    if length <= 5 {
        return Err(WebError::Unauthorized);
    }
    let c0 = text.get_char(0);
    let c1 = text.get_char(1);
    let c2 = text.get_char(2);
    let c3 = text.get_char(3);
    let c4 = text.get_char(4);
    let scheme = (c0 == 't' || c0 == 'T') && (c1 == 'o' || c1 == 'O') && (c2 == 'k' || c2 == 'K')
        && (c3 == 'e' || c3 == 'E') && (c4 == 'n' || c4 == 'N');
    if !scheme || !is_whitespace(text.get_char(5)) {
        return Err(WebError::Unauthorized);
    }
    let mut start: usize = 5;
    while start < length && is_whitespace(text.get_char(start))
        invariant
            5 <= start <= length,
            length == text@.len(),
            solid_start(text@, 5) == solid_start(text@, start as int),
        decreases length - start,
    {
        start = start + 1;
    }
    let mut end: usize = length;
    while end > start && is_whitespace(text.get_char(end - 1))
        invariant
            start <= end <= length,
            length == text@.len(),
            solid_end(text@, start as int, length as int) == solid_end(
                text@,
                start as int,
                end as int,
            ),
        decreases end - start,
    {
        end = end - 1;
    }
    if start < end {
        Ok(String::from_str(text.substring_char(start, end)))
    } else {
        Err(WebError::Unauthorized)
    }
}

} // verus!
