use vstd::prelude::*;

use crate::status::{
    LXET_ERR_AUTH, LXET_ERR_CANCELLED, LXET_ERR_INTEGRITY, LXET_ERR_NETWORK, LXET_ERR_OTHER,
};
use crate::text::{chars_of, contains_str, has_substring};
use vstd::utf8::is_ascii_chars;

verus! {

/// What `str::to_lowercase` returns for a string with the given characters:
/// its full Unicode lowercase mapping.
pub uninterp spec fn lowercase_of(s: Seq<char>) -> Seq<char>;

/// `c` with an ASCII capital letter turned into its small letter; every
/// other character is left as it is.
pub open spec fn ascii_lower_char(c: char) -> char {
    if 65 <= (c as u32) <= 90 {
        ((c as u32) + 32) as char
    } else {
        c
    }
}

/// `c` with an ASCII small letter turned into its capital letter; every
/// other character is left as it is.
pub open spec fn ascii_upper_char(c: char) -> char {
    if 97 <= (c as u32) <= 122 {
        ((c as u32) - 32) as char
    } else {
        c
    }
}

/// Every ASCII capital letter of `s` turned into its small letter, as
/// `str::to_ascii_lowercase` does.
pub open spec fn ascii_lower(s: Seq<char>) -> Seq<char> {
    s.map_values(|c: char| ascii_lower_char(c))
}

/// Every ASCII small letter of `s` turned into its capital letter, as
/// `str::to_ascii_uppercase` does.
pub open spec fn ascii_upper(s: Seq<char>) -> Seq<char> {
    s.map_values(|c: char| ascii_upper_char(c))
}

/// `str::to_lowercase`: the lowercase equivalent of `s`, as defined by the
/// Unicode Derived Core Property `Lowercase`. The result is named; the
/// Unicode case tables are not restated here. Of ASCII text the contract
/// states what std's documentation shows (`"HELLO"` becomes `"hello"`):
/// capital letters become small letters and every other character stays.
#[verifier::external_body]
fn to_lowercase(s: &str) -> (r: String)
    ensures
        r@ == lowercase_of(s@),
        is_ascii_chars(s@) ==> r@ == ascii_lower(s@),
{
    s.to_lowercase()
}

/// The failure code for an already lowercased diagnostic message. The
/// keyword groups are tried in a fixed order, and the first group with a
/// keyword present in the message decides the code.
pub open spec fn classification(lower: Seq<char>) -> i32 {
    if has_substring(lower, "cancel"@) {
        LXET_ERR_CANCELLED
    } else if has_substring(lower, "auth"@) || has_substring(lower, "401"@) || has_substring(
        lower,
        "403"@,
    ) {
        LXET_ERR_AUTH
    } else if has_substring(lower, "integrity"@) || has_substring(lower, "hash"@) || has_substring(
        lower,
        "mismatch"@,
    ) {
        LXET_ERR_INTEGRITY
    } else if has_substring(lower, "timeout"@) || has_substring(lower, "connect"@)
        || has_substring(lower, "network"@) {
        LXET_ERR_NETWORK
    } else {
        LXET_ERR_OTHER
    }
}

/// The failure code of a diagnostic message: the classification of its
/// lowercase form.
pub open spec fn error_class(msg: Seq<char>) -> i32 {
    classification(lowercase_of(msg))
}

/// Classifies a message that is already in lowercase by the keywords it holds.
pub fn classify_lowered(lower: &str) -> (code: i32)
    ensures
        code == classification(lower@),
        has_substring(lower@, "cancel"@) ==> code == LXET_ERR_CANCELLED,
        (!has_substring(lower@, "cancel"@) && (has_substring(lower@, "auth"@) || has_substring(lower@, "401"@) || has_substring(lower@, "403"@))) ==> code == LXET_ERR_AUTH,
        (!has_substring(lower@, "cancel"@) && !has_substring(lower@, "auth"@) && !has_substring(lower@, "401"@) && !has_substring(lower@, "403"@) && (has_substring(lower@, "integrity"@) || has_substring(lower@, "hash"@) || has_substring(lower@, "mismatch"@))) ==> code == LXET_ERR_INTEGRITY,
        (!has_substring(lower@, "cancel"@) && !has_substring(lower@, "auth"@) && !has_substring(lower@, "401"@) && !has_substring(lower@, "403"@) && !has_substring(lower@, "integrity"@) && !has_substring(lower@, "hash"@) && !has_substring(lower@, "mismatch"@) && (has_substring(lower@, "timeout"@) || has_substring(lower@, "connect"@) || has_substring(lower@, "network"@))) ==> code == LXET_ERR_NETWORK,
        (!has_substring(lower@, "cancel"@) && !has_substring(lower@, "auth"@) && !has_substring(lower@, "401"@) && !has_substring(lower@, "403"@) && !has_substring(lower@, "integrity"@) && !has_substring(lower@, "hash"@) && !has_substring(lower@, "mismatch"@) && !has_substring(lower@, "timeout"@) && !has_substring(lower@, "connect"@) && !has_substring(lower@, "network"@)) ==> code == LXET_ERR_OTHER,
{
    let text = chars_of(lower);
    if contains_str(&text, "cancel") {
        return LXET_ERR_CANCELLED;
    }
    if contains_str(&text, "auth") || contains_str(&text, "401") || contains_str(&text, "403") {
        return LXET_ERR_AUTH;
    }
    if contains_str(&text, "integrity") || contains_str(&text, "hash") || contains_str(
        &text,
        "mismatch",
    ) {
        return LXET_ERR_INTEGRITY;
    }
    if contains_str(&text, "timeout") || contains_str(&text, "connect") || contains_str(
        &text,
        "network",
    ) {
        return LXET_ERR_NETWORK;
    }
    LXET_ERR_OTHER
}

/// Maps a diagnostic message to an `LXET_ERR_*` code by case-insensitive
/// keyword heuristics: cancellation first, then authentication, integrity
/// and network, and anything else is `LXET_ERR_OTHER`. An ASCII message is
/// classified by its ASCII-lowercased text.
pub fn classify_error(msg: &str) -> (code: i32)
    ensures
        code == error_class(msg@),
        is_ascii_chars(msg@) ==> code == classification(ascii_lower(msg@)),
        has_substring(lowercase_of(msg@), "cancel"@) ==> code == LXET_ERR_CANCELLED,
        (!has_substring(lowercase_of(msg@), "cancel"@) && (has_substring(lowercase_of(msg@), "auth"@) || has_substring(lowercase_of(msg@), "401"@) || has_substring(lowercase_of(msg@), "403"@))) ==> code == LXET_ERR_AUTH,
        (!has_substring(lowercase_of(msg@), "cancel"@) && !has_substring(lowercase_of(msg@), "auth"@) && !has_substring(lowercase_of(msg@), "401"@) && !has_substring(lowercase_of(msg@), "403"@) && (has_substring(lowercase_of(msg@), "integrity"@) || has_substring(lowercase_of(msg@), "hash"@) || has_substring(lowercase_of(msg@), "mismatch"@))) ==> code == LXET_ERR_INTEGRITY,
        (!has_substring(lowercase_of(msg@), "cancel"@) && !has_substring(lowercase_of(msg@), "auth"@) && !has_substring(lowercase_of(msg@), "401"@) && !has_substring(lowercase_of(msg@), "403"@) && !has_substring(lowercase_of(msg@), "integrity"@) && !has_substring(lowercase_of(msg@), "hash"@) && !has_substring(lowercase_of(msg@), "mismatch"@) && (has_substring(lowercase_of(msg@), "timeout"@) || has_substring(lowercase_of(msg@), "connect"@) || has_substring(lowercase_of(msg@), "network"@))) ==> code == LXET_ERR_NETWORK,
        (!has_substring(lowercase_of(msg@), "cancel"@) && !has_substring(lowercase_of(msg@), "auth"@) && !has_substring(lowercase_of(msg@), "401"@) && !has_substring(lowercase_of(msg@), "403"@) && !has_substring(lowercase_of(msg@), "integrity"@) && !has_substring(lowercase_of(msg@), "hash"@) && !has_substring(lowercase_of(msg@), "mismatch"@) && !has_substring(lowercase_of(msg@), "timeout"@) && !has_substring(lowercase_of(msg@), "connect"@) && !has_substring(lowercase_of(msg@), "network"@)) ==> code == LXET_ERR_OTHER,
{
    let lower = to_lowercase(msg);
    classify_lowered(lower.as_str())
}

/// Every classification is one of the five failure codes: it never reports
/// success nor an invalid argument.
pub proof fn lemma_classification_is_failure(lower: Seq<char>)
    ensures
        classification(lower) == LXET_ERR_CANCELLED || classification(lower) == LXET_ERR_AUTH
            || classification(lower) == LXET_ERR_INTEGRITY || classification(lower)
            == LXET_ERR_NETWORK || classification(lower) == LXET_ERR_OTHER,
        classification(lower) != crate::status::LXET_OK,
        classification(lower) != crate::status::LXET_ERR_INVALID_ARG,
{
}

/// The ASCII case of a message does not matter to its classification:
/// an ASCII message, its upper-case form and its lower-case form are all
/// ASCII and all lower-case to the same text, so `classify_error` gives the
/// three the same code.
pub proof fn lemma_ascii_case_insensitive(msg: Seq<char>)
    requires
        is_ascii_chars(msg),
    ensures
        is_ascii_chars(ascii_upper(msg)),
        is_ascii_chars(ascii_lower(msg)),
        ascii_lower(ascii_upper(msg)) == ascii_lower(msg),
        ascii_lower(ascii_lower(msg)) == ascii_lower(msg),
        classification(ascii_lower(ascii_upper(msg))) == classification(ascii_lower(msg)),
        classification(ascii_lower(ascii_lower(msg))) == classification(ascii_lower(msg)),
{
    assert forall|i: int| 0 <= i < msg.len() implies ascii_lower_char(ascii_upper_char(msg[i]))
        == ascii_lower_char(msg[i]) && ascii_lower_char(ascii_lower_char(msg[i]))
        == ascii_lower_char(msg[i]) && ('\0' <= #[trigger] ascii_upper(msg)[i] <= '\u{7f}')
        && ('\0' <= ascii_lower(msg)[i] <= '\u{7f}') by {
        let c = msg[i];
        let u = c as u32;
        if 97 <= u <= 122 {
            vstd::utf8::char_u32_cast(ascii_upper_char(c), (u - 32) as u32);
        }
        if 65 <= u <= 90 {
            vstd::utf8::char_u32_cast(ascii_lower_char(c), (u + 32) as u32);
        }
        assert(ascii_upper(msg)[i] == ascii_upper_char(c));
        assert(ascii_lower(msg)[i] == ascii_lower_char(c));
    }
    assert(ascii_lower(ascii_upper(msg)) =~= ascii_lower(msg));
    assert(ascii_lower(ascii_lower(msg)) =~= ascii_lower(msg));
}

/// The keyword table: a lowercased message holding "cancel" is a
/// cancellation; otherwise one holding "auth", "401" or "403" is an
/// authentication failure; otherwise one holding "integrity", "hash" or
/// "mismatch" is an integrity failure; otherwise one holding "timeout",
/// "connect" or "network" is a network failure; anything else is "other".
pub proof fn lemma_keyword_table(lower: Seq<char>)
    ensures
        has_substring(lower, "cancel"@) ==> classification(lower) == LXET_ERR_CANCELLED,
        (!has_substring(lower, "cancel"@) && (has_substring(lower, "auth"@) || has_substring(lower, "401"@) || has_substring(lower, "403"@))) ==> classification(lower) == LXET_ERR_AUTH,
        (!has_substring(lower, "cancel"@) && !has_substring(lower, "auth"@) && !has_substring(lower, "401"@) && !has_substring(lower, "403"@) && (has_substring(lower, "integrity"@) || has_substring(lower, "hash"@) || has_substring(lower, "mismatch"@))) ==> classification(lower) == LXET_ERR_INTEGRITY,
        (!has_substring(lower, "cancel"@) && !has_substring(lower, "auth"@) && !has_substring(lower, "401"@) && !has_substring(lower, "403"@) && !has_substring(lower, "integrity"@) && !has_substring(lower, "hash"@) && !has_substring(lower, "mismatch"@) && (has_substring(lower, "timeout"@) || has_substring(lower, "connect"@) || has_substring(lower, "network"@))) ==> classification(lower) == LXET_ERR_NETWORK,
        (!has_substring(lower, "cancel"@) && !has_substring(lower, "auth"@) && !has_substring(lower, "401"@) && !has_substring(lower, "403"@) && !has_substring(lower, "integrity"@) && !has_substring(lower, "hash"@) && !has_substring(lower, "mismatch"@) && !has_substring(lower, "timeout"@) && !has_substring(lower, "connect"@) && !has_substring(lower, "network"@)) ==> classification(lower) == LXET_ERR_OTHER,
{
}

} // verus!
