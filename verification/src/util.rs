//! Helpers that lean on the outside world: base64, the clock, the host's
//! name and fresh message identifiers; and the last segment of a path of
//! names.

pub use crate::server_error::collect_error_messages;
use vstd::prelude::*;
use vstd::string::*;

verus! {

/// `base64::DecodeError`: why a text is not base64, opaque to the proofs.
#[verifier::external_type_specification]
#[verifier::external_body]
pub struct ExDecodeError(base64::DecodeError);

/// The text that the URL-safe base64 alphabet without padding gives for the
/// bytes.
pub uninterp spec fn base64_text(data: Seq<u8>) -> Seq<char>;

/// The bytes that a text stands for in the URL-safe base64 alphabet without
/// padding; `None` where the text is not valid.
pub uninterp spec fn base64_bytes(text: Seq<char>) -> Option<Seq<u8>>;

/// The most bytes that are encoded at once. The text of so many bytes is
/// still shorter than the longest text that memory can hold.
pub open spec fn max_encodable() -> nat {
    (usize::MAX / 4) as nat
}

/// Calls `encode` of base64's engine `URL_SAFE_NO_PAD`. The contract names
/// the text that it gives, and says that the same engine decodes that text
/// to the bytes that were encoded. `encode` panics where the length of the
/// text cannot be computed or allocated, which the bound on the input
/// excludes.
#[verifier::external_body]
fn engine_encode(data: &[u8]) -> (text: String)
    requires
        data@.len() <= max_encodable(),
    ensures
        text@ == base64_text(data@),
        base64_bytes(text@) == Some(data@),
{
    base64::Engine::encode(&base64::engine::general_purpose::URL_SAFE_NO_PAD, data)
}

/// Calls `decode` of base64's engine `URL_SAFE_NO_PAD`. The contract names
/// the bytes that it gives and says that an error means there are none.
#[verifier::external_body]
fn engine_decode(text: &str) -> (r: Result<Vec<u8>, base64::DecodeError>)
    ensures
        match r {
            Ok(data) => base64_bytes(text@) == Some(data@),
            Err(_) => base64_bytes(text@) is None,
        },
{
    base64::Engine::decode(&base64::engine::general_purpose::URL_SAFE_NO_PAD, text)
}

/// Renders a `base64::DecodeError` through its `Display`. Nothing is claimed
/// of the words.
#[verifier::external_body]
pub(crate) fn decode_error_text(error: &base64::DecodeError) -> (text: String) {
    error.to_string()
}

/// Encodes bytes for transport in a message. Decoding the text gives the
/// bytes back.
pub fn base64_encode(data: &[u8]) -> (text: String)
    requires
        data@.len() <= max_encodable(),
    ensures
        text@ == base64_text(data@),
        base64_bytes(text@) == Some(data@),
{
    engine_encode(data)
}

/// Decodes content that was transported in a message.
pub fn base64_decode(data: &str) -> (r: Result<Vec<u8>, base64::DecodeError>)
    ensures
        match r {
            Ok(bytes) => base64_bytes(data@) == Some(bytes@),
            Err(_) => base64_bytes(data@) is None,
        },
{
    engine_decode(data)
}

/// Whether a character is a decimal digit.
pub open spec fn is_digit(c: char) -> bool {
    c == '0' || c == '1' || c == '2' || c == '3' || c == '4' || c == '5' || c == '6' || c == '7'
        || c == '8' || c == '9'
}

/// Whether a text has the shape of a UTC timestamp with whole seconds:
/// the year, `-`, two digits of the month, `-`, two of the day, `T`, two of
/// the hour, `:`, two of the minute, `:`, two of the second, and `Z`. The
/// year has four digits, or a `+` and more digits from the year 10000 on.
pub open spec fn is_timestamp(text: Seq<char>) -> bool {
    let n = text.len() as int;
    &&& n >= 20
    &&& forall|i: int| 0 <= i < n - 16 ==> is_digit(#[trigger] text[i]) || text[i] == '+'
    &&& text[n - 16] == '-' && is_digit(text[n - 15]) && is_digit(text[n - 14])
    &&& text[n - 13] == '-' && is_digit(text[n - 12]) && is_digit(text[n - 11])
    &&& text[n - 10] == 'T' && is_digit(text[n - 9]) && is_digit(text[n - 8])
    &&& text[n - 7] == ':' && is_digit(text[n - 6]) && is_digit(text[n - 5])
    &&& text[n - 4] == ':' && is_digit(text[n - 3]) && is_digit(text[n - 2])
    &&& text[n - 1] == 'Z'
}

/// Calls `chrono::Utc::now` and writes the time with `to_rfc3339_opts`,
/// with whole seconds and `Z` for the offset. The result is the time of the
/// call; the contract claims only the shape in which every time is written:
/// the year in four digits, or with a `+` and more digits, then two digits
/// each for month, day, hour, minute and second between `-`, `T` and `:`,
/// and `Z` at the end. `Utc::now` panics where the system's clock stands
/// before 1970.
#[verifier::external_body]
fn utc_now_text() -> (text: String)
    ensures
        is_timestamp(text@),
{
    chrono::Utc::now().to_rfc3339_opts(chrono::SecondsFormat::Secs, true)
}

/// The current time in UTC as an ISO 8601 timestamp with whole seconds,
/// such as `2024-05-06T07:08:09Z`.
pub fn utc_timestamp() -> (text: String)
    ensures
        is_timestamp(text@),
{
    utc_now_text()
}


/// Calls `hostname::get` and makes a string of the name, replacing what is
/// not valid Unicode. The result depends on the machine; nothing is claimed
/// of it.
#[verifier::external_body]
fn system_hostname() -> (name: Option<String>) {
    hostname::get().ok().map(|name| name.to_string_lossy().into_owned())
}

/// Whether a character is a hexadecimal digit in lower case.
pub open spec fn is_lower_hex(c: char) -> bool {
    is_digit(c) || c == 'a' || c == 'b' || c == 'c' || c == 'd' || c == 'e' || c == 'f'
}

/// Whether a text has the shape of a random identifier: 36 characters, of
/// which the ninth, the fourteenth, the nineteenth and the twenty-fourth
/// are `-` and the others hexadecimal digits in lower case; the digit
/// behind the second `-` is `4`, and the one behind the third is `8`, `9`,
/// `a` or `b`.
pub open spec fn is_message_id(text: Seq<char>) -> bool {
    &&& text.len() == 36
    &&& forall|i: int|
        #![trigger text[i]]
        0 <= i < 36 ==> if i == 8 || i == 13 || i == 18 || i == 23 {
            text[i] == '-'
        } else {
            is_lower_hex(text[i])
        }
    &&& text[14] == '4'
    &&& (text[19] == '8' || text[19] == '9' || text[19] == 'a' || text[19] == 'b')
}

/// Calls `uuid::Uuid::new_v4` and renders the identifier through its
/// `Display`. The result is random; the contract claims only the shape in
/// which every such identifier is written: hyphenated, in lower case, with
/// the digits of version 4 and of the variant in their places. `new_v4`
/// panics where the system gives no random bytes.
#[verifier::external_body]
fn random_uuid_text() -> (id: String)
    ensures
        is_message_id(id@),
{
    uuid::Uuid::new_v4().to_string()
}

/// The name of this machine, where it can be found out.
pub fn get_hostname() -> (name: Option<String>) {
    system_hostname()
}

/// A fresh identifier for a request: a random UUID of version 4, such as
/// `67e55044-10b1-426f-9247-bb680e5fe0c8`.
pub fn new_message_id() -> (id: String)
    ensures
        is_message_id(id@),
{
    random_uuid_text()
}

/// Whether `::` stands at position `i` of `s`.
pub open spec fn colons_at(s: Seq<char>, i: int) -> bool {
    0 <= i && i + 2 <= s.len() && s[i] == ':' && s[i + 1] == ':'
}

/// One past the end of the last `::` in `s`, searching from the end; zero
/// where there is none.
pub open spec fn after_last_colons(s: Seq<char>) -> int
    decreases s.len(),
{
    if s.len() < 2 {
        0
    } else if colons_at(s, s.len() - 2) {
        s.len() as int
    } else {
        after_last_colons(s.drop_last())
    }
}

/// What follows the last `::` of a path of names; the whole where there is
/// none.
pub open spec fn simple_name(full_name: Seq<char>) -> Seq<char> {
    full_name.subrange(after_last_colons(full_name), full_name.len() as int)
}

/// `after_last_colons` lies within the sequence.
pub proof fn lemma_after_last_colons_bounds(s: Seq<char>)
    ensures
        0 <= after_last_colons(s) <= s.len(),
    decreases s.len(),
{
    if s.len() >= 2 && !colons_at(s, s.len() - 2) {
        lemma_after_last_colons_bounds(s.drop_last());
    }
}

/// The last segment of a path of names such as `a::b::Name`.
pub fn simple_name_of(full_name: &str) -> (name: &str)
    ensures
        name@ == simple_name(full_name@),
{
    let n: usize = full_name.unicode_len();
    let mut i: usize = n;
    proof {
        assert(full_name@.subrange(0, n as int) =~= full_name@);
        lemma_after_last_colons_bounds(full_name@);
    }
    while i >= 2
        invariant
            i <= n,
            n == full_name@.len(),
            after_last_colons(full_name@) == after_last_colons(full_name@.subrange(0, i as int)),
            0 <= after_last_colons(full_name@) <= n,
        decreases i,
    {
        let ghost prefix = full_name@.subrange(0, i as int);
        if full_name.get_char(i - 2) == ':' && full_name.get_char(i - 1) == ':' {
            assert(colons_at(prefix, prefix.len() - 2));
            return full_name.substring_char(i, n);
        }
        proof {
            assert(!colons_at(prefix, prefix.len() - 2));
            assert(prefix.drop_last() =~= full_name@.subrange(0, i - 1));
        }
        i = i - 1;
    }
    assert(after_last_colons(full_name@.subrange(0, i as int)) == 0);
    full_name.substring_char(0, n)
}

} // verus!
