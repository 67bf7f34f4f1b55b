//! Blob identifiers, recipient addressing, request-parameter assembly,
//! blob upload framing, and classification of response status codes.

use vstd::prelude::*;

use crate::errors::ApiError;
use crate::hex::{
    all_hex, chars_to_string, decode_hex, encode_hex, hex_decoded, hex_digit_char, hex_of,
};

verus! {

/// Byte ceiling for the text of a simple (non-end-to-end) message.
pub const MAX_SIMPLE_TEXT_BYTES: usize = 3500;

/// The byte length of a text once encoded for the wire (UTF-8).
pub open spec fn message_byte_len(s: Seq<char>) -> nat {
    vstd::utf8::encode_utf8(s).len()
}

/// A valid textual blob ID: exactly 32 hex characters, either case.
pub open spec fn is_blob_id_text(s: Seq<char>) -> bool {
    s.len() == 32 && all_hex(s)
}

/// A blob ID: exactly 16 bytes, written as 32 hexadecimal characters.
#[derive(Debug, Clone)]
pub struct BlobId(pub [u8; 16]);

impl View for BlobId {
    type V = Seq<u8>;

    open spec fn view(&self) -> Seq<u8> {
        self.0@
    }
}

impl PartialEq for BlobId {
    fn eq(&self, other: &BlobId) -> (r: bool) {
        let mut i: usize = 0;
        while i < 16
            invariant
                i <= 16,
                forall|j: int| 0 <= j < i ==> self@[j] == other@[j],
            decreases 16 - i,
        {
            if self.0[i] != other.0[i] {
                return false;
            }
            i = i + 1;
        }
        proof {
            assert(self@ =~= other@);
        }
        true
    }
}

impl Eq for BlobId {}

impl vstd::std_specs::cmp::PartialEqSpecImpl for BlobId {
    open spec fn obeys_eq_spec() -> bool {
        true
    }

    open spec fn eq_spec(&self, other: &BlobId) -> bool {
        self@ == other@
    }
}

impl BlobId {
    /// Create a new BlobId from its raw bytes.
    pub fn new(id: [u8; 16]) -> (r: Self)
        ensures
            r@ == id@,
    {
        BlobId(id)
    }

    /// Parse a BlobId from a 32-character hexadecimal string. Either case
    /// is accepted; anything else — a different length, a character
    /// outside the hex alphabet, surrounding whitespace — is rejected.
    pub fn from_str(id: &str) -> (r: Result<Self, ApiError>)
        ensures
            r is Ok <==> is_blob_id_text(id@),
            r matches Ok(b) ==> b@ == hex_decoded(id@),
            r matches Err(e) ==> e == ApiError::BadBlobId,
    {
        let bytes = match decode_hex(id) {
            Some(v) => v,
            None => {
                return Err(ApiError::BadBlobId);
            },
        };
        if bytes.len() != 16 {
            return Err(ApiError::BadBlobId);
        }
        let arr: [u8; 16] = [
            bytes[0],
            bytes[1],
            bytes[2],
            bytes[3],
            bytes[4],
            bytes[5],
            bytes[6],
            bytes[7],
            bytes[8],
            bytes[9],
            bytes[10],
            bytes[11],
            bytes[12],
            bytes[13],
            bytes[14],
            bytes[15],
        ];
        assert(arr@ =~= bytes@);
        Ok(BlobId(arr))
    }

    /// The canonical text form: exactly 32 lowercase hex characters.
    pub fn to_text(&self) -> (r: String)
        ensures
            r@ == hex_of(self@),
    {
        encode_hex(self.0.as_slice())
    }
}

/// Law: parsing the text form of any blob ID gives back exactly its bytes.
pub proof fn lemma_blob_id_round_trip(bytes: Seq<u8>)
    requires
        bytes.len() == 16,
    ensures
        is_blob_id_text(hex_of(bytes)),
        hex_decoded(hex_of(bytes)) == bytes,
{
    crate::hex::lemma_hex_round_trip(bytes);
}

/// The decimal digits of a non-negative number, most significant first.
pub open spec fn dec_of(n: int) -> Seq<char>
    decreases n,
{
    if 0 <= n < 10 {
        seq![hex_digit_char(n as u8)]
    } else if n >= 10 {
        dec_of(n / 10) + seq![hex_digit_char((n % 10) as u8)]
    } else {
        Seq::empty()
    }
}

/// The status text carried by an unclassified response error.
pub open spec fn status_code_text(n: int) -> Seq<char> {
    "Bad response status code: "@ + dec_of(n)
}

/// Push the decimal digits of `n` onto `out`.
fn push_decimal(n: u16, out: &mut Vec<char>)
    ensures
        final(out)@ == old(out)@ + dec_of(n as int),
    decreases n,
{
    if n >= 10 {
        push_decimal(n / 10, out);
    }
    out.push(crate::hex::hex_digit((n % 10) as u8));
    assert(final(out)@ =~= old(out)@ + dec_of(n as int));
}

/// The status text for an unclassified response code.
fn status_text(n: u16) -> (r: String)
    ensures
        r@ == status_code_text(n as int),
{
    let mut digits: Vec<char> = Vec::new();
    push_decimal(n, &mut digits);
    let tail = chars_to_string(&digits);
    String::from_str("Bad response status code: ").concat(tail.as_str())
}

/// Map an HTTP response status code to an ApiError if it isn't 200.
///
/// A 400 means different things on different endpoints, so its meaning is
/// supplied by the caller; without one, 400 is left unclassified.
pub fn map_response_code(status: u16, bad_request_meaning: Option<ApiError>) -> (r: Result<
    (),
    ApiError,
>)
    ensures
        r is Ok <==> status == 200,
        status == 401 ==> (r matches Err(e) && e == ApiError::BadCredentials),
        status == 402 ==> (r matches Err(e) && e == ApiError::NoCredits),
        status == 404 ==> (r matches Err(e) && e == ApiError::IdNotFound),
        status == 413 ==> (r matches Err(e) && e == ApiError::MessageTooLong),
        status == 500 ==> (r matches Err(e) && e == ApiError::ServerError),
        status == 400 ==> (match bad_request_meaning {
            Some(m) => r == Err::<(), ApiError>(m),
            None => r matches Err(e) && e matches ApiError::Other(s) && s@ == status_code_text(
                400,
            ),
        }),
        !(status == 200 || status == 400 || status == 401 || status == 402 || status == 404
            || status == 413 || status == 500) ==> (r matches Err(e) && e matches ApiError::Other(
            s,
        ) && s@ == status_code_text(status as int)),
{
    match status {
        200 => Ok(()),
        400 => match bad_request_meaning {
            Some(error) => Err(error),
            None => Err(ApiError::Other(status_text(400))),
        },
        401 => Err(ApiError::BadCredentials),
        402 => Err(ApiError::NoCredits),
        404 => Err(ApiError::IdNotFound),
        413 => Err(ApiError::MessageTooLong),
        500 => Err(ApiError::ServerError),
        _ => Err(ApiError::Other(status_text(status))),
    }
}

/// Different ways to address a message recipient in basic mode.
#[derive(Debug)]
pub enum Recipient {
    /// Recipient identity (8 characters).
    Id(String),
    /// Recipient phone number (E.164), without leading +.
    Phone(String),
    /// Recipient e-mail address.
    Email(String),
}

/// The request-parameter key under which a recipient is sent.
pub open spec fn recipient_key(r: &Recipient) -> Seq<char> {
    match r {
        Recipient::Id(_) => "to"@,
        Recipient::Phone(_) => "phone"@,
        Recipient::Email(_) => "email"@,
    }
}

/// The text a recipient was built from.
pub open spec fn recipient_value(r: &Recipient) -> Seq<char> {
    match r {
        Recipient::Id(s) => s@,
        Recipient::Phone(s) => s@,
        Recipient::Email(s) => s@,
    }
}

impl Recipient {
    pub fn new_id(id: &str) -> (r: Self)
        ensures
            r matches Recipient::Id(s) && s@ == id@,
    {
        Recipient::Id(String::from_str(id))
    }

    pub fn new_phone(phone: &str) -> (r: Self)
        ensures
            r matches Recipient::Phone(s) && s@ == phone@,
    {
        Recipient::Phone(String::from_str(phone))
    }

    pub fn new_email(email: &str) -> (r: Self)
        ensures
            r matches Recipient::Email(s) && s@ == email@,
    {
        Recipient::Email(String::from_str(email))
    }
}

/// The basis on which a counterpart identity is looked up: a phone
/// number, an e-mail address, or a salted hash of either. Exactly one
/// variant is active; no combination is legal. Pure data — semantic
/// validation of the carried text is left to the transport boundary and
/// the server.
#[derive(Debug)]
pub enum LookupCriterion {
    /// Phone number (E.164), without leading +.
    Phone(String),
    /// Salted hash of a phone number.
    PhoneHash(String),
    /// E-mail address.
    Email(String),
    /// Salted hash of an e-mail address.
    EmailHash(String),
}

impl LookupCriterion {
    pub fn new_phone(phone: &str) -> (r: Self)
        ensures
            r matches LookupCriterion::Phone(s) && s@ == phone@,
    {
        LookupCriterion::Phone(String::from_str(phone))
    }

    pub fn new_phone_hash(phone_hash: &str) -> (r: Self)
        ensures
            r matches LookupCriterion::PhoneHash(s) && s@ == phone_hash@,
    {
        LookupCriterion::PhoneHash(String::from_str(phone_hash))
    }

    pub fn new_email(email: &str) -> (r: Self)
        ensures
            r matches LookupCriterion::Email(s) && s@ == email@,
    {
        LookupCriterion::Email(String::from_str(email))
    }

    pub fn new_email_hash(email_hash: &str) -> (r: Self)
        ensures
            r matches LookupCriterion::EmailHash(s) && s@ == email_hash@,
    {
        LookupCriterion::EmailHash(String::from_str(email_hash))
    }
}

/// Check the byte ceiling on a simple message's text before anything is
/// sent: the limit is on encoded bytes, not characters.
pub fn validate_text_length(text: &str) -> (r: Result<(), ApiError>)
    requires
        message_byte_len(text@) <= usize::MAX,
    ensures
        r is Ok <==> message_byte_len(text@) <= MAX_SIMPLE_TEXT_BYTES,
        r matches Err(e) ==> e == ApiError::MessageTooLong,
{
    if text.len() > MAX_SIMPLE_TEXT_BYTES {
        Err(ApiError::MessageTooLong)
    } else {
        Ok(())
    }
}

/// The parameters of a simple send: `from`, `text`, `secret`, and exactly
/// one recipient key, in that order.
pub open spec fn simple_params_match(
    params: Seq<(String, String)>,
    from: Seq<char>,
    to: &Recipient,
    secret: Seq<char>,
    text: Seq<char>,
) -> bool {
    &&& params.len() == 4
    &&& params[0].0@ == "from"@ && params[0].1@ == from
    &&& params[1].0@ == "text"@ && params[1].1@ == text
    &&& params[2].0@ == "secret"@ && params[2].1@ == secret
    &&& params[3].0@ == recipient_key(to) && params[3].1@ == recipient_value(to)
}

/// Assemble the form parameters of a simple-mode send, after the length
/// check; a text over the byte ceiling is rejected before any transport
/// work could start.
pub fn prepare_send_simple(from: &str, to: &Recipient, secret: &str, text: &str) -> (r: Result<
    Vec<(String, String)>,
    ApiError,
>)
    requires
        message_byte_len(text@) <= usize::MAX,
    ensures
        r is Ok <==> message_byte_len(text@) <= MAX_SIMPLE_TEXT_BYTES,
        r matches Ok(params) ==> simple_params_match(params@, from@, to, secret@, text@),
        r matches Err(e) ==> e == ApiError::MessageTooLong,
{
    validate_text_length(text)?;
    let mut params: Vec<(String, String)> = Vec::new();
    params.push((String::from_str("from"), String::from_str(from)));
    params.push((String::from_str("text"), String::from_str(text)));
    params.push((String::from_str("secret"), String::from_str(secret)));
    match to {
        Recipient::Id(id) => params.push((String::from_str("to"), id.clone())),
        Recipient::Phone(phone) => params.push((String::from_str("phone"), phone.clone())),
        Recipient::Email(email) => params.push((String::from_str("email"), email.clone())),
    }
    Ok(params)
}

/// A parameter key that an end-to-end send always sets itself: a
/// same-named entry among the additional parameters is overridden.
pub open spec fn is_reserved_e2e_key(k: Seq<char>) -> bool {
    k == "from"@ || k == "to"@ || k == "secret"@ || k == "nonce"@ || k == "box"@
}

/// The additional parameters that survive an end-to-end send: those whose
/// key is not one the send sets itself, in their original order.
pub open spec fn retained_params(additional: Seq<(String, String)>) -> Seq<(String, String)>
    decreases additional.len(),
{
    if additional.len() == 0 {
        Seq::empty()
    } else {
        let rest = retained_params(additional.drop_last());
        if is_reserved_e2e_key(additional.last().0@) {
            rest
        } else {
            rest.push(additional.last())
        }
    }
}

/// The parameters of an end-to-end send: the surviving additional
/// parameters first, then `from`, `to`, `secret`, and the nonce and box
/// as lowercase hex.
pub open spec fn e2e_params_match(
    params: Seq<(String, String)>,
    additional: Seq<(String, String)>,
    from: Seq<char>,
    to: Seq<char>,
    secret: Seq<char>,
    nonce: Seq<u8>,
    ciphertext: Seq<u8>,
) -> bool {
    let n = additional.len() as int;
    &&& params.len() == n + 5
    &&& params.subrange(0, n) == additional
    &&& params[n].0@ == "from"@ && params[n].1@ == from
    &&& params[n + 1].0@ == "to"@ && params[n + 1].1@ == to
    &&& params[n + 2].0@ == "secret"@ && params[n + 2].1@ == secret
    &&& params[n + 3].0@ == "nonce"@ && params[n + 3].1@ == hex_of(nonce)
    &&& params[n + 4].0@ == "box"@ && params[n + 4].1@ == hex_of(ciphertext)
}

/// Is this key one of the five that an end-to-end send sets itself?
fn is_reserved_e2e_key_exec(key: &String) -> (r: bool)
    ensures
        r == is_reserved_e2e_key(key@),
{
    *key == String::from_str("from") || *key == String::from_str("to") || *key == String::from_str(
        "secret",
    ) || *key == String::from_str("nonce") || *key == String::from_str("box")
}

/// Assemble the form parameters of an end-to-end send: the nonce and the
/// ciphertext travel as separate lowercase-hex fields. The five keys the
/// send sets itself override any same-named additional parameter; every
/// other additional parameter passes through unchanged.
pub fn prepare_send_e2e(
    from: &str,
    to: &str,
    secret: &str,
    nonce: &[u8],
    ciphertext: &[u8],
    additional_params: Option<Vec<(String, String)>>,
) -> (r: Vec<(String, String)>)
    requires
        nonce@.len() * 2 <= usize::MAX,
        ciphertext@.len() * 2 <= usize::MAX,
    ensures
        e2e_params_match(
            r@,
            retained_params(
                match additional_params {
                    Some(p) => p@,
                    None => Seq::empty(),
                },
            ),
            from@,
            to@,
            secret@,
            nonce@,
            ciphertext@,
        ),
{
    let additional: Vec<(String, String)> = match additional_params {
        Some(p) => p,
        None => Vec::new(),
    };
    let mut params: Vec<(String, String)> = Vec::new();
    let mut i: usize = 0;
    while i < additional.len()
        invariant
            i <= additional@.len(),
            params@ == retained_params(additional@.subrange(0, i as int)),
        decreases additional@.len() - i,
    {
        let pair = &additional[i];
        if !is_reserved_e2e_key_exec(&pair.0) {
            params.push((pair.0.clone(), pair.1.clone()));
        }
        i = i + 1;
        proof {
            let taken = additional@.subrange(0, i as int);
            assert(taken.drop_last() =~= additional@.subrange(0, i - 1));
            assert(taken.last() == additional@[i - 1]);
        }
    }
    proof {
        assert(additional@.subrange(0, additional@.len() as int) =~= additional@);
    }
    let ghost add = params@;
    params.push((String::from_str("from"), String::from_str(from)));
    params.push((String::from_str("to"), String::from_str(to)));
    params.push((String::from_str("secret"), String::from_str(secret)));
    params.push((String::from_str("nonce"), encode_hex(nonce)));
    params.push((String::from_str("box"), encode_hex(ciphertext)));
    proof {
        assert(params@.subrange(0, add.len() as int) =~= add);
    }
    params
}

/// The bytes that precede the ciphertext in a blob upload body: the
/// opening boundary line and the part headers of the single `blob` part.
pub open spec fn upload_body_prefix() -> Seq<u8> {
    vstd::utf8::encode_utf8(
        "--3ma-d84f64f5-a138-4b0a-9e25-339257990c81-3ma\r\nContent-Disposition: form-data; name=\"blob\"\r\nContent-Type: application/octet-stream\r\n\r\n"@,
    )
}

/// The bytes that follow the ciphertext in a blob upload body: the
/// closing boundary line.
pub open spec fn upload_body_suffix() -> Seq<u8> {
    vstd::utf8::encode_utf8("\r\n--3ma-d84f64f5-a138-4b0a-9e25-339257990c81-3ma--\r\n"@)
}

/// Append every byte of a slice to a vector.
fn push_all(v: &mut Vec<u8>, s: &[u8])
    ensures
        final(v)@ == old(v)@ + s@,
{
    let mut i: usize = 0;
    while i < s.len()
        invariant
            i <= s@.len(),
            v@ =~= old(v)@ + s@.subrange(0, i as int),
        decreases s@.len() - i,
    {
        v.push(s[i]);
        i = i + 1;
        assert(v@ =~= old(v)@ + s@.subrange(0, i as int));
    }
    assert(v@ =~= old(v)@ + s@);
}

/// Build the multipart body of a blob upload: the raw ciphertext bytes as
/// a single octet-stream part named `blob`, wrapped in a fixed boundary.
/// The caller attaches the content-type header naming the same boundary.
pub fn build_upload_body(ciphertext: &[u8]) -> (r: Vec<u8>)
    ensures
        r@ == upload_body_prefix() + ciphertext@ + upload_body_suffix(),
{
    let mut body =
        "--3ma-d84f64f5-a138-4b0a-9e25-339257990c81-3ma\r\nContent-Disposition: form-data; name=\"blob\"\r\nContent-Type: application/octet-stream\r\n\r\n".as_bytes_vec();
    push_all(&mut body, ciphertext);
    let mut tail = "\r\n--3ma-d84f64f5-a138-4b0a-9e25-339257990c81-3ma--\r\n".as_bytes_vec();
    body.append(&mut tail);
    body
}

/// The content-type header value that matches `build_upload_body`.
pub fn upload_content_type() -> (r: String)
    ensures
        r@ == "multipart/form-data; boundary=3ma-d84f64f5-a138-4b0a-9e25-339257990c81-3ma"@,
{
    String::from_str("multipart/form-data; boundary=3ma-d84f64f5-a138-4b0a-9e25-339257990c81-3ma")
}

/// A whitespace character that is trimmed off a blob-upload response
/// body: the Unicode `White_Space` set.
pub open spec fn is_space(c: char) -> bool {
    let u = c as u32;
    (9 <= u && u <= 13) || u == 32 || u == 0x85 || u == 0xa0 || u == 0x1680 || (0x2000 <= u && u
        <= 0x200a) || u == 0x2028 || u == 0x2029 || u == 0x202f || u == 0x205f || u == 0x3000
}

/// Is this character trimmed off a blob-upload response body?
fn is_space_exec(c: char) -> (r: bool)
    ensures
        r == is_space(c),
{
    let u = c as u32;
    (9 <= u && u <= 13) || u == 32 || u == 0x85 || u == 0xa0 || u == 0x1680 || (0x2000 <= u && u
        <= 0x200a) || u == 0x2028 || u == 0x2029 || u == 0x202f || u == 0x205f || u == 0x3000
}

/// The sequence with its leading whitespace removed.
pub open spec fn ltrimmed(s: Seq<char>) -> Seq<char>
    decreases s.len(),
{
    if s.len() > 0 && is_space(s[0]) {
        ltrimmed(s.drop_first())
    } else {
        s
    }
}

/// The sequence with its trailing whitespace removed.
pub open spec fn rtrimmed(s: Seq<char>) -> Seq<char>
    decreases s.len(),
{
    if s.len() > 0 && is_space(s[s.len() - 1]) {
        rtrimmed(s.drop_last())
    } else {
        s
    }
}

/// The sequence with surrounding whitespace removed, and nothing more.
pub open spec fn trimmed(s: Seq<char>) -> Seq<char> {
    rtrimmed(ltrimmed(s))
}

proof fn lemma_ltrimmed_skip(s: Seq<char>, k: int)
    requires
        0 <= k <= s.len(),
        forall|j: int| 0 <= j < k ==> is_space(#[trigger] s[j]),
        k == s.len() || !is_space(s[k]),
    ensures
        ltrimmed(s) == s.skip(k),
    decreases k,
{
    if k == 0 {
        assert(s.skip(0) =~= s);
    } else {
        lemma_ltrimmed_skip(s.drop_first(), k - 1);
        assert(s.drop_first().skip(k - 1) =~= s.skip(k));
    }
}

proof fn lemma_rtrimmed_take(s: Seq<char>, k: int)
    requires
        0 <= k <= s.len(),
        forall|j: int| k <= j < s.len() ==> is_space(#[trigger] s[j]),
        k == 0 || !is_space(s[k - 1]),
    ensures
        rtrimmed(s) == s.take(k),
    decreases s.len() - k,
{
    if k == s.len() {
        assert(s.take(k) =~= s);
    } else {
        lemma_rtrimmed_take(s.drop_last(), k);
        assert(s.drop_last().take(k) =~= s.take(k));
    }
}

/// First index at or after `i` holding a non-whitespace character.
fn first_non_space(s: &str, i: usize, n: usize) -> (r: usize)
    requires
        n == s@.len(),
        i <= n,
        forall|j: int| 0 <= j < i ==> is_space(#[trigger] s@[j]),
    ensures
        i <= r <= n,
        forall|j: int| 0 <= j < r ==> is_space(#[trigger] s@[j]),
        r == n || !is_space(s@[r as int]),
    decreases n - i,
{
    if i < n {
        if is_space_exec(s.get_char(i)) {
            first_non_space(s, i + 1, n)
        } else {
            i
        }
    } else {
        i
    }
}

/// One past the last non-whitespace character before `hi`, scanning down
/// to `lo`.
fn last_non_space(s: &str, lo: usize, hi: usize) -> (r: usize)
    requires
        lo <= hi <= s@.len(),
        forall|j: int| hi <= j < s@.len() ==> is_space(#[trigger] s@[j]),
    ensures
        lo <= r <= hi,
        forall|j: int| r <= j < s@.len() ==> is_space(#[trigger] s@[j]),
        r == lo || !is_space(s@[r - 1]),
    decreases hi - lo,
{
    if hi > lo {
        if is_space_exec(s.get_char(hi - 1)) {
            last_non_space(s, lo, hi - 1)
        } else {
            hi
        }
    } else {
        lo
    }
}

/// Extract the blob ID from a raw upload response body: no more than
/// surrounding whitespace is trimmed, and the rest must be a valid
/// 32-character hexadecimal blob ID.
pub fn parse_upload_response(body: &str) -> (r: Result<BlobId, ApiError>)
    ensures
        r is Ok <==> is_blob_id_text(trimmed(body@)),
        r matches Ok(b) ==> b@ == hex_decoded(trimmed(body@)),
        r matches Err(e) ==> e == ApiError::BadBlobId,
{
    let n = body.unicode_len();
    let lo = first_non_space(body, 0, n);
    let hi = last_non_space(body, lo, n);
    proof {
        lemma_ltrimmed_skip(body@, lo as int);
        lemma_rtrimmed_take(body@.skip(lo as int), hi - lo);
        assert(body@.skip(lo as int).take(hi - lo) =~= body@.subrange(lo as int, hi as int));
    }
    let core = body.substring_char(lo, hi);
    BlobId::from_str(core)
}

/// Extract the blob ID from the body of an upload response whose status
/// was otherwise good: a body that is not clean hex is a malformed
/// identifier, surfaced to the caller as `BadBlob`.
pub fn blob_id_from_ok_response(body: &str) -> (r: Result<BlobId, ApiError>)
    ensures
        r is Ok <==> is_blob_id_text(trimmed(body@)),
        r matches Ok(b) ==> b@ == hex_decoded(trimmed(body@)),
        r matches Err(e) ==> e == ApiError::BadBlob,
{
    match parse_upload_response(body) {
        Ok(id) => Ok(id),
        Err(_) => Err(ApiError::BadBlob),
    }
}

} // verus!
