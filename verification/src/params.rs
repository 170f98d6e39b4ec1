//! Pagination parameters for the list request and their encoding as a
//! query string.
//!
//! A `QueryParams` value holds an optional page size, validated to lie in
//! `[0, 1000]` when it is supplied, and an optional page token, an opaque
//! continuation cursor taken from a previous response. Absent fields are
//! omitted entirely from the encoded query string; a present token is
//! form-urlencoded byte for byte, so that the server's percent-decoding
//! recovers exactly the token that was stored.

use vstd::prelude::*;
use vstd::string::StrSliceExecFns;
use vstd::string::StringExecFns;
use vstd::string::StringSliceAdditionalSpecFns;
use vstd::utf8::encode_utf8;

verus! {

/// The largest page size the endpoint accepts.
pub const MAX_PAGE_SIZE: u16 = 1000;

/// The decimal digit `d` as a one-character sequence.
pub open spec fn dec_digit(d: nat) -> Seq<char> {
    if d == 0 {
        "0"@
    } else if d == 1 {
        "1"@
    } else if d == 2 {
        "2"@
    } else if d == 3 {
        "3"@
    } else if d == 4 {
        "4"@
    } else if d == 5 {
        "5"@
    } else if d == 6 {
        "6"@
    } else if d == 7 {
        "7"@
    } else if d == 8 {
        "8"@
    } else {
        "9"@
    }
}

/// The usual decimal rendering of `n`: no sign, no leading zeros,
/// a single `0` for zero.
pub open spec fn dec_of(n: nat) -> Seq<char>
    decreases n,
{
    if n < 10 {
        dec_digit(n)
    } else {
        dec_of(n / 10) + dec_digit(n % 10)
    }
}

/// The view of an optional string.
pub open spec fn token_view(t: Option<String>) -> Option<Seq<char>> {
    match t {
        Option::Some(s) => Option::Some(s@),
        Option::None => Option::None,
    }
}

/// The digit `d` as an upper-case hexadecimal character.
pub open spec fn hex_upper(d: u8) -> char {
    if d == 0 {
        '0'
    } else if d == 1 {
        '1'
    } else if d == 2 {
        '2'
    } else if d == 3 {
        '3'
    } else if d == 4 {
        '4'
    } else if d == 5 {
        '5'
    } else if d == 6 {
        '6'
    } else if d == 7 {
        '7'
    } else if d == 8 {
        '8'
    } else if d == 9 {
        '9'
    } else if d == 10 {
        'A'
    } else if d == 11 {
        'B'
    } else if d == 12 {
        'C'
    } else if d == 13 {
        'D'
    } else if d == 14 {
        'E'
    } else {
        'F'
    }
}

/// The bytes that form-urlencoding passes through unchanged:
/// `A`-`Z`, `a`-`z`, `0`-`9`, `*`, `-`, `.` and `_`.
pub open spec fn is_form_unreserved(b: u8) -> bool {
    (48 <= b && b <= 57) || (65 <= b && b <= 90) || (97 <= b && b <= 122) || b == 42 || b == 45
        || b == 46 || b == 95
}

/// The form-urlencoding of the single byte `b`: unreserved bytes stand
/// for themselves, a space becomes `+`, and every other byte becomes `%`
/// followed by two upper-case hexadecimal digits.
pub open spec fn urlencoded_byte(b: u8) -> Seq<char> {
    if b == 32 {
        seq!['+']
    } else if is_form_unreserved(b) {
        seq![b as char]
    } else {
        seq!['%', hex_upper(b / 16), hex_upper(b % 16)]
    }
}

/// The form-urlencoding of a byte sequence, byte by byte.
pub open spec fn urlencoded(bs: Seq<u8>) -> Seq<char>
    decreases bs.len(),
{
    if bs.len() == 0 {
        Seq::<char>::empty()
    } else {
        urlencoded_byte(bs.first()) + urlencoded(bs.drop_first())
    }
}

proof fn lemma_urlencoded_push(bs: Seq<u8>, b: u8)
    ensures
        urlencoded(bs.push(b)) == urlencoded(bs) + urlencoded_byte(b),
    decreases bs.len(),
{
    if bs.len() == 0 {
        assert(bs.push(b).drop_first() =~= Seq::<u8>::empty());
        assert(urlencoded(Seq::<u8>::empty()) =~= Seq::<char>::empty());
        assert(urlencoded(bs.push(b)) =~= urlencoded_byte(b) + Seq::<char>::empty());
        assert(urlencoded(bs.push(b)) =~= urlencoded(bs) + urlencoded_byte(b));
    } else {
        assert(bs.push(b).drop_first() =~= bs.drop_first().push(b));
        lemma_urlencoded_push(bs.drop_first(), b);
        assert(urlencoded(bs.push(b)) =~= urlencoded(bs) + urlencoded_byte(b));
    }
}

/// The value of an upper-case hexadecimal digit character.
pub open spec fn hex_val(c: char) -> u8 {
    if c == '0' {
        0
    } else if c == '1' {
        1
    } else if c == '2' {
        2
    } else if c == '3' {
        3
    } else if c == '4' {
        4
    } else if c == '5' {
        5
    } else if c == '6' {
        6
    } else if c == '7' {
        7
    } else if c == '8' {
        8
    } else if c == '9' {
        9
    } else if c == 'A' {
        10
    } else if c == 'B' {
        11
    } else if c == 'C' {
        12
    } else if c == 'D' {
        13
    } else if c == 'E' {
        14
    } else if c == 'F' {
        15
    } else {
        0
    }
}

/// Percent-decoding as a server applies it to a form-urlencoded value:
/// `+` becomes a space, `%` followed by two hexadecimal digits becomes
/// that byte, and any other character stands for its own code.
pub open spec fn urldecoded(s: Seq<char>) -> Seq<u8>
    decreases s.len(),
{
    if s.len() == 0 {
        Seq::<u8>::empty()
    } else if s.first() == '+' {
        seq![32u8] + urldecoded(s.drop_first())
    } else if s.first() == '%' && s.len() >= 3 {
        seq![((hex_val(s[1]) * 16 + hex_val(s[2])) as u8)] + urldecoded(s.skip(3))
    } else {
        seq![(s.first() as u8)] + urldecoded(s.drop_first())
    }
}

/// Form-urlencoding round-trips: percent-decoding the encoding of any
/// byte sequence gives the bytes back unchanged. In particular, the page
/// token's value in the query string decodes to the stored token byte
/// for byte.
pub proof fn lemma_urlencoded_roundtrip(bs: Seq<u8>)
    ensures
        urldecoded(urlencoded(bs)) == bs,
    decreases bs.len(),
{
    if bs.len() == 0 {
    } else {
        let b = bs.first();
        let rest = urlencoded(bs.drop_first());
        let enc = urlencoded(bs);
        lemma_urlencoded_roundtrip(bs.drop_first());
        assert(enc == urlencoded_byte(b) + rest);
        if b == 32 {
            assert(enc.first() == '+');
            assert(enc.drop_first() =~= rest);
            assert(urldecoded(enc) =~= bs);
        } else if is_form_unreserved(b) {
            let c = b as char;
            assert(c != '+');
            assert(c != '%');
            assert(enc.first() == c);
            assert(enc.drop_first() =~= rest);
            assert(c as u8 == b);
            assert(urldecoded(enc) =~= bs);
        } else {
            assert(enc.first() == '%');
            assert(enc.len() >= 3);
            assert(enc[1] == hex_upper(b / 16));
            assert(enc[2] == hex_upper(b % 16));
            assert(hex_val(hex_upper(b / 16)) == b / 16);
            assert(hex_val(hex_upper(b % 16)) == b % 16);
            assert((b / 16) * 16 + (b % 16) == b);
            assert(enc.skip(3) =~= rest);
            assert(urldecoded(enc) =~= bs);
        }
    }
}

/// The query string that a parameter pair encodes to: present fields only,
/// `pageSize` before `pageToken`, fields joined by `&`, no leading `?`.
/// The token value is the form-urlencoding of the token's UTF-8 bytes, so
/// no byte of it can act as a separator, and percent-decoding the value
/// gives the token back byte for byte.
pub open spec fn query_string_of(page_size: Option<u16>, page_token: Option<Seq<char>>) -> Seq<
    char,
> {
    match (page_size, page_token) {
        (Option::None, Option::None) => Seq::<char>::empty(),
        (Option::Some(n), Option::None) => "pageSize="@ + dec_of(n as nat),
        (Option::None, Option::Some(t)) => "pageToken="@ + urlencoded(encode_utf8(t)),
        (Option::Some(n), Option::Some(t)) => "pageSize="@ + dec_of(n as nat) + "&pageToken="@
            + urlencoded(encode_utf8(t)),
    }
}

/// The encoded query string is empty exactly when no field is set: a
/// present field always contributes its key, and an absent field
/// contributes nothing, not even a `?` or a stray `&`.
pub proof fn lemma_query_string_empty_iff_no_fields(
    page_size: Option<u16>,
    page_token: Option<Seq<char>>,
)
    ensures
        query_string_of(page_size, page_token).len() == 0 <==> (page_size is None
            && page_token is None),
{
    reveal_strlit("pageSize=");
    reveal_strlit("pageToken=");
}

/// Appends the single decimal digit `d` to `out`.
fn append_digit(out: &mut String, d: u16)
    requires
        d < 10,
    ensures
        final(out)@ == old(out)@ + dec_digit(d as nat),
{
    if d == 0 {
        out.append("0");
    } else if d == 1 {
        out.append("1");
    } else if d == 2 {
        out.append("2");
    } else if d == 3 {
        out.append("3");
    } else if d == 4 {
        out.append("4");
    } else if d == 5 {
        out.append("5");
    } else if d == 6 {
        out.append("6");
    } else if d == 7 {
        out.append("7");
    } else if d == 8 {
        out.append("8");
    } else {
        out.append("9");
    }
}

/// Relies on `String::push`: appends the given character to the end of
/// the string.
#[verifier::external_body]
fn push_char(out: &mut String, c: char)
    ensures
        final(out)@ == old(out)@ + seq![c],
{
    out.push(c);
}

/// The digit `d` as an upper-case hexadecimal character.
fn hex_upper_char(d: u8) -> (c: char)
    requires
        d < 16,
    ensures
        c == hex_upper(d),
{
    if d == 0 {
        '0'
    } else if d == 1 {
        '1'
    } else if d == 2 {
        '2'
    } else if d == 3 {
        '3'
    } else if d == 4 {
        '4'
    } else if d == 5 {
        '5'
    } else if d == 6 {
        '6'
    } else if d == 7 {
        '7'
    } else if d == 8 {
        '8'
    } else if d == 9 {
        '9'
    } else if d == 10 {
        'A'
    } else if d == 11 {
        'B'
    } else if d == 12 {
        'C'
    } else if d == 13 {
        'D'
    } else if d == 14 {
        'E'
    } else {
        'F'
    }
}

/// Appends the form-urlencoding of `token`'s UTF-8 bytes to `out`.
fn append_urlencoded(out: &mut String, token: &str)
    ensures
        final(out)@ == old(out)@ + urlencoded(encode_utf8(token@)),
{
    let bytes: Vec<u8> = token.as_bytes_vec();
    let n: usize = bytes.len();
    let mut i: usize = 0;
    while i < n
        invariant
            i <= n,
            n == bytes@.len(),
            bytes@ == encode_utf8(token@),
            out@ == old(out)@ + urlencoded(bytes@.take(i as int)),
        decreases n - i,
    {
        let b = bytes[i];
        if b == 32 {
            push_char(out, '+');
        } else if (48 <= b && b <= 57) || (65 <= b && b <= 90) || (97 <= b && b <= 122) || b == 42
            || b == 45 || b == 46 || b == 95 {
            push_char(out, b as char);
        } else {
            push_char(out, '%');
            let hi = hex_upper_char(b / 16);
            push_char(out, hi);
            let lo = hex_upper_char(b % 16);
            push_char(out, lo);
        }
        proof {
            assert(bytes@.take(i as int + 1) =~= bytes@.take(i as int).push(bytes@[i as int]));
            lemma_urlencoded_push(bytes@.take(i as int), bytes@[i as int]);
            assert(out@ =~= old(out)@ + urlencoded(bytes@.take(i as int + 1)));
        }
        i = i + 1;
    }
    proof {
        assert(bytes@.take(n as int) =~= bytes@);
    }
}

/// Appends the decimal rendering of `n` to `out`.
fn append_dec(out: &mut String, n: u16)
    ensures
        final(out)@ == old(out)@ + dec_of(n as nat),
    decreases n,
{
    if n < 10 {
        append_digit(out, n);
    } else {
        append_dec(out, n / 10);
        append_digit(out, n % 10);
        proof {
            assert(out@ =~= old(out)@ + dec_of(n as nat));
        }
    }
}

/// The rejection raised when a supplied page size falls outside `[0, 1000]`.
/// It carries the offending value; nothing is clamped.
#[derive(Debug, Clone, Copy, PartialEq, Eq, Structural)]
pub enum QueryParamsError {
    PageSizeOutOfRange { page_size: u16 },
}

/// Pagination parameters: an optional page size in `[0, 1000]` and an
/// optional opaque page token. Immutable once constructed.
#[derive(Debug)]
pub struct QueryParams {
    page_size: Option<u16>,
    page_token: Option<String>,
}

impl QueryParams {
    /// The page size held, if one was supplied.
    pub closed spec fn page_size_spec(&self) -> Option<u16> {
        self.page_size
    }

    /// The page token held, if one was supplied.
    pub closed spec fn page_token_spec(&self) -> Option<Seq<char>> {
        token_view(self.page_token)
    }

    /// A supplied page size always lies in `[0, 1000]`.
    pub open spec fn wf(&self) -> bool {
        self.page_size_spec() matches Option::Some(n) ==> n <= MAX_PAGE_SIZE
    }

    /// Validates and stores the parameters. A page size outside `[0, 1000]`
    /// is rejected, never clamped; an absent field stays absent.
    pub fn new(page_size: Option<u16>, page_token: Option<String>) -> (r: Result<
        QueryParams,
        QueryParamsError,
    >)
        ensures
            page_size is Some && page_size->0 > MAX_PAGE_SIZE ==> (r matches Result::Err(e)
                && e == (QueryParamsError::PageSizeOutOfRange { page_size: page_size->0 })),
            (page_size is None || page_size->0 <= MAX_PAGE_SIZE) ==> (r matches Result::Ok(q)
                && q.page_size_spec() == page_size && q.page_token_spec() == token_view(page_token)
                && q.wf()),
    {
        if let Option::Some(n) = page_size {
            if n > MAX_PAGE_SIZE {
                return Result::Err(QueryParamsError::PageSizeOutOfRange { page_size: n });
            }
        }
        Result::Ok(QueryParams { page_size, page_token })
    }

    /// The page size held, if one was supplied.
    pub fn page_size(&self) -> (r: Option<u16>)
        ensures
            r == self.page_size_spec(),
    {
        self.page_size
    }

    /// The page token held, if one was supplied.
    pub fn page_token(&self) -> (r: &Option<String>)
        ensures
            token_view(*r) == self.page_token_spec(),
    {
        &self.page_token
    }

    /// Encodes the parameters as a query string: present fields only, in
    /// stable order (`pageSize` first), joined by `&`; the empty string
    /// when both fields are absent. The token value is form-urlencoded
    /// from its UTF-8 bytes, so percent-decoding it recovers the stored
    /// token byte for byte.
    pub fn to_query_string(&self) -> (r: String)
        ensures
            r@ == query_string_of(self.page_size_spec(), self.page_token_spec()),
    {
        let mut out = String::new();
        match (self.page_size, &self.page_token) {
            (Option::None, Option::None) => {
                proof {
                    assert(out@ =~= query_string_of(self.page_size_spec(), self.page_token_spec()));
                }
            },
            (Option::Some(n), Option::None) => {
                out.append("pageSize=");
                append_dec(&mut out, n);
                proof {
                    assert(out@ =~= query_string_of(self.page_size_spec(), self.page_token_spec()));
                }
            },
            (Option::None, Option::Some(t)) => {
                out.append("pageToken=");
                append_urlencoded(&mut out, t.as_str());
                proof {
                    assert(out@ =~= query_string_of(self.page_size_spec(), self.page_token_spec()));
                }
            },
            (Option::Some(n), Option::Some(t)) => {
                out.append("pageSize=");
                append_dec(&mut out, n);
                out.append("&pageToken=");
                append_urlencoded(&mut out, t.as_str());
                proof {
                    assert(out@ =~= query_string_of(self.page_size_spec(), self.page_token_spec()));
                }
            },
        }
        out
    }
}

impl Clone for QueryParams {
    /// A clone holds the same page size and the same page token.
    fn clone(&self) -> (r: Self)
        ensures
            r == *self,
    {
        let page_token = match &self.page_token {
            Option::Some(t) => Option::Some(t.clone()),
            Option::None => Option::None,
        };
        QueryParams { page_size: self.page_size, page_token }
    }
}

impl Default for QueryParams {
    /// The default parameter pair has no field set.
    fn default() -> (r: Self)
        ensures
            r.page_size_spec() is None,
            r.page_token_spec() is None,
    {
        QueryParams { page_size: Option::None, page_token: Option::None }
    }
}

} // verus!
