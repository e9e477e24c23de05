use vstd::prelude::*;
use vstd::std_specs::iter::IteratorSpec;
use vstd::string::StringExecFns;

use crate::models::FetchError;
use crate::models::HttpOutcome;

verus! {

// ------------------------------------------------------------------
// Percent-encoding of query strings
// ------------------------------------------------------------------

/// Characters that pass through percent-encoding unchanged: ASCII
/// alphanumerics and the marks `-`, `.`, `_`, `~`.
pub open spec fn is_unreserved(c: char) -> bool {
    ||| (48 <= c as u32 && c as u32 <= 57)
    ||| (65 <= c as u32 && c as u32 <= 90)
    ||| (97 <= c as u32 && c as u32 <= 122)
    ||| c == '-'
    ||| c == '.'
    ||| c == '_'
    ||| c == '~'
}

/// The uppercase hexadecimal digit character for a value below 16.
pub open spec fn hex_digit(n: nat) -> char {
    if n == 0 {
        '0'
    } else if n == 1 {
        '1'
    } else if n == 2 {
        '2'
    } else if n == 3 {
        '3'
    } else if n == 4 {
        '4'
    } else if n == 5 {
        '5'
    } else if n == 6 {
        '6'
    } else if n == 7 {
        '7'
    } else if n == 8 {
        '8'
    } else if n == 9 {
        '9'
    } else if n == 10 {
        'A'
    } else if n == 11 {
        'B'
    } else if n == 12 {
        'C'
    } else if n == 13 {
        'D'
    } else if n == 14 {
        'E'
    } else {
        'F'
    }
}

/// The UTF-8 bytes of one character, derived from its scalar value.
pub open spec fn utf8_bytes(c: char) -> Seq<u8> {
    let n = (c as u32) as nat;
    if n < 0x80 {
        seq![n as u8]
    } else if n < 0x800 {
        seq![(0xC0 + n / 0x40) as u8, (0x80 + n % 0x40) as u8]
    } else if n < 0x10000 {
        seq![
            (0xE0 + n / 0x1000) as u8,
            (0x80 + (n / 0x40) % 0x40) as u8,
            (0x80 + n % 0x40) as u8,
        ]
    } else {
        seq![
            (0xF0 + n / 0x40000) as u8,
            (0x80 + (n / 0x1000) % 0x40) as u8,
            (0x80 + (n / 0x40) % 0x40) as u8,
            (0x80 + n % 0x40) as u8,
        ]
    }
}

/// One byte as a percent escape: `%` and exactly two uppercase hexadecimal
/// digits.
pub open spec fn byte_escape(b: u8) -> Seq<char> {
    seq!['%', hex_digit((b / 16) as nat), hex_digit((b % 16) as nat)]
}

/// The percent escapes of a byte sequence, in order.
pub open spec fn percent_escapes(bs: Seq<u8>) -> Seq<char>
    decreases bs.len(),
{
    if bs.len() == 0 {
        Seq::empty()
    } else {
        byte_escape(bs[0]) + percent_escapes(bs.skip(1))
    }
}

/// How one character is percent-encoded: space becomes `+`, unreserved
/// characters stand for themselves, and every other character becomes the
/// `%XX` escape of each of its UTF-8 bytes, two uppercase hexadecimal
/// digits per byte.
pub open spec fn encode_char(c: char) -> Seq<char> {
    if c == ' ' {
        seq!['+']
    } else if is_unreserved(c) {
        seq![c]
    } else {
        percent_escapes(utf8_bytes(c))
    }
}

/// Percent-encoding of a whole character sequence.
pub open spec fn encode_seq(s: Seq<char>) -> Seq<char>
    decreases s.len(),
{
    if s.len() == 0 {
        Seq::empty()
    } else {
        encode_char(s[0]) + encode_seq(s.skip(1))
    }
}

proof fn lemma_encode_seq_push(s: Seq<char>, c: char)
    ensures
        encode_seq(s.push(c)) == encode_seq(s) + encode_char(c),
    decreases s.len(),
{
    if s.len() == 0 {
        assert(s.push(c)[0] == c);
        assert(s.push(c).skip(1) =~= s);
        assert(encode_seq(s).len() == 0);
        assert(encode_seq(s.push(c)) =~= encode_seq(s) + encode_char(c));
    } else {
        assert(s.push(c).skip(1) =~= s.skip(1).push(c));
        lemma_encode_seq_push(s.skip(1), c);
        assert(s.push(c)[0] == s[0]);
        assert(encode_seq(s.push(c)) =~= encode_seq(s) + encode_char(c));
    }
}

/// Relies on String::push: appends exactly the one given character.
#[verifier::external_body]
fn push_char(s: &mut String, c: char)
    ensures
        final(s)@ == old(s)@.push(c),
{
    s.push(c);
}

/// The uppercase hexadecimal digit character for `n`, which must be below 16.
fn hex_digit_char(n: u32) -> (c: char)
    requires
        n < 16,
    ensures
        c == hex_digit(n as nat),
{
    if n == 0 {
        '0'
    } else if n == 1 {
        '1'
    } else if n == 2 {
        '2'
    } else if n == 3 {
        '3'
    } else if n == 4 {
        '4'
    } else if n == 5 {
        '5'
    } else if n == 6 {
        '6'
    } else if n == 7 {
        '7'
    } else if n == 8 {
        '8'
    } else if n == 9 {
        '9'
    } else if n == 10 {
        'A'
    } else if n == 11 {
        'B'
    } else if n == 12 {
        'C'
    } else if n == 13 {
        'D'
    } else if n == 14 {
        'E'
    } else {
        'F'
    }
}

proof fn lemma_escapes1(b0: u8)
    ensures
        percent_escapes(seq![b0]) == byte_escape(b0),
{
    assert(seq![b0].skip(1) =~= Seq::<u8>::empty());
    assert(percent_escapes(Seq::<u8>::empty()) =~= Seq::<char>::empty());
    assert(percent_escapes(seq![b0]) =~= byte_escape(b0));
}

proof fn lemma_escapes2(b0: u8, b1: u8)
    ensures
        percent_escapes(seq![b0, b1]) == byte_escape(b0) + byte_escape(b1),
{
    assert(seq![b0, b1].skip(1) =~= seq![b1]);
    lemma_escapes1(b1);
    assert(percent_escapes(seq![b0, b1]) =~= byte_escape(b0) + byte_escape(b1));
}

proof fn lemma_escapes3(b0: u8, b1: u8, b2: u8)
    ensures
        percent_escapes(seq![b0, b1, b2]) == byte_escape(b0) + byte_escape(b1) + byte_escape(b2),
{
    assert(seq![b0, b1, b2].skip(1) =~= seq![b1, b2]);
    lemma_escapes2(b1, b2);
    assert(percent_escapes(seq![b0, b1, b2]) =~= byte_escape(b0) + byte_escape(b1)
        + byte_escape(b2));
}

proof fn lemma_escapes4(b0: u8, b1: u8, b2: u8, b3: u8)
    ensures
        percent_escapes(seq![b0, b1, b2, b3]) == byte_escape(b0) + byte_escape(b1) + byte_escape(
            b2,
        ) + byte_escape(b3),
{
    assert(seq![b0, b1, b2, b3].skip(1) =~= seq![b1, b2, b3]);
    lemma_escapes3(b1, b2, b3);
    assert(percent_escapes(seq![b0, b1, b2, b3]) =~= byte_escape(b0) + byte_escape(b1)
        + byte_escape(b2) + byte_escape(b3));
}

/// Appends `%` and exactly two uppercase hexadecimal digits for one byte.
fn push_byte_escape(out: &mut String, b: u8)
    ensures
        final(out)@ == old(out)@ + byte_escape(b),
{
    push_char(out, '%');
    push_char(out, hex_digit_char((b / 16) as u32));
    push_char(out, hex_digit_char((b % 16) as u32));
    assert(old(out)@.push('%').push(hex_digit((b / 16) as nat)).push(hex_digit((b % 16) as nat))
        =~= old(out)@ + byte_escape(b));
}

/// Appends the percent-encoding of the one character `c`.
fn push_encoded_char(out: &mut String, c: char)
    ensures
        final(out)@ == old(out)@ + encode_char(c),
{
    let code: u32 = c as u32;
    if c == ' ' {
        push_char(out, '+');
        assert(old(out)@.push('+') =~= old(out)@ + encode_char(c));
    } else if (48 <= code && code <= 57) || (65 <= code && code <= 90) || (97 <= code && code
        <= 122) || c == '-' || c == '.' || c == '_' || c == '~' {
        push_char(out, c);
        assert(old(out)@.push(c) =~= old(out)@ + encode_char(c));
    } else if code < 0x80 {
        let b0: u8 = code as u8;
        push_byte_escape(out, b0);
        proof {
            assert(utf8_bytes(c) =~= seq![b0]);
            lemma_escapes1(b0);
            assert(old(out)@ + byte_escape(b0) =~= old(out)@ + encode_char(c));
        }
    } else if code < 0x800 {
        let b0: u8 = (0xC0 + code / 0x40) as u8;
        let b1: u8 = (0x80 + code % 0x40) as u8;
        push_byte_escape(out, b0);
        push_byte_escape(out, b1);
        proof {
            assert(utf8_bytes(c) =~= seq![b0, b1]);
            lemma_escapes2(b0, b1);
            assert(old(out)@ + byte_escape(b0) + byte_escape(b1) =~= old(out)@ + encode_char(c));
        }
    } else if code < 0x10000 {
        let b0: u8 = (0xE0 + code / 0x1000) as u8;
        let b1: u8 = (0x80 + (code / 0x40) % 0x40) as u8;
        let b2: u8 = (0x80 + code % 0x40) as u8;
        push_byte_escape(out, b0);
        push_byte_escape(out, b1);
        push_byte_escape(out, b2);
        proof {
            assert(utf8_bytes(c) =~= seq![b0, b1, b2]);
            lemma_escapes3(b0, b1, b2);
            assert(old(out)@ + byte_escape(b0) + byte_escape(b1) + byte_escape(b2) =~= old(out)@
                + encode_char(c));
        }
    } else {
        let b0: u8 = (0xF0 + code / 0x40000) as u8;
        let b1: u8 = (0x80 + (code / 0x1000) % 0x40) as u8;
        let b2: u8 = (0x80 + (code / 0x40) % 0x40) as u8;
        let b3: u8 = (0x80 + code % 0x40) as u8;
        push_byte_escape(out, b0);
        push_byte_escape(out, b1);
        push_byte_escape(out, b2);
        push_byte_escape(out, b3);
        proof {
            assert(utf8_bytes(c) =~= seq![b0, b1, b2, b3]);
            lemma_escapes4(b0, b1, b2, b3);
            assert(old(out)@ + byte_escape(b0) + byte_escape(b1) + byte_escape(b2)
                + byte_escape(b3) =~= old(out)@ + encode_char(c));
        }
    }
}

/// Percent-encodes a query string for use inside a URL: spaces become `+`,
/// unreserved characters stand for themselves, and every other character is
/// escaped byte by byte — each of its UTF-8 bytes as `%` and two uppercase
/// hexadecimal digits.
pub fn urlencoding(s: &str) -> (r: String)
    ensures
        r@ == encode_seq(s@),
{
    let mut out = String::new();
    let mut it = s.chars();
    let ghost orig: Seq<char> = s@;
    let ghost mut done: Seq<char> = Seq::empty();
    loop
        invariant
            it.obeys_prophetic_iter_laws(),
            it.decrease() is Some,
            done + it.remaining() == orig,
            out@ == encode_seq(done),
        ensures
            out@ == encode_seq(orig),
        decreases it.decrease()->0,
    {
        match it.next() {
            Some(c) => {
                push_encoded_char(&mut out, c);
                proof {
                    lemma_encode_seq_push(done, c);
                    done = done.push(c);
                }
            },
            None => {
                proof {
                    assert(done =~= orig);
                }
                break ;
            },
        }
    }
    out
}

// ------------------------------------------------------------------
// Decimal rendering of counters and status codes
// ------------------------------------------------------------------

/// Decimal digits of `n`, most significant first, without leading zeros.
/// Digits below ten share their characters with the hexadecimal set.
pub open spec fn dec_digits(n: nat) -> Seq<char>
    decreases n,
{
    if n < 10 {
        seq![hex_digit(n)]
    } else {
        dec_digits(n / 10) + seq![hex_digit(n % 10)]
    }
}

/// Appends the decimal digits of `n`, most significant first.
pub(crate) fn push_dec_digits(out: &mut String, n: u32)
    ensures
        final(out)@ == old(out)@ + dec_digits(n as nat),
    decreases n,
{
    if n < 10 {
        push_char(out, hex_digit_char(n));
        assert(old(out)@.push(hex_digit(n as nat)) =~= old(out)@ + dec_digits(n as nat));
    } else {
        push_dec_digits(out, n / 10);
        push_char(out, hex_digit_char(n % 10));
        assert((n / 10) as nat == (n as nat) / 10);
        assert((n % 10) as nat == (n as nat) % 10);
        assert(old(out)@ + dec_digits((n / 10) as nat) + seq![hex_digit((n % 10) as nat)]
            =~= old(out)@ + dec_digits(n as nat));
    }
}

// ------------------------------------------------------------------
// Request construction
// ------------------------------------------------------------------

/// The search endpoint URL for `query`: the query percent-encoded and the
/// page size capped at 30.
pub fn search_url(query: &str) -> (r: String)
    ensures
        r@ == "https://api.github.com/search/users?q="@ + encode_seq(query@) + "&per_page=30"@,
{
    let mut out = String::new();
    out.append("https://api.github.com/search/users?q=");
    let enc = urlencoding(query);
    out.append(enc.as_str());
    out.append("&per_page=30");
    proof {
        assert(out@ =~= "https://api.github.com/search/users?q="@ + encode_seq(query@)
            + "&per_page=30"@);
    }
    out
}

/// The record endpoint URL for one user, identified by login name.
pub fn user_url(login: &str) -> (r: String)
    ensures
        r@ == "https://api.github.com/users/"@ + login@,
{
    let mut out = String::new();
    out.append("https://api.github.com/users/");
    out.append(login);
    proof {
        assert(out@ =~= "https://api.github.com/users/"@ + login@);
    }
    out
}

/// The repository-list endpoint URL for one user.
pub fn repos_url(login: &str) -> (r: String)
    ensures
        r@ == "https://api.github.com/users/"@ + login@ + "/repos"@,
{
    let mut out = String::new();
    out.append("https://api.github.com/users/");
    out.append(login);
    out.append("/repos");
    proof {
        assert(out@ =~= "https://api.github.com/users/"@ + login@ + "/repos"@);
    }
    out
}

/// One HTTP header to attach to an outgoing request.
pub struct Header {
    pub name: String,
    pub value: String,
}

/// The headers every request carries: a fixed identifying header, the
/// version-pinning accept header, and — exactly when a credential is
/// configured — a bearer authorization header. A missing credential is a
/// valid configuration, not an error.
pub fn request_headers(token: Option<&str>) -> (hs: Vec<Header>)
    ensures
        hs@.len() == if token is Some {
            3int
        } else {
            2int
        },
        hs@[0].name@ == "User-Agent"@ && hs@[0].value@ == "rust-github-user-client"@,
        hs@[1].name@ == "Accept"@ && hs@[1].value@ == "application/vnd.github.v3+json"@,
        token matches Some(t) ==> hs@[2].name@ == "Authorization"@ && hs@[2].value@ == "Bearer "@
            + t@,
{
    let mut hs: Vec<Header> = Vec::new();
    hs.push(
        Header {
            name: String::from_str("User-Agent"),
            value: String::from_str("rust-github-user-client"),
        },
    );
    hs.push(
        Header {
            name: String::from_str("Accept"),
            value: String::from_str("application/vnd.github.v3+json"),
        },
    );
    match token {
        Some(t) => {
            let mut v = String::new();
            v.append("Bearer ");
            v.append(t);
            proof {
                assert(v@ =~= "Bearer "@ + t@);
            }
            hs.push(Header { name: String::from_str("Authorization"), value: v });
        },
        None => {},
    }
    hs
}

// ------------------------------------------------------------------
// Response classification
// ------------------------------------------------------------------

/// Whether an HTTP status code counts as success.
pub open spec fn spec_status_is_success(status: u16) -> bool {
    200 <= status && status < 300
}

/// Whether an HTTP status code counts as success.
pub fn status_is_success(status: u16) -> (b: bool)
    ensures
        b == spec_status_is_success(status),
{
    200 <= status && status < 300
}

/// How one transport outcome sorts into the error taxonomy: no response is a
/// transport error, a non-success status is a remote error carrying status
/// and body, and a success hands the body on for decoding.
pub open spec fn classified(outcome: HttpOutcome, r: Result<String, FetchError>) -> bool {
    match outcome {
        HttpOutcome::Failed => r == Result::<String, FetchError>::Err(FetchError::Transport),
        HttpOutcome::Responded { status, body } => if spec_status_is_success(status) {
            r == Result::<String, FetchError>::Ok(body)
        } else {
            r == Result::<String, FetchError>::Err(FetchError::Remote { status, body })
        },
    }
}

/// Sorts what the transport handed back into either the response body,
/// ready for decoding, or the typed error for this request.
pub fn classify_response(outcome: HttpOutcome) -> (r: Result<String, FetchError>)
    ensures
        classified(outcome, r),
{
    match outcome {
        HttpOutcome::Failed => Err(FetchError::Transport),
        HttpOutcome::Responded { status, body } => {
            if status_is_success(status) {
                Ok(body)
            } else {
                Err(FetchError::Remote { status, body })
            }
        },
    }
}

/// Final decoding step of a successful response: a value parsed from the
/// body passes through, a schema mismatch becomes the decode error.
pub fn decode_result<T>(parsed: Option<T>) -> (r: Result<T, FetchError>)
    ensures
        match parsed {
            Some(v) => r == Result::<T, FetchError>::Ok(v),
            None => r == Result::<T, FetchError>::Err(FetchError::Decode),
        },
{
    match parsed {
        Some(v) => Ok(v),
        None => Err(FetchError::Decode),
    }
}

} // verus!
