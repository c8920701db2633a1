use vstd::prelude::*;
use base64::engine::general_purpose;
use base64::Engine;
use rand::Rng;

verus! {

/// The ASCII bytes of the base-10 rendering of `n`, most significant digit first.
pub open spec fn decimal(n: nat) -> Seq<u8>
    decreases n,
{
    if n < 10 {
        seq![(48 + n) as u8]
    } else {
        decimal(n / 10).push((48 + n % 10) as u8)
    }
}

/// The characters of the URL-safe base64 alphabet.
pub open spec fn is_url_safe_char(c: char) -> bool {
    ('A' <= c && c <= 'Z') || ('a' <= c && c <= 'z') || ('0' <= c && c <= '9') || c == '-' || c
        == '_'
}

/// A non-empty token made only of URL-safe characters.
pub open spec fn is_url_safe_token(s: Seq<char>) -> bool {
    s.len() > 0 && forall|i: int| 0 <= i < s.len() ==> is_url_safe_char(#[trigger] s[i])
}

/// What URL-safe base64 without padding makes of a byte string.
pub uninterp spec fn base64_url_no_pad(b: Seq<u8>) -> Seq<char>;

/// The token that identifies a link drawn as the number `n`.
pub open spec fn id_of_number(n: nat) -> Seq<char> {
    base64_url_no_pad(decimal(n))
}

proof fn lemma_decimal_len(n: nat)
    ensures
        decimal(n).len() >= 1,
        n < 10 ==> decimal(n).len() <= 1,
        n < 100 ==> decimal(n).len() <= 2,
        n < 1000 ==> decimal(n).len() <= 3,
        n < 10000 ==> decimal(n).len() <= 4,
        n < 100000 ==> decimal(n).len() <= 5,
        n < 1000000 ==> decimal(n).len() <= 6,
        n < 10000000 ==> decimal(n).len() <= 7,
        n < 100000000 ==> decimal(n).len() <= 8,
        n < 1000000000 ==> decimal(n).len() <= 9,
        n < 10000000000 ==> decimal(n).len() <= 10,
    decreases n,
{
    if n >= 10 {
        lemma_decimal_len(n / 10);
    }
}

/// Renders `n` in base 10 as ASCII bytes.
pub fn decimal_bytes(n: u32) -> (r: Vec<u8>)
    ensures
        r@ == decimal(n as nat),
        1 <= r@.len() <= 10,
    decreases n,
{
    proof {
        lemma_decimal_len(n as nat);
    }
    if n < 10 {
        let d: u8 = 48 + n as u8;
        let mut v: Vec<u8> = Vec::new();
        v.push(d);
        v
    } else {
        let mut v = decimal_bytes(n / 10);
        let d: u8 = 48 + (n % 10) as u8;
        v.push(d);
        v
    }
}

/// Relies on base64's `URL_SAFE_NO_PAD.encode`: the alphabet `A-Z a-z 0-9 - _`, four
/// characters for each three bytes and two or three for a trailing one or two, no padding.
#[verifier::external_body]
fn encode_url_safe(b: &Vec<u8>) -> (r: String)
    requires
        b@.len() <= 10,
    ensures
        r@ == base64_url_no_pad(b@),
        r@.len() == (4 * b@.len() + 2) / 3,
        forall|i: int| 0 <= i < r@.len() ==> is_url_safe_char(#[trigger] r@[i]),
{
    general_purpose::URL_SAFE_NO_PAD.encode(b)
}

/// Relies on rand's `thread_rng().gen_range(0..u32::MAX)`: a number of the half-open range.
#[verifier::external_body]
fn random_below_max() -> (r: u32)
    ensures
        r < u32::MAX,
{
    rand::thread_rng().gen_range(0..u32::MAX)
}

/// The identifier of a link drawn as the number `n`: its decimal rendering, encoded as
/// URL-safe base64 without padding.
pub fn id_from_number(n: u32) -> (r: String)
    ensures
        r@ == id_of_number(n as nat),
        is_url_safe_token(r@),
{
    let digits = decimal_bytes(n);
    encode_url_safe(&digits)
}

/// Draws a fresh link identifier from a uniformly random number below `u32::MAX`.
pub fn generate_id() -> (r: String)
    ensures
        exists|n: nat| n < u32::MAX && r@ == id_of_number(n),
        is_url_safe_token(r@),
{
    let n = random_below_max();
    id_from_number(n)
}

} // verus!
