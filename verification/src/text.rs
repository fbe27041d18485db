use vstd::prelude::*;
use crate::signer::MultiSigner;

verus! {

// Diagnostic rendering: scheme name, then the payload in lower-case hex.
// It decides nothing; protocol code never reads it back.

/// The lower-case hex digit for a value below 16, as an ASCII byte.
pub open spec fn hex_digit(n: u8) -> u8
    recommends
        n < 16,
{
    if n < 10 {
        (n + 48) as u8
    } else {
        (n + 87) as u8
    }
}

/// The lower-case hex rendering of a byte string, two ASCII digits per byte.
pub open spec fn hex_seq(bytes: Seq<u8>) -> Seq<u8> {
    Seq::new(
        2 * bytes.len(),
        (|i: int|
            if i % 2 == 0 {
                hex_digit((bytes[i / 2] / 16) as u8)
            } else {
                hex_digit((bytes[i / 2] % 16) as u8)
            }),
    )
}

/// The same rendering as characters.
pub open spec fn hex_chars(bytes: Seq<u8>) -> Seq<char> {
    hex_seq(bytes).map_values(|b: u8| b as char)
}

/// The name that the rendering prefixes to each scheme's payload.
pub open spec fn scheme_prefix(s: MultiSigner) -> Seq<char> {
    match s {
        MultiSigner::Ed25519(_) => "ed25519: "@,
        MultiSigner::Sr25519(_) => "sr25519: "@,
        MultiSigner::Ecdsa(_) => "ecdsa: "@,
    }
}

/// Relies on `String::from_utf8`: ASCII bytes are valid UTF-8 and decode to
/// one character per byte.
#[verifier::external_body]
fn ascii_to_string(v: Vec<u8>) -> (r: String)
    requires
        forall|i: int| 0 <= i < v@.len() ==> v@[i] < 128,
    ensures
        r@.len() == v@.len(),
        forall|i: int| 0 <= i < v@.len() ==> r@[i] == (v@[i] as char),
{
    String::from_utf8(v).unwrap_or_default()
}

/// Relies on `String::push_str`: appends the second string to the first.
#[verifier::external_body]
fn concat_strings(a: String, b: &String) -> (r: String)
    ensures
        r@ == a@ + b@,
{
    let mut out = a;
    out.push_str(b.as_str());
    out
}

/// The lower-case hex digit for a value below 16, as an ASCII byte.
fn hex_byte(n: u8) -> (r: u8)
    requires
        n < 16,
    ensures
        r == hex_digit(n),
        r < 128,
{
    if n < 10 {
        n + 48
    } else {
        n + 87
    }
}

/// Renders a byte string as lower-case hex, two digits per byte.
pub fn hex_string(bytes: &Vec<u8>) -> (r: String)
    ensures
        r@ == hex_chars(bytes@),
{
    let mut out: Vec<u8> = Vec::new();
    let mut j: usize = 0;
    while j < bytes.len()
        invariant
            j <= bytes@.len(),
            out@.len() == 2 * j,
            forall|i: int| 0 <= i < out@.len() ==> out@[i] == hex_seq(bytes@)[i],
            forall|i: int| 0 <= i < out@.len() ==> out@[i] < 128,
        decreases bytes@.len() - j,
    {
        let b = bytes[j];
        out.push(hex_byte(b / 16));
        out.push(hex_byte(b % 16));
        j = j + 1;
    }
    let r = ascii_to_string(out);
    proof {
        assert(r@ =~= hex_chars(bytes@));
    }
    r
}

impl MultiSigner {
    /// The textual rendering of the identity, for diagnostics only: the
    /// scheme's name, then the raw key bytes in lower-case hex. No protocol
    /// decision may read this back.
    pub fn render(&self) -> (r: String)
        ensures
            r@ == scheme_prefix(*self) + hex_chars(self.payload()),
    {
        let name: String = match self {
            MultiSigner::Ed25519(_) => "ed25519: ".to_owned(),
            MultiSigner::Sr25519(_) => "sr25519: ".to_owned(),
            MultiSigner::Ecdsa(_) => "ecdsa: ".to_owned(),
        };
        let hex = hex_string(self.as_raw());
        concat_strings(name, &hex)
    }
}

} // verus!
