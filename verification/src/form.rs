//! The `application/x-www-form-urlencoded` grammar of the subscription form.
//!
//! A body is a `&`-separated list of pairs; each pair is a key, optionally
//! followed by `=` and a value.  Keys and values are percent-decoded: `+`
//! stands for a space, `%` followed by two hex digits stands for that byte,
//! and any other byte, a stray `%` included, stands for itself.  For each
//! field the first pair whose decoded key matches is used, and its decoded
//! value must be valid UTF-8.

use vstd::prelude::*;
use vstd::slice::slice_subrange;
use vstd::utf8::{decode_utf8, valid_utf8};

verus! {

/// The raw fields of one subscription submission.
#[derive(Debug)]
pub struct FormData {
    pub email: String,
    pub name: String,
}

/// Why a body yields no `FormData`.
#[derive(Clone, Copy, Debug, PartialEq, Eq, Structural)]
pub enum FormError {
    MissingName,
    MissingEmail,
    BadEncoding,
}

/// An ASCII hex digit.
pub open spec fn is_hex_digit(b: u8) -> bool {
    ||| (0x30 <= b && b <= 0x39)
    ||| (0x41 <= b && b <= 0x46)
    ||| (0x61 <= b && b <= 0x66)
}

/// The value of an ASCII hex digit.
pub open spec fn hex_value(b: u8) -> u8 {
    if 0x30 <= b && b <= 0x39 {
        (b - 0x30) as u8
    } else if 0x41 <= b && b <= 0x46 {
        (b - 0x41 + 10) as u8
    } else {
        (b - 0x61 + 10) as u8
    }
}

/// The percent-decoding of `s` from position `i` on.
pub open spec fn decode_from(s: Seq<u8>, i: int) -> Seq<u8>
    decreases s.len() - i,
{
    if i < 0 || i >= s.len() {
        seq![]
    } else if s[i] == 0x2B {
        seq![0x20u8] + decode_from(s, i + 1)
    } else if s[i] == 0x25 && i + 2 < s.len() && is_hex_digit(s[i + 1]) && is_hex_digit(
        s[i + 2],
    ) {
        seq![(hex_value(s[i + 1]) * 16 + hex_value(s[i + 2])) as u8] + decode_from(s, i + 3)
    } else {
        seq![s[i]] + decode_from(s, i + 1)
    }
}

/// The percent-decoding of a whole key or value.
pub open spec fn decode_component(s: Seq<u8>) -> Seq<u8> {
    decode_from(s, 0)
}

/// The first position at or after `i` holding `sep`, or the length.
pub open spec fn sep_from(s: Seq<u8>, sep: u8, i: int) -> int
    decreases s.len() - i,
{
    if i < 0 || i >= s.len() {
        s.len() as int
    } else if s[i] == sep {
        i
    } else {
        sep_from(s, sep, i + 1)
    }
}

proof fn lemma_sep_from_bounds(s: Seq<u8>, sep: u8, i: int)
    requires
        0 <= i <= s.len(),
    ensures
        i <= sep_from(s, sep, i) <= s.len(),
        sep_from(s, sep, i) < s.len() ==> s[sep_from(s, sep, i)] == sep,
    decreases s.len() - i,
{
    if i < s.len() && s[i] != sep {
        lemma_sep_from_bounds(s, sep, i + 1);
    }
}

/// The decoded key of one pair: what stands before the first `=`.
pub open spec fn pair_key(p: Seq<u8>) -> Seq<u8> {
    decode_component(p.take(sep_from(p, 0x3D, 0)))
}

/// The decoded value of one pair: what stands after the first `=`, or
/// nothing when the pair has no `=`.
pub open spec fn pair_value(p: Seq<u8>) -> Seq<u8> {
    let e = sep_from(p, 0x3D, 0);
    if e >= p.len() {
        seq![]
    } else {
        decode_component(p.skip(e + 1))
    }
}

/// The value of the first pair at or after `i` whose decoded key is `key`.
pub open spec fn field_from(body: Seq<u8>, key: Seq<u8>, i: int) -> Option<Seq<u8>>
    decreases body.len() - i,
    via field_from_decreases
{
    if i < 0 || i > body.len() {
        None
    } else {
        let j = sep_from(body, 0x26, i);
        let p = body.subrange(i, j);
        if pair_key(p) == key {
            Some(pair_value(p))
        } else if j >= body.len() {
            None
        } else {
            field_from(body, key, j + 1)
        }
    }
}

#[via_fn]
proof fn field_from_decreases(body: Seq<u8>, key: Seq<u8>, i: int) {
    if 0 <= i <= body.len() {
        lemma_sep_from_bounds(body, 0x26, i);
    }
}

/// The decoded value of the field named `key`, if the body holds one.
pub open spec fn form_field(body: Seq<u8>, key: Seq<u8>) -> Option<Seq<u8>> {
    field_from(body, key, 0)
}

/// The bytes of the key `name`.
pub open spec fn name_key() -> Seq<u8> {
    seq![0x6Eu8, 0x61u8, 0x6Du8, 0x65u8]
}

/// The bytes of the key `email`.
pub open spec fn email_key() -> Seq<u8> {
    seq![0x65u8, 0x6Du8, 0x61u8, 0x69u8, 0x6Cu8]
}

/// What a body yields: the characters of the name and email fields, or the
/// first reason it is rejected.
pub open spec fn spec_parse_form(body: Seq<u8>) -> Result<(Seq<char>, Seq<char>), FormError> {
    match form_field(body, name_key()) {
        Option::None => Result::Err(FormError::MissingName),
        Option::Some(nb) => match form_field(body, email_key()) {
            Option::None => Result::Err(FormError::MissingEmail),
            Option::Some(eb) => if valid_utf8(nb) && valid_utf8(eb) {
                Result::Ok((decode_utf8(nb), decode_utf8(eb)))
            } else {
                Result::Err(FormError::BadEncoding)
            },
        },
    }
}

/// Decides `is_hex_digit`.
fn is_hex(b: u8) -> (r: bool)
    ensures
        r == is_hex_digit(b),
{
    (0x30 <= b && b <= 0x39) || (0x41 <= b && b <= 0x46) || (0x61 <= b && b <= 0x66)
}

/// Computes `hex_value`.
fn hex_val(b: u8) -> (v: u8)
    requires
        is_hex_digit(b),
    ensures
        v == hex_value(b),
        v <= 15,
{
    if 0x30 <= b && b <= 0x39 {
        b - 0x30
    } else if 0x41 <= b && b <= 0x46 {
        b - 0x41 + 10
    } else {
        b - 0x61 + 10
    }
}

/// Percent-decodes one key or value.
pub fn percent_decode(s: &[u8]) -> (out: Vec<u8>)
    ensures
        out@ == decode_component(s@),
{
    let n = s.len();
    let mut out: Vec<u8> = Vec::new();
    let mut i: usize = 0;
    while i < n
        invariant
            n == s@.len(),
            i <= n,
            out@ + decode_from(s@, i as int) == decode_from(s@, 0),
        decreases n - i,
    {
        let ghost prev = out@;
        let ghost pi = i as int;
        let b = s[i];
        if b == 0x2B {
            out.push(0x20);
            i = i + 1;
        } else if b == 0x25 && n - i >= 3 && is_hex(s[i + 1]) && is_hex(s[i + 2]) {
            let v = hex_val(s[i + 1]) * 16 + hex_val(s[i + 2]);
            out.push(v);
            i = i + 3;
        } else {
            out.push(b);
            i = i + 1;
        }
        proof {
            assert(decode_from(s@, pi) == seq![out@[out@.len() - 1]] + decode_from(s@, i as int));
            assert(out@ =~= prev + seq![out@[out@.len() - 1]]);
            assert(out@ + decode_from(s@, i as int) =~= prev + decode_from(s@, pi));
        }
    }
    out
}

/// Finds `sep_from` in a byte slice.
fn find_sep(s: &[u8], sep: u8, from: usize) -> (j: usize)
    requires
        from <= s@.len(),
    ensures
        j == sep_from(s@, sep, from as int),
        from <= j <= s@.len(),
        j < s@.len() ==> s@[j as int] == sep,
{
    let n = s.len();
    let mut i: usize = from;
    while i < n
        invariant
            n == s@.len(),
            from <= i <= n,
            sep_from(s@, sep, from as int) == sep_from(s@, sep, i as int),
        decreases n - i,
    {
        if s[i] == sep {
            return i;
        }
        i = i + 1;
    }
    i
}

/// Compares two byte strings.
pub fn bytes_eq(a: &[u8], b: &[u8]) -> (r: bool)
    ensures
        r == (a@ == b@),
{
    let n = a.len();
    if n != b.len() {
        proof {
            assert(a@ != b@);
        }
        return false;
    }
    let mut i: usize = 0;
    while i < n
        invariant
            n == a@.len() == b@.len(),
            i <= n,
            forall|k: int| 0 <= k < i ==> a@[k] == b@[k],
        decreases n - i,
    {
        if a[i] != b[i] {
            return false;
        }
        i = i + 1;
    }
    proof {
        assert(a@ =~= b@);
    }
    true
}

/// Looks a field up by its decoded key.
pub fn form_lookup(body: &[u8], key: &[u8]) -> (r: Option<Vec<u8>>)
    ensures
        r is Some <==> form_field(body@, key@) is Some,
        r matches Some(v) ==> form_field(body@, key@) == Some(v@),
{
    let n = body.len();
    let mut i: usize = 0;
    loop
        invariant
            n == body@.len(),
            i <= n,
            form_field(body@, key@) == field_from(body@, key@, i as int),
        decreases n - i,
    {
        let j = find_sep(body, 0x26, i);
        let pair = slice_subrange(body, i, j);
        let e = find_sep(pair, 0x3D, 0);
        let keypart = slice_subrange(pair, 0, e);
        let dec_key = percent_decode(keypart);
        proof {
            assert(keypart@ =~= pair@.take(sep_from(pair@, 0x3D, 0)));
        }
        if bytes_eq(dec_key.as_slice(), key) {
            if e == pair.len() {
                let out: Vec<u8> = Vec::new();
                proof {
                    assert(pair_value(pair@) =~= out@);
                }
                return Some(out);
            } else {
                let valpart = slice_subrange(pair, e + 1, pair.len());
                proof {
                    assert(valpart@ =~= pair@.skip(e as int + 1));
                }
                let val = percent_decode(valpart);
                return Some(val);
            }
        }
        if j == n {
            return None;
        }
        i = j + 1;
    }
}

/// Builds the bytes of the key `name`.
fn name_key_exec() -> (k: Vec<u8>)
    ensures
        k@ == name_key(),
{
    let mut k: Vec<u8> = Vec::new();
    k.push(0x6E);
    k.push(0x61);
    k.push(0x6D);
    k.push(0x65);
    proof {
        assert(k@ =~= name_key());
    }
    k
}

/// Builds the bytes of the key `email`.
fn email_key_exec() -> (k: Vec<u8>)
    ensures
        k@ == email_key(),
{
    let mut k: Vec<u8> = Vec::new();
    k.push(0x65);
    k.push(0x6D);
    k.push(0x61);
    k.push(0x69);
    k.push(0x6C);
    proof {
        assert(k@ =~= email_key());
    }
    k
}

/// Relies on `String::from_utf8`: it returns the string whose characters
/// the given bytes encode, and errs exactly when the bytes are not valid
/// UTF-8.
#[verifier::external_body]
fn utf8_to_string(v: Vec<u8>) -> (r: Option<String>)
    ensures
        r is Some <==> valid_utf8(v@),
        r matches Some(s) ==> s@ == decode_utf8(v@),
{
    String::from_utf8(v).ok()
}

/// Decodes a request body into the form's raw fields, as
/// `spec_parse_form` says.
pub fn parse_form(body: &[u8]) -> (r: Result<FormData, FormError>)
    ensures
        match spec_parse_form(body@) {
            Result::Ok(fields) => r matches Ok(fd) && fd.name@ == fields.0 && fd.email@
                == fields.1,
            Result::Err(e) => r matches Err(e2) && e2 == e,
        },
{
    let nk = name_key_exec();
    let name_bytes = match form_lookup(body, nk.as_slice()) {
        Some(v) => v,
        None => {
            return Err(FormError::MissingName);
        },
    };
    let ek = email_key_exec();
    let email_bytes = match form_lookup(body, ek.as_slice()) {
        Some(v) => v,
        None => {
            return Err(FormError::MissingEmail);
        },
    };
    let name = match utf8_to_string(name_bytes) {
        Some(s) => s,
        None => {
            return Err(FormError::BadEncoding);
        },
    };
    let email = match utf8_to_string(email_bytes) {
        Some(s) => s,
        None => {
            return Err(FormError::BadEncoding);
        },
    };
    Ok(FormData { email, name })
}

} // verus!
