//! Domain value types: parse-and-validate wrappers for subscriber data.
//!
//! A value of one of these types is known valid for its whole lifetime:
//! the fallible `parse` constructors are the only way to build one, and
//! nothing mutates the wrapped string afterwards.

use vstd::prelude::*;
use vstd::string::StringExecFns;
use crate::form::FormData;
use crate::text::{all_space, is_space, is_space_char, str_chars};

verus! {

/// The characters a subscriber name may never contain.
pub open spec fn forbidden_name_char(c: char) -> bool {
    ||| c == '/'
    ||| c == '('
    ||| c == ')'
    ||| c == '"'
    ||| c == '<'
    ||| c == '>'
    ||| c == '\\'
    ||| c == '{'
    ||| c == '}'
}

/// The length ceiling on a subscriber name, counted in characters.
pub open spec fn name_length_ceiling() -> int {
    256
}

/// A subscriber name is accepted when it is not empty after trimming,
/// does not exceed the length ceiling, and holds no forbidden character.
pub open spec fn name_ok(s: Seq<char>) -> bool {
    &&& !all_space(s)
    &&& s.len() <= name_length_ceiling()
    &&& forall|i: int| 0 <= i < s.len() ==> !forbidden_name_char(s[i])
}

/// Whether the validator accepts `s` as an email address.
///
/// The acceptance is decided by the outside validator and is a function of
/// the characters alone; only the trusted declaration below speaks of it.
pub uninterp spec fn email_ok(s: Seq<char>) -> bool;

/// Relies on validator's `ValidateEmail` for `&str`: acceptance depends on
/// the characters alone, and its source rejects outright an empty string, a
/// string without `@`, an empty part before the last `@` (the local-part
/// pattern admits no character at all and no `@`), and an empty part after
/// the last `@` (neither the domain pattern nor the bracketed-literal
/// pattern admits an empty domain, and an empty domain maps to itself).
#[verifier::external_body]
fn validate_email_str(s: &str) -> (r: bool)
    ensures
        r == email_ok(s@),
        s@.len() == 0 ==> !r,
        !s@.contains('@') ==> !r,
        s@.len() > 0 && s@[0] == '@' ==> !r,
        s@.len() > 0 && s@[s@.len() - 1] == '@' ==> !r,
{
    validator::ValidateEmail::validate_email(&s)
}

/// A subscriber name that satisfies `name_ok`.
pub struct SubscriberName(String);

#[verifier::type_invariant]
spec fn subscriber_name_inv(n: SubscriberName) -> bool {
    name_ok(n.0@)
}

impl View for SubscriberName {
    type V = Seq<char>;

    closed spec fn view(&self) -> Seq<char> {
        self.0@
    }
}

impl SubscriberName {
    /// Accepts `s` exactly when `name_ok` holds of its characters.
    pub fn parse(s: String) -> (r: Result<SubscriberName, String>)
        ensures
            r is Ok <==> name_ok(s@),
            r matches Ok(n) ==> n@ == s@,
            all_space(s@) ==> r is Err,
            s@.len() > name_length_ceiling() ==> r is Err,
            (exists|i: int| 0 <= i < s@.len() && forbidden_name_char(s@[i])) ==> r is Err,
    {
        let chars = str_chars(s.as_str());
        let n = chars.len();
        let mut has_ink: bool = false;
        let mut has_forbidden: bool = false;
        let mut i: usize = 0;
        while i < n
            invariant
                n == chars.len(),
                chars@ == s@,
                i <= n,
                has_ink == exists|j: int| 0 <= j < i && !is_space_char(s@[j]),
                has_forbidden == exists|j: int| 0 <= j < i && forbidden_name_char(s@[j]),
            decreases n - i,
        {
            let c = chars[i];
            if !is_space(c) {
                has_ink = true;
            }
            if c == '/' || c == '(' || c == ')' || c == '"' || c == '<' || c == '>' || c == '\\'
                || c == '{' || c == '}' {
                has_forbidden = true;
            }
            i = i + 1;
        }
        if has_ink && !has_forbidden && n <= 256 {
            Ok(SubscriberName(s))
        } else {
            let mut m = s;
            m.append(" is not a valid subscriber name.");
            Err(m)
        }
    }

    /// The wrapped string, read-only; it always satisfies `name_ok`.
    pub fn as_ref(&self) -> (r: &str)
        ensures
            r@ == self@,
            name_ok(self@),
    {
        proof {
            use_type_invariant(self);
        }
        self.0.as_str()
    }
}

/// An email address that the validator accepts.
pub struct SubscriberEmail(String);

#[verifier::type_invariant]
spec fn subscriber_email_inv(e: SubscriberEmail) -> bool {
    email_ok(e.0@)
}

impl View for SubscriberEmail {
    type V = Seq<char>;

    closed spec fn view(&self) -> Seq<char> {
        self.0@
    }
}

impl SubscriberEmail {
    /// Accepts `s` exactly when the validator does.  A string without `@`,
    /// or with an empty local part or an empty domain part, is rejected.
    pub fn parse(s: String) -> (r: Result<SubscriberEmail, String>)
        ensures
            r is Ok <==> email_ok(s@),
            r matches Ok(e) ==> e@ == s@,
            s@.len() == 0 ==> r is Err,
            !s@.contains('@') ==> r is Err,
            s@.len() > 0 && s@[0] == '@' ==> r is Err,
            s@.len() > 0 && s@[s@.len() - 1] == '@' ==> r is Err,
    {
        if validate_email_str(s.as_str()) {
            Ok(SubscriberEmail(s))
        } else {
            let mut m = s;
            m.append(" is not a valid subscriber email.");
            Err(m)
        }
    }

    /// The wrapped string, read-only; the validator always accepts it.
    pub fn as_ref(&self) -> (r: &str)
        ensures
            r@ == self@,
            email_ok(self@),
    {
        proof {
            use_type_invariant(self);
        }
        self.0.as_str()
    }
}

/// The validated aggregate built from one submission's raw fields.
pub struct NewSubscriber {
    pub email: SubscriberEmail,
    pub name: SubscriberName,
}

impl NewSubscriber {
    /// Builds the aggregate from raw form fields, name first; fails as soon
    /// as either field is rejected, and succeeds exactly when both pass.
    pub fn try_from(value: FormData) -> (r: Result<NewSubscriber, String>)
        ensures
            r is Ok <==> name_ok(value.name@) && email_ok(value.email@),
            r matches Ok(ns) ==> ns.name@ == value.name@ && ns.email@ == value.email@,
    {
        let name = match SubscriberName::parse(value.name) {
            Ok(n) => n,
            Err(e) => {
                return Err(e);
            },
        };
        let email = match SubscriberEmail::parse(value.email) {
            Ok(m) => m,
            Err(e) => {
                return Err(e);
            },
        };
        Ok(NewSubscriber { email, name })
    }
}

} // verus!
