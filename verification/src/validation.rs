//! The validation layer: the declarative rule set for the signup payload,
//! applied before anything reaches the service layer. Violations are
//! accumulated across every field, not cut short at the first.

use vstd::prelude::*;
use vstd::string::{StringExecFns, StrSliceExecFns};

use crate::errors::{entries_model, AppError, FieldError, FieldErrorModel};
use crate::json::{append_u64, dec_str};

verus! {

/// The signup request payload as deserialized: every field optional, so
/// that a missing field is reported as a rule violation, not a parse error.
pub struct SignUpUserDto {
    pub name: Option<String>,
    pub email: Option<String>,
    pub password: Option<String>,
}

impl Clone for SignUpUserDto {
    fn clone(&self) -> (r: Self)
        ensures
            r == *self,
    {
        SignUpUserDto {
            name: match &self.name {
                Some(s) => Some(s.clone()),
                None => None,
            },
            email: match &self.email {
                Some(s) => Some(s.clone()),
                None => None,
            },
            password: match &self.password {
                Some(s) => Some(s.clone()),
                None => None,
            },
        }
    }
}

/// The characters of an optional field, empty when absent.
pub open spec fn opt_str(o: Option<String>) -> Seq<char> {
    match o {
        Some(s) => s@,
        None => Seq::<char>::empty(),
    }
}

/// The message for a missing field, synthesized from the field name alone.
pub open spec fn required_msg(field: Seq<char>) -> Seq<char> {
    field + " is required"@
}

/// The message synthesized for a violated minimum-length rule from its one
/// parameter.
pub open spec fn min_msg(n: nat) -> Seq<char> {
    "min value is "@ + dec_str(n)
}

/// What the email rule reports with: its declared message.
pub open spec fn email_invalid_msg() -> Seq<char> {
    "email is invalid"@
}

/// Whether a string satisfies the email syntax the validation layer
/// recognizes. Named, not spelled out: the syntax is the outside rule set's.
pub uninterp spec fn email_ok(s: Seq<char>) -> bool;

/// Relies on validator's `ValidateEmail::validate_email` for `&str`: the
/// HTML5 email-syntax check, a pure function of the characters; an empty
/// string is never a valid email.
#[verifier::external_body]
fn check_email(s: &str) -> (r: bool)
    ensures
        r == email_ok(s@),
        s@.len() == 0 ==> r == false,
{
    validator::ValidateEmail::validate_email(&s)
}

/// The messages collected for `name`: required, then non-empty.
pub open spec fn name_messages(p: SignUpUserDto) -> Seq<Seq<char>> {
    match p.name {
        None => seq![required_msg("name"@)],
        Some(s) => if s@.len() < 1 {
            seq![min_msg(1)]
        } else {
            Seq::<Seq<char>>::empty()
        },
    }
}

/// The messages collected for `email`: required, then non-empty, then the
/// email syntax; every violated rule reports, in rule order.
pub open spec fn email_messages(p: SignUpUserDto) -> Seq<Seq<char>> {
    match p.email {
        None => seq![required_msg("email"@)],
        Some(s) => (if s@.len() < 1 {
            seq![min_msg(1)]
        } else {
            Seq::<Seq<char>>::empty()
        }) + (if !email_ok(s@) {
            seq![email_invalid_msg()]
        } else {
            Seq::<Seq<char>>::empty()
        }),
    }
}

/// The messages collected for `password`: required, then minimum length 6.
pub open spec fn password_messages(p: SignUpUserDto) -> Seq<Seq<char>> {
    match p.password {
        None => seq![required_msg("password"@)],
        Some(s) => if s@.len() < 6 {
            seq![min_msg(6)]
        } else {
            Seq::<Seq<char>>::empty()
        },
    }
}

/// A field's entry in the violation list: present exactly when it has
/// messages.
pub open spec fn field_entry(field: Seq<char>, msgs: Seq<Seq<char>>) -> Seq<FieldErrorModel> {
    if msgs.len() == 0 {
        Seq::<FieldErrorModel>::empty()
    } else {
        seq![FieldErrorModel { field, messages: msgs }]
    }
}

/// Every violated field of the payload with all its messages, in field
/// order.
pub open spec fn signup_violations(p: SignUpUserDto) -> Seq<FieldErrorModel> {
    field_entry("name"@, name_messages(p)) + field_entry("email"@, email_messages(p)) + field_entry(
        "password"@,
        password_messages(p),
    )
}

/// A payload that violates no rule.
pub open spec fn signup_valid(p: SignUpUserDto) -> bool {
    signup_violations(p).len() == 0
}

fn required_message(field: &str) -> (r: String)
    ensures
        r@ == required_msg(field@),
{
    let mut s = field.to_owned();
    s.append(" is required");
    s
}

fn min_rule_message(n: u64) -> (r: String)
    ensures
        r@ == min_msg(n as nat),
{
    let mut s = String::from_str("min value is ");
    append_u64(&mut s, n);
    s
}

/// The validated-input extractor: it admits a payload only when every rule
/// passes, and otherwise reports every violation of every field at once.
pub struct ValidationExtractor(pub SignUpUserDto);

impl ValidationExtractor {
    /// Applies the whole rule set to a deserialized payload.
    pub fn from_payload(payload: SignUpUserDto) -> (r: Result<ValidationExtractor, AppError>)
        ensures
            match r {
                Ok(ex) => signup_valid(payload) && ex.0 == payload,
                Err(e) => !signup_valid(payload) && (e matches AppError::ValidationError(entries)
                    && entries_model(entries@) == signup_violations(payload)),
            },
    {
        let mut entries: Vec<FieldError> = Vec::new();
        match &payload.name {
            None => {
                let mut msgs: Vec<String> = Vec::new();
                msgs.push(required_message("name"));
                entries.push(FieldError { field: String::from_str("name"), messages: msgs });
            },
            Some(s) => {
                if s.as_str().unicode_len() < 1 {
                    let mut msgs: Vec<String> = Vec::new();
                    msgs.push(min_rule_message(1));
                    entries.push(FieldError { field: String::from_str("name"), messages: msgs });
                }
            },
        }
        proof {
            assert(entries_model(entries@) =~~= field_entry("name"@, name_messages(payload)));
        }
        let ghost after_name = entries_model(entries@);
        match &payload.email {
            None => {
                let mut msgs: Vec<String> = Vec::new();
                msgs.push(required_message("email"));
                entries.push(FieldError { field: String::from_str("email"), messages: msgs });
            },
            Some(s) => {
                let mut msgs: Vec<String> = Vec::new();
                if s.as_str().unicode_len() < 1 {
                    msgs.push(min_rule_message(1));
                }
                if !check_email(s.as_str()) {
                    msgs.push(String::from_str("email is invalid"));
                }
                if msgs.len() > 0 {
                    entries.push(FieldError { field: String::from_str("email"), messages: msgs });
                }
            },
        }
        proof {
            assert(entries_model(entries@) =~~= after_name + field_entry(
                "email"@,
                email_messages(payload),
            ));
        }
        let ghost after_email = entries_model(entries@);
        match &payload.password {
            None => {
                let mut msgs: Vec<String> = Vec::new();
                msgs.push(required_message("password"));
                entries.push(FieldError { field: String::from_str("password"), messages: msgs });
            },
            Some(s) => {
                if s.as_str().unicode_len() < 6 {
                    let mut msgs: Vec<String> = Vec::new();
                    msgs.push(min_rule_message(6));
                    entries.push(FieldError { field: String::from_str("password"), messages: msgs });
                }
            },
        }
        proof {
            assert(entries_model(entries@) =~~= after_email + field_entry(
                "password"@,
                password_messages(payload),
            ));
            assert(entries_model(entries@) =~~= signup_violations(payload));
        }
        if entries.len() > 0 {
            Err(AppError::ValidationError(entries))
        } else {
            Ok(ValidationExtractor(payload))
        }
    }
}

} // verus!
