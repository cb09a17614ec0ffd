//! The closed error taxonomy, and its deterministic mapping to an HTTP
//! status code and a JSON body.

use vstd::prelude::*;
use vstd::string::StringExecFns;

use crate::json::{append_json_string, append_string_list, error_body_spec, json_string_list};

verus! {

/// One field of a rejected payload together with every violation message
/// collected for it, in rule order.
pub struct FieldError {
    pub field: String,
    pub messages: Vec<String>,
}

/// The mathematical value of a `FieldError`.
#[verifier::ext_equal]
pub struct FieldErrorModel {
    pub field: Seq<char>,
    pub messages: Seq<Seq<char>>,
}

impl View for FieldError {
    type V = FieldErrorModel;

    open spec fn view(&self) -> FieldErrorModel {
        FieldErrorModel { field: self.field@, messages: self.messages@.map_values(|m: String| m@) }
    }
}

/// The models of a list of field errors, in order.
pub open spec fn entries_model(entries: Seq<FieldError>) -> Seq<FieldErrorModel> {
    entries.map_values(|e: FieldError| e@)
}

/// Every failure the pipeline can produce. Validation failures carry the
/// full list of violated fields; store and identifier failures reach the
/// client only as a generic internal error.
pub enum AppError {
    NotFound(String),
    BadRequest(String),
    Unauthorized,
    Forbidden,
    InternalServerError,
    InternalServerErrorWithContext(String),
    Conflict(String),
    PreconditionFailed(String),
    MalformedRequest(String),
    ValidationError(Vec<FieldError>),
    StoreError(String),
    InvalidIdentifier,
}

/// The HTTP status each error kind maps to.
pub open spec fn status_of(e: AppError) -> int {
    match e {
        AppError::NotFound(_) => 404,
        AppError::BadRequest(_) => 400,
        AppError::Unauthorized => 401,
        AppError::Forbidden => 403,
        AppError::InternalServerError => 500,
        AppError::InternalServerErrorWithContext(_) => 500,
        AppError::Conflict(_) => 409,
        AppError::PreconditionFailed(_) => 412,
        AppError::MalformedRequest(_) => 400,
        AppError::ValidationError(_) => 400,
        AppError::StoreError(_) => 500,
        AppError::InvalidIdentifier => 500,
    }
}

/// The message carried to the client for every kind but validation
/// failures. Unauthorized, forbidden and all internal kinds use fixed
/// wording; the rest carry their own message.
pub open spec fn message_of(e: AppError) -> Seq<char> {
    match e {
        AppError::NotFound(m) => m@,
        AppError::BadRequest(m) => m@,
        AppError::Unauthorized => "authentication is required to access this resource"@,
        AppError::Forbidden => "user does not have privilege to access this resource"@,
        AppError::InternalServerError => "unexpected error has occurred"@,
        AppError::InternalServerErrorWithContext(m) => m@,
        AppError::Conflict(m) => m@,
        AppError::PreconditionFailed(m) => m@,
        AppError::MalformedRequest(m) => m@,
        AppError::ValidationError(_) => Seq::<char>::empty(),
        AppError::StoreError(_) => "unexpected error has occurred"@,
        AppError::InvalidIdentifier => "unexpected error has occurred"@,
    }
}

/// The body of a validation failure: an object mapping each violated field
/// to the array of its messages.
pub open spec fn validation_body_spec(entries: Seq<FieldErrorModel>) -> Seq<char> {
    "{\"errors\":{"@ + entries_body(entries) + "}}"@
}

/// The comma-separated `"field":[messages]` members of the error map.
pub open spec fn entries_body(entries: Seq<FieldErrorModel>) -> Seq<char>
    decreases entries.len(),
{
    if entries.len() == 0 {
        Seq::<char>::empty()
    } else if entries.len() == 1 {
        entry_body(entries[0])
    } else {
        entries_body(entries.drop_last()) + seq![','] + entry_body(entries.last())
    }
}

/// One `"field":[messages]` member.
pub open spec fn entry_body(e: FieldErrorModel) -> Seq<char> {
    crate::json::json_string(e.field) + seq![':', '['] + json_string_list(e.messages) + seq![']']
}

/// The body every error kind but validation failures maps to.
pub open spec fn body_of(e: AppError) -> Seq<char> {
    match e {
        AppError::ValidationError(entries) => validation_body_spec(entries_model(entries@)),
        _ => error_body_spec(message_of(e)),
    }
}

/// A single-message error body, as serialized.
pub struct HttpError {
    pub error: String,
}

impl HttpError {
    pub fn new(error: String) -> (r: Self)
        ensures
            r.error == error,
    {
        Self { error }
    }

    /// Renders `{"error":<message>}` with the message escaped.
    pub fn to_json(&self) -> (r: String)
        ensures
            r@ == error_body_spec(self.error@),
    {
        error_body_of(self.error.as_str())
    }
}

/// Renders the `{"error":<message>}` body for a message.
pub fn error_body_of(message: &str) -> (r: String)
    ensures
        r@ == error_body_spec(message@),
{
    let mut body = String::from_str("{\"error\":");
    append_json_string(&mut body, message);
    body.push('}');
    proof {
        assert(body@ =~= error_body_spec(message@));
    }
    body
}

/// Renders the `{"errors":{...}}` body of a validation failure.
pub fn validation_body_of(entries: &Vec<FieldError>) -> (r: String)
    ensures
        r@ == validation_body_spec(entries_model(entries@)),
{
    let ghost model = entries_model(entries@);
    let mut body = String::from_str("{\"errors\":{");
    let n = entries.len();
    let mut i: usize = 0;
    while i < n
        invariant
            n == entries@.len(),
            i <= n,
            model == entries_model(entries@),
            body@ == "{\"errors\":{"@ + entries_body(model.take(i as int)),
        decreases n - i,
    {
        if i > 0 {
            body.push(',');
        }
        append_json_string(&mut body, entries[i].field.as_str());
        body.push(':');
        body.push('[');
        append_string_list(&mut body, &entries[i].messages);
        body.push(']');
        proof {
            assert(model.take(i as int + 1).drop_last() =~= model.take(i as int));
            assert(model.take(i as int + 1).last() == model[i as int]);
            assert(body@ =~= "{\"errors\":{"@ + entries_body(model.take(i as int + 1)));
        }
        i = i + 1;
    }
    proof {
        assert(model.take(n as int) =~= model);
    }
    body.push('}');
    body.push('}');
    proof {
        reveal_strlit("}}");
        assert("}}"@ =~= seq!['}', '}']);
        assert(body@ =~= validation_body_spec(model));
    }
    body
}

impl AppError {
    /// Maps the collected field violations to the 400 response carrying the
    /// whole field-to-messages map.
    pub fn unprocessable_entity(entries: &Vec<FieldError>) -> (r: (u16, String))
        ensures
            r.0 == 400,
            r.1@ == validation_body_spec(entries_model(entries@)),
    {
        (400, validation_body_of(entries))
    }

    /// The single point of translation to a response: the status code of the
    /// kind, and the body shape the taxonomy fixes for it.
    pub fn into_response(self) -> (r: (u16, String))
        ensures
            r.0 as int == status_of(self),
            r.1@ == body_of(self),
    {
        match self {
            AppError::ValidationError(entries) => Self::unprocessable_entity(&entries),
            AppError::NotFound(m) => (404, error_body_of(m.as_str())),
            AppError::BadRequest(m) => (400, error_body_of(m.as_str())),
            AppError::Unauthorized => (
                401,
                error_body_of("authentication is required to access this resource"),
            ),
            AppError::Forbidden => (
                403,
                error_body_of("user does not have privilege to access this resource"),
            ),
            AppError::InternalServerError => (500, error_body_of("unexpected error has occurred")),
            AppError::InternalServerErrorWithContext(m) => (500, error_body_of(m.as_str())),
            AppError::Conflict(m) => (409, error_body_of(m.as_str())),
            AppError::PreconditionFailed(m) => (412, error_body_of(m.as_str())),
            AppError::MalformedRequest(m) => (400, error_body_of(m.as_str())),
            AppError::StoreError(_) => (500, error_body_of("unexpected error has occurred")),
            AppError::InvalidIdentifier => (500, error_body_of("unexpected error has occurred")),
        }
    }
}

} // verus!
