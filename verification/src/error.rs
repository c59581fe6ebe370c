//! The unified error taxonomy: one closed set of failure variants covering
//! configuration, I/O, the five backend domains, validation and
//! serialization, with a deterministic mapping to an HTTP status and a
//! sanitized, externally visible message.

use vstd::prelude::*;

verus! {

/// One field-level validation failure: the offending field and why it was
/// rejected. Carried by [`AppError::Validation`] so that callers can return
/// actionable detail to the client.
#[derive(Debug)]
pub struct FieldError {
    pub field: String,
    pub message: String,
}

/// The closed taxonomy every handler-facing failure ends in. Backend
/// variants carry the driver's own message as an opaque cause string; the
/// HTTP mapping deliberately never shows that text to a client.
#[derive(Debug)]
pub enum AppError {
    /// The merged configuration is missing a field or holds a malformed one.
    Configuration(String),
    /// An I/O fault outside any backend driver.
    Io(String),
    /// The relational pool failed.
    RelationalStore(String),
    /// The document-store client failed.
    DocumentStore(String),
    /// The cache client failed.
    Cache(String),
    /// The message-queue connection failed.
    Queue(String),
    /// The stream producer failed.
    Stream(String),
    /// A request payload failed field validation.
    Validation(Vec<FieldError>),
    /// A request payload could not be decoded.
    Serialization(String),
    /// A failure no other variant describes.
    Unexpected(String),
}

/// The HTTP status each variant maps to: 400 for caller faults
/// (validation, serialization), 500 for everything else.
pub open spec fn http_status(e: &AppError) -> u16 {
    match e {
        AppError::Validation(_) => 400,
        AppError::Serialization(_) => 400,
        _ => 500,
    }
}

/// The rendering of one field error inside the validation detail.
pub open spec fn field_error_line(f: FieldError) -> Seq<char> {
    f.field@ + ": "@ + f.message@ + "; "@
}

/// The full field-level detail carried by a validation failure, one line
/// per field error, in order.
pub open spec fn validation_detail(v: Seq<FieldError>) -> Seq<char>
    decreases v.len(),
{
    if v.len() == 0 {
        Seq::empty()
    } else {
        validation_detail(v.drop_last()) + field_error_line(v.last())
    }
}

/// The externally visible message of each variant. Backend-origin variants
/// map to a fixed generic label; caller faults and startup-only variants
/// carry their full description.
pub open spec fn http_message(e: &AppError) -> Seq<char> {
    match e {
        AppError::Configuration(c) => "configuration error: "@ + c@,
        AppError::Io(c) => "io error: "@ + c@,
        AppError::RelationalStore(_) => "database error"@,
        AppError::DocumentStore(_) => "database error"@,
        AppError::Cache(_) => "cache error"@,
        AppError::Queue(_) => "messaging error"@,
        AppError::Stream(_) => "messaging error"@,
        AppError::Validation(v) => "validation error: "@ + validation_detail(v@),
        AppError::Serialization(c) => "serialization error: "@ + c@,
        AppError::Unexpected(c) => "unexpected error: "@ + c@,
    }
}

/// Renders the field-level detail of a validation failure.
pub fn render_validation_detail(v: &Vec<FieldError>) -> (r: String)
    ensures
        r@ == validation_detail(v@),
{
    let mut out = String::new();
    let mut i: usize = 0;
    while i < v.len()
        invariant
            i <= v.len(),
            out@ == validation_detail(v@.take(i as int)),
        decreases v.len() - i,
    {
        out.append(v[i].field.as_str());
        out.append(": ");
        out.append(v[i].message.as_str());
        out.append("; ");
        proof {
            assert(v@.take(i + 1).drop_last() =~= v@.take(i as int));
            assert(out@ =~= validation_detail(v@.take(i + 1)));
        }
        i = i + 1;
    }
    proof {
        assert(v@.take(v.len() as int) =~= v@);
    }
    out
}

impl AppError {
    /// Converts the taxonomy member into its HTTP response pair: the status
    /// code and the sanitized message a client may see.
    pub fn status_and_message(&self) -> (r: (u16, String))
        ensures
            r.0 == http_status(self),
            r.1@ == http_message(self),
    {
        match self {
            AppError::Configuration(c) => (
                500,
                String::from_str("configuration error: ").concat(c.as_str()),
            ),
            AppError::Io(c) => (500, String::from_str("io error: ").concat(c.as_str())),
            AppError::RelationalStore(_) => (500, String::from_str("database error")),
            AppError::DocumentStore(_) => (500, String::from_str("database error")),
            AppError::Cache(_) => (500, String::from_str("cache error")),
            AppError::Queue(_) => (500, String::from_str("messaging error")),
            AppError::Stream(_) => (500, String::from_str("messaging error")),
            AppError::Validation(v) => (
                400,
                String::from_str("validation error: ").concat(render_validation_detail(v).as_str()),
            ),
            AppError::Serialization(c) => (
                400,
                String::from_str("serialization error: ").concat(c.as_str()),
            ),
            AppError::Unexpected(c) => (500, String::from_str("unexpected error: ").concat(c.as_str())),
        }
    }
}

/// Whether the variant wraps one of the five backend failure domains, whose
/// visible message must not leak internal topology.
pub open spec fn is_backend_error(e: &AppError) -> bool {
    e is RelationalStore || e is DocumentStore || e is Cache || e is Queue || e is Stream
}

/// Whether two taxonomy members are the same variant, whatever cause each
/// carries.
pub open spec fn same_variant(e1: &AppError, e2: &AppError) -> bool {
    ||| (e1 is Configuration && e2 is Configuration)
    ||| (e1 is Io && e2 is Io)
    ||| (e1 is RelationalStore && e2 is RelationalStore)
    ||| (e1 is DocumentStore && e2 is DocumentStore)
    ||| (e1 is Cache && e2 is Cache)
    ||| (e1 is Queue && e2 is Queue)
    ||| (e1 is Stream && e2 is Stream)
    ||| (e1 is Validation && e2 is Validation)
    ||| (e1 is Serialization && e2 is Serialization)
    ||| (e1 is Unexpected && e2 is Unexpected)
}

/// Law: the HTTP mapping is exhaustive and stable. Every variant maps to
/// exactly one status, two variants of the same kind always share that
/// status, and the only 400s are the two caller-fault variants.
pub proof fn lemma_http_mapping_exhaustive(e1: &AppError, e2: &AppError)
    ensures
        http_status(e1) == 400 || http_status(e1) == 500,
        http_status(e1) == 400 <==> (e1 is Validation || e1 is Serialization),
        same_variant(e1, e2) ==> http_status(e1) == http_status(e2),
{
}

/// Law: a backend-origin failure maps to a 500 whose message is a fixed
/// generic label, independent of the wrapped cause — so the raw driver text
/// never reaches a client.
pub proof fn lemma_backend_message_hides_cause(e1: &AppError, e2: &AppError)
    requires
        is_backend_error(e1),
        same_variant(e1, e2),
    ensures
        http_status(e1) == 500,
        http_message(e1) == http_message(e2),
{
}

} // verus!
