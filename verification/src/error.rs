//! The error model: a structured error value carrying a symbolic category and
//! an optional free-text message, with structural equality, a default
//! rendering that shows the category alone, and constructors for the three
//! ways a call site supplies (or omits) a message.

use vstd::prelude::*;
use vstd::string::StringExecFns;
use crate::interpolate::interpolate;
use crate::interpolate::interpolated;
use crate::interpolate::views_of;

verus! {

/// The class of a failure. The set is open to extension: new categories may
/// be added over time, so code outside this crate that matches over it must
/// keep a catch-all arm.
#[derive(Debug, PartialEq, Eq, Structural)]
#[non_exhaustive]
pub enum ErrorVariant {
    FFI,
    TypeParse,
    FailedFunction,
    FailedMap,
    RelationDebug,
    FailedCast,
    DomainMismatch,
    MetricMismatch,
    MeasureMismatch,
    MakeDomain,
    MakeTransformation,
    MakeMeasurement,
    InvalidDistance,
    NotImplemented,
}

/// What went wrong: a category, and an optional diagnostic message. Immutable
/// once constructed; equality is structural over both fields.
#[derive(Debug)]
pub struct Error {
    pub variant: ErrorVariant,
    pub message: Option<String>,
}

/// The standard two-armed return shape: a value, or an `Error`.
pub type Fallible<T> = Result<T, Error>;

/// The message as a mathematical value: absent, or the character sequence of
/// the stored text.
pub open spec fn message_view(m: Option<String>) -> Option<Seq<char>> {
    match m {
        Some(s) => Some(s@),
        None => None,
    }
}

/// Structural equality of errors: the categories agree and the optional
/// messages agree (absent matches only absent, present matches present with
/// the same text).
pub open spec fn err_eq_spec(a: Error, b: Error) -> bool {
    a.variant == b.variant && message_view(a.message) == message_view(b.message)
}

/// The symbolic name of each category, as rendered by the default display.
pub open spec fn variant_name(v: ErrorVariant) -> Seq<char> {
    match v {
        ErrorVariant::FFI => "FFI"@,
        ErrorVariant::TypeParse => "TypeParse"@,
        ErrorVariant::FailedFunction => "FailedFunction"@,
        ErrorVariant::FailedMap => "FailedMap"@,
        ErrorVariant::RelationDebug => "RelationDebug"@,
        ErrorVariant::FailedCast => "FailedCast"@,
        ErrorVariant::DomainMismatch => "DomainMismatch"@,
        ErrorVariant::MetricMismatch => "MetricMismatch"@,
        ErrorVariant::MeasureMismatch => "MeasureMismatch"@,
        ErrorVariant::MakeDomain => "MakeDomain"@,
        ErrorVariant::MakeTransformation => "MakeTransformation"@,
        ErrorVariant::MakeMeasurement => "MakeMeasurement"@,
        ErrorVariant::InvalidDistance => "InvalidDistance"@,
        ErrorVariant::NotImplemented => "NotImplemented"@,
    }
}

impl ErrorVariant {
    /// The category's symbolic name.
    pub fn as_str(&self) -> (r: &'static str)
        ensures
            r@ == variant_name(*self),
    {
        match self {
            ErrorVariant::FFI => "FFI",
            ErrorVariant::TypeParse => "TypeParse",
            ErrorVariant::FailedFunction => "FailedFunction",
            ErrorVariant::FailedMap => "FailedMap",
            ErrorVariant::RelationDebug => "RelationDebug",
            ErrorVariant::FailedCast => "FailedCast",
            ErrorVariant::DomainMismatch => "DomainMismatch",
            ErrorVariant::MetricMismatch => "MetricMismatch",
            ErrorVariant::MeasureMismatch => "MeasureMismatch",
            ErrorVariant::MakeDomain => "MakeDomain",
            ErrorVariant::MakeTransformation => "MakeTransformation",
            ErrorVariant::MakeMeasurement => "MakeMeasurement",
            ErrorVariant::InvalidDistance => "InvalidDistance",
            ErrorVariant::NotImplemented => "NotImplemented",
        }
    }
}

impl Error {
    /// Construct from a category alone: the message is absent. This path
    /// performs no allocation for a message.
    pub fn new(variant: ErrorVariant) -> (r: Error)
        ensures
            r.variant == variant,
            r.message is None,
    {
        Error { variant, message: None }
    }

    /// Construct from a category and explicit message text.
    pub fn with_message(variant: ErrorVariant, message: &str) -> (r: Error)
        ensures
            r.variant == variant,
            message_view(r.message) == Some(message@),
    {
        Error { variant, message: Some(String::from_str(message)) }
    }

    /// Construct from a category, a template, and arguments to substitute
    /// into the template's `{}` placeholders, in order.
    pub fn with_template(variant: ErrorVariant, template: &str, args: &Vec<String>) -> (r: Error)
        ensures
            r.variant == variant,
            message_view(r.message) == Some(interpolated(template@, views_of(args@))),
    {
        Error { variant, message: Some(interpolate(template, args)) }
    }

    /// The default human-readable rendering: the category's symbolic name
    /// alone. The message never appears in it; callers that want the message
    /// read the field directly.
    pub fn to_display_string(&self) -> (r: String)
        ensures
            r@ == variant_name(self.variant),
    {
        String::from_str(self.variant.as_str())
    }
}

impl PartialEq for Error {
    fn eq(&self, other: &Self) -> (r: bool) {
        let variants_match = self.variant == other.variant;
        let messages_match = match (&self.message, &other.message) {
            (Some(a), Some(b)) => a.eq(b),
            (None, None) => true,
            _ => false,
        };
        variants_match && messages_match
    }
}

impl vstd::std_specs::cmp::PartialEqSpecImpl for Error {
    open spec fn obeys_eq_spec() -> bool {
        true
    }

    open spec fn eq_spec(&self, other: &Error) -> bool {
        err_eq_spec(*self, *other)
    }
}

impl From<ErrorVariant> for Error {
    fn from(variant: ErrorVariant) -> (r: Error) {
        Error { variant, message: None }
    }
}

impl vstd::std_specs::convert::FromSpecImpl<ErrorVariant> for Error {
    open spec fn obeys_from_spec() -> bool {
        true
    }

    open spec fn from_spec(variant: ErrorVariant) -> Error {
        Error { variant, message: None }
    }
}

impl<T> From<Error> for Result<T, Error> {
    fn from(e: Error) -> (r: Result<T, Error>) {
        Err(e)
    }
}

impl<T> vstd::std_specs::convert::FromSpecImpl<Error> for Result<T, Error> {
    open spec fn obeys_from_spec() -> bool {
        true
    }

    open spec fn from_spec(e: Error) -> Result<T, Error> {
        Err(e)
    }
}

/// Build a failure-wrapped result from a category alone: the failure arm
/// holds an error with an absent message, for any success type.
pub fn fallible_new<T>(variant: ErrorVariant) -> (r: Fallible<T>)
    ensures
        r is Err,
        (r->Err_0).variant == variant,
        (r->Err_0).message is None,
{
    Err(Error::new(variant))
}

/// Build a failure-wrapped result from a category and explicit message text.
pub fn fallible_with_message<T>(variant: ErrorVariant, message: &str) -> (r: Fallible<T>)
    ensures
        r is Err,
        (r->Err_0).variant == variant,
        message_view((r->Err_0).message) == Some(message@),
{
    Err(Error::with_message(variant, message))
}

/// Build a failure-wrapped result from a category, a template, and arguments.
pub fn fallible_with_template<T>(variant: ErrorVariant, template: &str, args: &Vec<String>) -> (r:
    Fallible<T>)
    ensures
        r is Err,
        (r->Err_0).variant == variant,
        message_view((r->Err_0).message) == Some(interpolated(template@, views_of(args@))),
{
    Err(Error::with_template(variant, template, args))
}

/// Law: equality of errors is reflexive.
pub proof fn lemma_eq_reflexive(e: Error)
    ensures
        err_eq_spec(e, e),
{
}

/// Law: equality of errors is symmetric.
pub proof fn lemma_eq_symmetric(a: Error, b: Error)
    ensures
        err_eq_spec(a, b) == err_eq_spec(b, a),
{
}

/// Law: two errors whose messages differ are never equal, whatever their
/// categories.
pub proof fn lemma_differing_messages_unequal(a: Error, b: Error)
    requires
        message_view(a.message) != message_view(b.message),
    ensures
        !err_eq_spec(a, b),
{
}

/// Law: an error built from a template and arguments equals any error of the
/// same category built directly from the interpolated message text — the
/// templated and pre-formatted construction paths agree.
pub proof fn lemma_templated_equals_preformatted(a: Error, b: Error, t: Seq<char>, args: Seq<
    Seq<char>,
>)
    requires
        a.variant == b.variant,
        message_view(a.message) == Some::<Seq<char>>(interpolated(t, args)),
        message_view(b.message) == Some::<Seq<char>>(interpolated(t, args)),
    ensures
        err_eq_spec(a, b),
{
}

/// Law: the default rendering depends on the category alone; two errors of
/// one category render identically, whatever messages they carry.
pub proof fn lemma_rendering_ignores_message(a: Error, b: Error)
    requires
        a.variant == b.variant,
    ensures
        variant_name(a.variant) == variant_name(b.variant),
{
}

/// Law: a failure-wrapped result built from a bare category holds an error
/// equal to the one produced by direct category-only construction.
pub proof fn lemma_promotion_equals_direct<T>(r: Fallible<T>, direct: Error)
    requires
        r is Err,
        (r->Err_0).variant == direct.variant,
        (r->Err_0).message is None,
        direct.message is None,
    ensures
        err_eq_spec(r->Err_0, direct),
{
}

} // verus!
