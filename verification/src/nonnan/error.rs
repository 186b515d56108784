use std::num::ParseFloatError;
use vstd::prelude::*;

verus! {

/// The error that the standard library reports for text that is no
/// floating-point literal. Its contents are not visible here.
#[verifier::external_type_specification]
#[verifier::external_body]
pub struct ExParseFloatError(ParseFloatError);

/// `Clone::clone` of the standard library's parse error: the copy is the same error.
pub assume_specification[ <ParseFloatError as Clone>::clone ](e: &ParseFloatError) -> (r:
    ParseFloatError)
    ensures
        r == *e,
;

/// ParseNonNanError is the error returned when parsing a `NonNan` from a string.  It will either
/// be any underlying error from the floating-point parsing code, or an indicator that the parsed
/// value is `NaN`.
#[derive(Debug, Clone, PartialEq)]
pub enum ParseNonNanError {
    /// The value that was parsed is NaN.
    ValueIsNaN,
    /// There was an error parsing the underlying float.
    ParseError(ParseFloatError),
}

/// The text that the standard library renders for its parse error: the
/// parser's own diagnostic. It depends on the error alone.
pub uninterp spec fn float_error_text(e: ParseFloatError) -> Seq<char>;

/// Renders the standard library's parse error with `ToString::to_string`.
/// The result is the text named above; nothing is claimed of what it reads.
#[verifier::external_body]
fn render_float_error(e: &ParseFloatError) -> (r: String)
    ensures
        r@ == float_error_text(*e),
{
    e.to_string()
}

impl ParseNonNanError {
    /// The short name of the failure.
    pub open spec fn description_spec(&self) -> Seq<char> {
        match self {
            ParseNonNanError::ValueIsNaN => "value is NaN"@,
            ParseNonNanError::ParseError(_) => "parse error"@,
        }
    }

    /// The short name of the failure: `"value is NaN"` or `"parse error"`.
    pub fn description(&self) -> (r: &'static str)
        ensures
            r@ == self.description_spec(),
    {
        match self {
            ParseNonNanError::ValueIsNaN => "value is NaN",
            ParseNonNanError::ParseError(_) => "parse error",
        }
    }

    /// The underlying parse failure, present exactly when the text was no
    /// floating-point literal.
    pub fn cause(&self) -> (r: Option<&ParseFloatError>)
        ensures
            match *self {
                ParseNonNanError::ValueIsNaN => r.is_none(),
                ParseNonNanError::ParseError(e) => r == Some(&e),
            },
    {
        match self {
            ParseNonNanError::ValueIsNaN => None,
            ParseNonNanError::ParseError(e) => Some(e),
        }
    }

    /// Whether the text was a literal whose value is `NaN`.
    pub fn is_value_nan(&self) -> (r: bool)
        ensures
            r == (*self is ValueIsNaN),
    {
        match self {
            ParseNonNanError::ValueIsNaN => true,
            ParseNonNanError::ParseError(_) => false,
        }
    }

    /// The message of the failure.
    pub open spec fn message_spec(&self) -> Seq<char> {
        match *self {
            ParseNonNanError::ValueIsNaN => "value is NaN"@,
            ParseNonNanError::ParseError(e) => float_error_text(e),
        }
    }

    /// The message of the failure: `"value is NaN"`, or the underlying parse
    /// failure's own rendering, unchanged.
    pub fn message(&self) -> (r: String)
        ensures
            r@ == self.message_spec(),
    {
        match self {
            ParseNonNanError::ValueIsNaN => "value is NaN".to_string(),
            ParseNonNanError::ParseError(e) => render_float_error(e),
        }
    }
}

} // verus!
