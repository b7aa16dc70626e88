//! The ways in which binding a structure fails, and their messages.
use crate::text::{decimal, decimal_text};
use vstd::prelude::*;

verus! {

/// Why a field, or a whole structure, could not be bound.
#[derive(Debug)]
pub enum EnvManError {
    /// A required field had no test override, no source value and no
    /// default.
    NotFound { key: String },
    /// The selected raw text did not parse as the field's type.
    Parse {
        key: String,
        value: String,
        expected_type: String,
        /// What the parser reported.
        cause: String,
    },
    /// The parsed value was refused by the field's validator.
    Validation { key: String, value: String, message: String },
    /// Several failures together.
    Multiple(Vec<EnvManError>),
}

/// The message of an error.
pub open spec fn rendered(e: EnvManError) -> Seq<char>
    decreases e,
{
    match e {
        EnvManError::NotFound { key } => "failed to read environment variable '"@ + key@ + "'"@,
        EnvManError::Parse { key, value, expected_type, cause: _ } => "failed to parse environment variable '"@
            + key@ + "' with value '"@ + value@ + "' (expected type: "@ + expected_type@ + ")"@,
        EnvManError::Validation { key, value, message } =>
            "validation failed for environment variable '"@ + key@ + "' with value '"@ + value@
            + "': "@ + message@,
        EnvManError::Multiple(errors) =>
            "multiple errors occurred while loading environment variables:\n"@ + listing(errors@),
    }
}

/// The messages of `errors`, each on a line of its own, numbered from one
/// and indented by two spaces.
pub open spec fn listing(errors: Seq<EnvManError>) -> Seq<char>
    decreases errors,
{
    if errors.len() == 0 {
        Seq::empty()
    } else {
        let n = errors.len();
        let line = "  "@ + decimal(n as nat) + ". "@ + rendered(errors[n - 1]);
        if n == 1 {
            line
        } else {
            listing(errors.drop_last()) + "\n"@ + line
        }
    }
}

impl EnvManError {
    /// The error's message: which key failed and why, or for several
    /// failures a header followed by their numbered messages.
    pub fn message(&self) -> (r: String)
        ensures
            r@ == rendered(*self),
        decreases self,
    {
        match self {
            EnvManError::NotFound { key } => {
                let mut s = String::from_str("failed to read environment variable '");
                s.append(key.as_str());
                s.append("'");
                s
            },
            EnvManError::Parse { key, value, expected_type, cause: _ } => {
                let mut s = String::from_str("failed to parse environment variable '");
                s.append(key.as_str());
                s.append("' with value '");
                s.append(value.as_str());
                s.append("' (expected type: ");
                s.append(expected_type.as_str());
                s.append(")");
                s
            },
            EnvManError::Validation { key, value, message } => {
                let mut s = String::from_str("validation failed for environment variable '");
                s.append(key.as_str());
                s.append("' with value '");
                s.append(value.as_str());
                s.append("': ");
                s.append(message.as_str());
                s
            },
            EnvManError::Multiple(errors) => {
                let mut s = String::from_str(
                    "multiple errors occurred while loading environment variables:\n",
                );
                let listed = format_errors(errors.as_slice());
                s.append(listed.as_str());
                s
            },
        }
    }
}

/// The messages of `errors`, one per line, each numbered from one and
/// indented by two spaces (`"  1. ..."`).
pub fn format_errors(errors: &[EnvManError]) -> (r: String)
    ensures
        r@ == listing(errors@),
    decreases errors@,
{
    let mut out = String::new();
    let mut i: usize = 0;
    while i < errors.len()
        invariant
            i <= errors@.len(),
            out@ == listing(errors@.subrange(0, i as int)),
        decreases errors@.len() - i,
    {
        let mut line = String::from_str("  ");
        let number = decimal_text(i + 1);
        line.append(number.as_str());
        line.append(". ");
        let message = errors[i].message();
        line.append(message.as_str());
        if i > 0 {
            out.append("\n");
        }
        out.append(line.as_str());
        assert(errors@.subrange(0, i + 1).drop_last() =~= errors@.subrange(0, i as int));
        i = i + 1;
    }
    assert(errors@.subrange(0, i as int) =~= errors@);
    out
}

} // verus!
