//! The value-resolution pipeline: which raw input a field takes, and how
//! that input is parsed and validated.
//!
//! Parsers and validators are closures of the caller. The contracts say
//! which text each parser call is handed and which value each validator
//! call is handed, and how each result that the closure may return decides
//! the field's result.
use crate::error::EnvManError;
use crate::text::{pieces, split, trim, trimmed, views};
use vstd::prelude::*;

verus! {

/// What a field falls back on: nothing, a ready value, or text that goes
/// through the field's parser and validator as a source value does.
pub enum Fallback<T> {
    Unset,
    Value(T),
    Text(String),
}

impl<T> Fallback<T> {
    /// Whether there is something to fall back on.
    pub fn is_set(&self) -> (r: bool)
        ensures
            r == !(self is Unset),
    {
        match self {
            Fallback::Unset => false,
            _ => true,
        }
    }
}

/// The view of an optional string.
pub open spec fn opt_view(s: Option<String>) -> Option<Seq<char>> {
    match s {
        Some(t) => Some(t@),
        None => None,
    }
}

/// Whether a test override is in force: test mode is on and the field has
/// one.
pub open spec fn override_active<T>(test_mode: bool, test: Fallback<T>) -> bool {
    test_mode && !(test is Unset)
}

/// Whether the priority chain finds no input at all: no override in force,
/// no source value, no default.
pub open spec fn nothing_selected<T>(
    test_mode: bool,
    test: Fallback<T>,
    found: Option<Seq<char>>,
    default: Fallback<T>,
) -> bool {
    !override_active(test_mode, test) && found is None && default is Unset
}

/// Whether `r` reports the field `key` as not found.
pub open spec fn missing<T>(r: Result<T, EnvManError>, key: Seq<char>) -> bool {
    match r {
        Err(EnvManError::NotFound { key: k }) => k@ == key,
        _ => false,
    }
}

/// Whether `parser` may give `out` for a string that holds `text`.
pub open spec fn parses_to<T, P: Fn(&str) -> Result<T, String>>(
    parser: P,
    text: Seq<char>,
    out: Result<T, String>,
) -> bool {
    exists|s: &str| s@ == text && #[trigger] parser.ensures((s,), out)
}

/// Whether `validator` may give `verdict` for `value`.
pub open spec fn judged<T, V: Fn(&T) -> Result<(), String>>(
    validator: V,
    value: T,
    verdict: Result<(), String>,
) -> bool {
    validator.ensures((&value,), verdict)
}

/// Whether `validator` may accept `value`.
pub open spec fn passes<T, V: Fn(&T) -> Result<(), String>>(validator: V, value: T) -> bool {
    exists|verdict: Result<(), String>| verdict is Ok && #[trigger] judged(validator, value, verdict)
}

/// Whether `input` may parse to a value that `validator` refuses with
/// `message`.
pub open spec fn refused<T, P: Fn(&str) -> Result<T, String>, V: Fn(&T) -> Result<(), String>>(
    parser: P,
    validator: V,
    input: Seq<char>,
    message: String,
) -> bool {
    exists|v: T| parses_to(parser, input, Ok(v)) && #[trigger] judged(validator, v, Err(message))
}

/// Whether `r` may come of parsing `input` and validating what it parses
/// to, for the field `key`; a failure reports the text `shown`.
pub open spec fn text_outcome<T, P: Fn(&str) -> Result<T, String>, V: Fn(&T) -> Result<(), String>>(
    parser: P,
    validator: V,
    key: Seq<char>,
    expected: Seq<char>,
    input: Seq<char>,
    shown: Seq<char>,
    r: Result<T, EnvManError>,
) -> bool {
    match r {
        Ok(v) => parses_to(parser, input, Ok(v)) && passes(validator, v),
        Err(EnvManError::Parse { key: k, value, expected_type, cause }) => {
            &&& k@ == key
            &&& value@ == shown
            &&& expected_type@ == expected
            &&& parses_to(parser, input, Err(cause))
        },
        Err(EnvManError::Validation { key: k, value, message }) => {
            &&& k@ == key
            &&& value@ == shown
            &&& refused(parser, validator, input, message)
        },
        _ => false,
    }
}

/// Parses `input` and validates the value; a failure names `key` and
/// reports the text `shown`.
fn parse_checked<T, P: Fn(&str) -> Result<T, String>, V: Fn(&T) -> Result<(), String>>(
    key: &str,
    expected: &str,
    input: &str,
    shown: &str,
    parser: &P,
    validator: &V,
) -> (r: Result<T, EnvManError>)
    requires
        forall|s: &str| parser.requires((s,)),
        forall|v: &T| validator.requires((v,)),
    ensures
        text_outcome(*parser, *validator, key@, expected@, input@, shown@, r),
{
    let parsed = parser(input);
    assert(parses_to(*parser, input@, parsed));
    match parsed {
        Err(cause) => Err(
            EnvManError::Parse {
                key: key.to_owned(),
                value: shown.to_owned(),
                expected_type: expected.to_owned(),
                cause,
            },
        ),
        Ok(v) => {
            let verdict = validator(&v);
            assert(judged(*validator, v, verdict));
            match verdict {
                Ok(()) => Ok(v),
                Err(message) => {
                    assert(refused(*parser, *validator, input@, message));
                    Err(
                        EnvManError::Validation {
                            key: key.to_owned(),
                            value: shown.to_owned(),
                            message,
                        },
                    )
                },
            }
        },
    }
}

/// Whether `r` may come of binding a single value from the fallback `f`.
pub open spec fn fallback_outcome<T, P: Fn(&str) -> Result<T, String>, V: Fn(&T) -> Result<(), String>>(
    parser: P,
    validator: V,
    key: Seq<char>,
    expected: Seq<char>,
    f: Fallback<T>,
    r: Result<T, EnvManError>,
) -> bool {
    match f {
        Fallback::Unset => missing(r, key),
        Fallback::Value(v) => r == Ok::<T, EnvManError>(v),
        Fallback::Text(t) => text_outcome(parser, validator, key, expected, t@, t@, r),
    }
}

/// Whether `r` may come of binding a single-valued field: the test
/// override when test mode is on, else the source value, else the default;
/// with none of them the field is not found.
pub open spec fn scalar_outcome<T, P: Fn(&str) -> Result<T, String>, V: Fn(&T) -> Result<(), String>>(
    parser: P,
    validator: V,
    key: Seq<char>,
    expected: Seq<char>,
    test_mode: bool,
    test: Fallback<T>,
    found: Option<Seq<char>>,
    default: Fallback<T>,
    r: Result<T, EnvManError>,
) -> bool {
    if override_active(test_mode, test) {
        fallback_outcome(parser, validator, key, expected, test, r)
    } else {
        match found {
            Some(t) => text_outcome(parser, validator, key, expected, t, t, r),
            None => fallback_outcome(parser, validator, key, expected, default, r),
        }
    }
}

/// Whether `r` may come of binding an optional single-valued field: absent
/// when the chain finds nothing, else present with what a required field
/// would get, or failing as it would.
pub open spec fn optional_outcome<T, P: Fn(&str) -> Result<T, String>, V: Fn(&T) -> Result<(), String>>(
    parser: P,
    validator: V,
    key: Seq<char>,
    expected: Seq<char>,
    test_mode: bool,
    test: Fallback<T>,
    found: Option<Seq<char>>,
    default: Fallback<T>,
    r: Result<Option<T>, EnvManError>,
) -> bool {
    if nothing_selected(test_mode, test, found, default) {
        r is Ok && r->Ok_0 is None
    } else {
        match r {
            Ok(Some(v)) => scalar_outcome(
                parser,
                validator,
                key,
                expected,
                test_mode,
                test,
                found,
                default,
                Ok(v),
            ),
            Ok(None) => false,
            Err(e) => scalar_outcome(
                parser,
                validator,
                key,
                expected,
                test_mode,
                test,
                found,
                default,
                Err(e),
            ),
        }
    }
}

/// Binds the input that the fallback `f` holds.
fn bind_fallback<T, P: Fn(&str) -> Result<T, String>, V: Fn(&T) -> Result<(), String>>(
    key: &str,
    expected: &str,
    f: Fallback<T>,
    parser: &P,
    validator: &V,
) -> (r: Result<T, EnvManError>)
    requires
        forall|s: &str| parser.requires((s,)),
        forall|v: &T| validator.requires((v,)),
    ensures
        fallback_outcome(*parser, *validator, key@, expected@, f, r),
{
    match f {
        Fallback::Unset => Err(EnvManError::NotFound { key: key.to_owned() }),
        Fallback::Value(v) => Ok(v),
        Fallback::Text(t) => parse_checked(key, expected, t.as_str(), t.as_str(), parser, validator),
    }
}

/// Resolves a required single-valued field whose key is `key`, from its
/// test override `test`, the value `found` under `key` in the source, and
/// its default. The first of these that applies is taken: the override
/// when `test_mode` is on, then the source value, then the default. Text
/// is parsed by `parser` and the value checked by `validator`; a failure
/// names `key`, the text, and `expected` as the expected type.
pub fn bind_scalar<T, P: Fn(&str) -> Result<T, String>, V: Fn(&T) -> Result<(), String>>(
    key: &str,
    expected: &str,
    test_mode: bool,
    test: Fallback<T>,
    found: Option<String>,
    default: Fallback<T>,
    parser: &P,
    validator: &V,
) -> (r: Result<T, EnvManError>)
    requires
        forall|s: &str| parser.requires((s,)),
        forall|v: &T| validator.requires((v,)),
    ensures
        scalar_outcome(
            *parser,
            *validator,
            key@,
            expected@,
            test_mode,
            test,
            opt_view(found),
            default,
            r,
        ),
        test_mode && test is Value ==> r == Ok::<T, EnvManError>(test->Value_0),
        test_mode && test is Text ==> text_outcome(
            *parser,
            *validator,
            key@,
            expected@,
            test->Text_0@,
            test->Text_0@,
            r,
        ),
        !test_mode && found is Some ==> text_outcome(
            *parser,
            *validator,
            key@,
            expected@,
            found->0@,
            found->0@,
            r,
        ),
        nothing_selected(test_mode, test, opt_view(found), default) ==> missing(r, key@),
{
    if test_mode && test.is_set() {
        bind_fallback(key, expected, test, parser, validator)
    } else {
        match found {
            Some(t) => parse_checked(key, expected, t.as_str(), t.as_str(), parser, validator),
            None => bind_fallback(key, expected, default, parser, validator),
        }
    }
}

/// Resolves an optional single-valued field: as [`bind_scalar`], except
/// that when nothing applies the field is absent rather than missing.
pub fn bind_optional<T, P: Fn(&str) -> Result<T, String>, V: Fn(&T) -> Result<(), String>>(
    key: &str,
    expected: &str,
    test_mode: bool,
    test: Fallback<T>,
    found: Option<String>,
    default: Fallback<T>,
    parser: &P,
    validator: &V,
) -> (r: Result<Option<T>, EnvManError>)
    requires
        forall|s: &str| parser.requires((s,)),
        forall|v: &T| validator.requires((v,)),
    ensures
        optional_outcome(
            *parser,
            *validator,
            key@,
            expected@,
            test_mode,
            test,
            opt_view(found),
            default,
            r,
        ),
        nothing_selected(test_mode, test, opt_view(found), default) ==> (r is Ok && r->Ok_0 is None),
{
    if !(test_mode && test.is_set()) && found.is_none() && !default.is_set() {
        return Ok(None);
    }
    match bind_scalar(key, expected, test_mode, test, found, default, parser, validator) {
        Ok(v) => Ok(Some(v)),
        Err(e) => Err(e),
    }
}

/// Whether the piece `piece` of a list may bind to `v`: its trimmed text
/// parses to `v` and the validator accepts `v`.
pub open spec fn piece_ok<T, P: Fn(&str) -> Result<T, String>, V: Fn(&T) -> Result<(), String>>(
    parser: P,
    validator: V,
    piece: Seq<char>,
    v: T,
) -> bool {
    parses_to(parser, trimmed(piece), Ok(v)) && passes(validator, v)
}

/// Whether the piece `piece` of a list may bind to some value.
pub open spec fn piece_binds<T, P: Fn(&str) -> Result<T, String>, V: Fn(&T) -> Result<(), String>>(
    parser: P,
    validator: V,
    piece: Seq<char>,
) -> bool {
    exists|v: T| #[trigger] piece_ok(parser, validator, piece, v)
}

/// Whether binding the piece `piece` may fail with `e`, which then reports
/// the piece as it stands, before trimming.
pub open spec fn piece_fails<T, P: Fn(&str) -> Result<T, String>, V: Fn(&T) -> Result<(), String>>(
    parser: P,
    validator: V,
    key: Seq<char>,
    expected: Seq<char>,
    piece: Seq<char>,
    e: EnvManError,
) -> bool {
    text_outcome(parser, validator, key, expected, trimmed(piece), piece, Err::<T, EnvManError>(e))
}

/// Whether piece `i` of `ps` may be the first that fails, with `e`: all
/// pieces before it bind.
pub open spec fn first_failure<T, P: Fn(&str) -> Result<T, String>, V: Fn(&T) -> Result<(), String>>(
    parser: P,
    validator: V,
    key: Seq<char>,
    expected: Seq<char>,
    ps: Seq<Seq<char>>,
    i: int,
    e: EnvManError,
) -> bool {
    &&& 0 <= i < ps.len()
    &&& forall|j: int| 0 <= j < i ==> #[trigger] piece_binds(parser, validator, ps[j])
    &&& piece_fails(parser, validator, key, expected, ps[i], e)
}

/// Whether `r` may come of binding the pieces `ps` in order: every piece
/// binds, or the first piece that fails decides the error.
pub open spec fn pieces_outcome<T, P: Fn(&str) -> Result<T, String>, V: Fn(&T) -> Result<(), String>>(
    parser: P,
    validator: V,
    key: Seq<char>,
    expected: Seq<char>,
    ps: Seq<Seq<char>>,
    r: Result<Vec<T>, EnvManError>,
) -> bool {
    match r {
        Ok(vs) => {
            &&& vs@.len() == ps.len()
            &&& forall|i: int|
                0 <= i < ps.len() ==> #[trigger] piece_ok(parser, validator, ps[i], vs@[i])
        },
        Err(e) => exists|i: int| #[trigger] first_failure(parser, validator, key, expected, ps, i, e),
    }
}

/// Whether `r` may come of binding a list from the fallback `f`: a ready
/// list is taken as it is, text is cut at `sep`.
pub open spec fn list_fallback_outcome<T, P: Fn(&str) -> Result<T, String>, V: Fn(&T) -> Result<(), String>>(
    parser: P,
    validator: V,
    key: Seq<char>,
    expected: Seq<char>,
    sep: Seq<char>,
    f: Fallback<Vec<T>>,
    r: Result<Vec<T>, EnvManError>,
) -> bool {
    match f {
        Fallback::Unset => missing(r, key),
        Fallback::Value(vs) => r == Ok::<Vec<T>, EnvManError>(vs),
        Fallback::Text(t) => pieces_outcome(parser, validator, key, expected, pieces(t@, sep), r),
    }
}

/// Whether `r` may come of binding a required list field: the priority
/// chain of [`scalar_outcome`], where source text is cut at `sep` and each
/// piece is trimmed, parsed and validated on its own.
pub open spec fn list_outcome<T, P: Fn(&str) -> Result<T, String>, V: Fn(&T) -> Result<(), String>>(
    parser: P,
    validator: V,
    key: Seq<char>,
    expected: Seq<char>,
    sep: Seq<char>,
    test_mode: bool,
    test: Fallback<Vec<T>>,
    found: Option<Seq<char>>,
    default: Fallback<Vec<T>>,
    r: Result<Vec<T>, EnvManError>,
) -> bool {
    if override_active(test_mode, test) {
        list_fallback_outcome(parser, validator, key, expected, sep, test, r)
    } else {
        match found {
            Some(t) => pieces_outcome(parser, validator, key, expected, pieces(t, sep), r),
            None => list_fallback_outcome(parser, validator, key, expected, sep, default, r),
        }
    }
}

/// Binds the pieces of `text` between the occurrences of `sep`, one after
/// the other, stopping at the first that fails.
fn bind_pieces<T, P: Fn(&str) -> Result<T, String>, V: Fn(&T) -> Result<(), String>>(
    key: &str,
    expected: &str,
    text: &str,
    sep: &str,
    parser: &P,
    validator: &V,
) -> (r: Result<Vec<T>, EnvManError>)
    requires
        forall|s: &str| parser.requires((s,)),
        forall|v: &T| validator.requires((v,)),
    ensures
        pieces_outcome(*parser, *validator, key@, expected@, pieces(text@, sep@), r),
{
    let parts = split(text, sep);
    let ghost ps = pieces(text@, sep@);
    let mut out: Vec<T> = Vec::new();
    let mut i: usize = 0;
    while i < parts.len()
        invariant
            forall|s: &str| parser.requires((s,)),
            forall|v: &T| validator.requires((v,)),
            ps == pieces(text@, sep@),
            views(parts@) == ps,
            i <= parts@.len(),
            out@.len() == i,
            forall|j: int| 0 <= j < i ==> #[trigger] piece_ok(*parser, *validator, ps[j], out@[j]),
        decreases parts@.len() - i,
    {
        let piece = parts[i].as_str();
        assert(ps[i as int] == piece@);
        let input = trim(piece);
        match parse_checked(key, expected, input.as_str(), piece, parser, validator) {
            Ok(v) => {
                out.push(v);
            },
            Err(e) => {
                assert forall|j: int| 0 <= j < i implies #[trigger] piece_binds(
                    *parser,
                    *validator,
                    ps[j],
                ) by {
                    assert(piece_ok(*parser, *validator, ps[j], out@[j]));
                }
                assert(piece_fails(*parser, *validator, key@, expected@, ps[i as int], e));
                assert(first_failure(*parser, *validator, key@, expected@, ps, i as int, e));
                return Err(e);
            },
        }
        i = i + 1;
    }
    Ok(out)
}

/// Binds the list that the fallback `f` holds.
fn bind_list_fallback<T, P: Fn(&str) -> Result<T, String>, V: Fn(&T) -> Result<(), String>>(
    key: &str,
    expected: &str,
    sep: &str,
    f: Fallback<Vec<T>>,
    parser: &P,
    validator: &V,
) -> (r: Result<Vec<T>, EnvManError>)
    requires
        forall|s: &str| parser.requires((s,)),
        forall|v: &T| validator.requires((v,)),
    ensures
        list_fallback_outcome(*parser, *validator, key@, expected@, sep@, f, r),
{
    match f {
        Fallback::Unset => Err(EnvManError::NotFound { key: key.to_owned() }),
        Fallback::Value(vs) => Ok(vs),
        Fallback::Text(t) => bind_pieces(key, expected, t.as_str(), sep, parser, validator),
    }
}

/// Resolves a required list field by the priority chain of
/// [`bind_scalar`]. Text from the source (or a text fallback) is cut at
/// `sep`; each piece is trimmed of white space, parsed and validated on its
/// own, and the first piece that fails decides the error, which reports
/// that piece. A ready list from the override or the default is taken as it
/// is.
pub fn bind_list<T, P: Fn(&str) -> Result<T, String>, V: Fn(&T) -> Result<(), String>>(
    key: &str,
    expected: &str,
    sep: &str,
    test_mode: bool,
    test: Fallback<Vec<T>>,
    found: Option<String>,
    default: Fallback<Vec<T>>,
    parser: &P,
    validator: &V,
) -> (r: Result<Vec<T>, EnvManError>)
    requires
        forall|s: &str| parser.requires((s,)),
        forall|v: &T| validator.requires((v,)),
    ensures
        list_outcome(
            *parser,
            *validator,
            key@,
            expected@,
            sep@,
            test_mode,
            test,
            opt_view(found),
            default,
            r,
        ),
        test_mode && test is Value ==> r == Ok::<Vec<T>, EnvManError>(test->Value_0),
        !test_mode && found is Some ==> pieces_outcome(
            *parser,
            *validator,
            key@,
            expected@,
            pieces(found->0@, sep@),
            r,
        ),
        nothing_selected(test_mode, test, opt_view(found), default) ==> missing(r, key@),
{
    if test_mode && test.is_set() {
        bind_list_fallback(key, expected, sep, test, parser, validator)
    } else {
        match found {
            Some(t) => bind_pieces(key, expected, t.as_str(), sep, parser, validator),
            None => bind_list_fallback(key, expected, sep, default, parser, validator),
        }
    }
}

/// Resolves an optional list field: as [`bind_list`], except that when
/// nothing applies the field is absent rather than missing.
pub fn bind_optional_list<T, P: Fn(&str) -> Result<T, String>, V: Fn(&T) -> Result<(), String>>(
    key: &str,
    expected: &str,
    sep: &str,
    test_mode: bool,
    test: Fallback<Vec<T>>,
    found: Option<String>,
    default: Fallback<Vec<T>>,
    parser: &P,
    validator: &V,
) -> (r: Result<Option<Vec<T>>, EnvManError>)
    requires
        forall|s: &str| parser.requires((s,)),
        forall|v: &T| validator.requires((v,)),
    ensures
        nothing_selected(test_mode, test, opt_view(found), default) ==> (r is Ok && r->Ok_0 is None),
        !nothing_selected(test_mode, test, opt_view(found), default) ==> match r {
            Ok(Some(vs)) => list_outcome(
                *parser,
                *validator,
                key@,
                expected@,
                sep@,
                test_mode,
                test,
                opt_view(found),
                default,
                Ok(vs),
            ),
            Ok(None) => false,
            Err(e) => list_outcome(
                *parser,
                *validator,
                key@,
                expected@,
                sep@,
                test_mode,
                test,
                opt_view(found),
                default,
                Err(e),
            ),
        },
{
    if !(test_mode && test.is_set()) && found.is_none() && !default.is_set() {
        return Ok(None);
    }
    match bind_list(key, expected, sep, test_mode, test, found, default, parser, validator) {
        Ok(vs) => Ok(Some(vs)),
        Err(e) => Err(e),
    }
}

} // verus!
