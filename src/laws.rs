//! Laws of the resolution pipeline that relate several runs of it.
use crate::binder::{
    first_failure, judged, list_outcome, parses_to, piece_binds, piece_fails, piece_ok,
    pieces_outcome, scalar_outcome, text_outcome, Fallback,
};
use crate::error::EnvManError;
use crate::text::{pieces, trimmed};
use vstd::prelude::*;

verus! {

/// Whether `parser` gives one result for each text.
pub open spec fn parser_deterministic<T, P: Fn(&str) -> Result<T, String>>(parser: P) -> bool {
    forall|s1: &str, s2: &str, a: Result<T, String>, b: Result<T, String>|
        s1@ == s2@ && #[trigger] parser.ensures((s1,), a) && #[trigger] parser.ensures((s2,), b)
            ==> a == b
}

/// Whether `validator` gives one verdict for each value.
pub open spec fn validator_deterministic<T, V: Fn(&T) -> Result<(), String>>(validator: V) -> bool {
    forall|v: T, a: Result<(), String>, b: Result<(), String>|
        #[trigger] judged(validator, v, a) && #[trigger] judged(validator, v, b) ==> a == b
}

/// Whether two errors are of the same kind and carry the same texts.
pub open spec fn same_error(a: EnvManError, b: EnvManError) -> bool {
    match (a, b) {
        (EnvManError::NotFound { key: k1 }, EnvManError::NotFound { key: k2 }) => k1@ == k2@,
        (
            EnvManError::Parse { key: k1, value: v1, expected_type: t1, cause: c1 },
            EnvManError::Parse { key: k2, value: v2, expected_type: t2, cause: c2 },
        ) => k1@ == k2@ && v1@ == v2@ && t1@ == t2@ && c1@ == c2@,
        (
            EnvManError::Validation { key: k1, value: v1, message: m1 },
            EnvManError::Validation { key: k2, value: v2, message: m2 },
        ) => k1@ == k2@ && v1@ == v2@ && m1@ == m2@,
        (EnvManError::Multiple(x), EnvManError::Multiple(y)) => x == y,
        _ => false,
    }
}

/// Whether two results agree: the same value, or the same error.
pub open spec fn same_outcome<T>(r1: Result<T, EnvManError>, r2: Result<T, EnvManError>) -> bool {
    match (r1, r2) {
        (Ok(a), Ok(b)) => a == b,
        (Err(a), Err(b)) => same_error(a, b),
        _ => false,
    }
}

/// Whether two list results agree: the same elements, or the same error.
pub open spec fn same_list_outcome<T>(
    r1: Result<Vec<T>, EnvManError>,
    r2: Result<Vec<T>, EnvManError>,
) -> bool {
    match (r1, r2) {
        (Ok(a), Ok(b)) => a@ == b@,
        (Err(a), Err(b)) => same_error(a, b),
        _ => false,
    }
}

proof fn lemma_parse_unique<T, P: Fn(&str) -> Result<T, String>>(
    parser: P,
    text: Seq<char>,
    a: Result<T, String>,
    b: Result<T, String>,
)
    requires
        parser_deterministic(parser),
        parses_to(parser, text, a),
        parses_to(parser, text, b),
    ensures
        a == b,
{
    let s1 = choose|s: &str| s@ == text && #[trigger] parser.ensures((s,), a);
    let s2 = choose|s: &str| s@ == text && #[trigger] parser.ensures((s,), b);
    assert(parser.ensures((s1,), a) && parser.ensures((s2,), b));
}

proof fn lemma_text_outcome_unique<T, P: Fn(&str) -> Result<T, String>, V: Fn(&T) -> Result<(), String>>(
    parser: P,
    validator: V,
    key: Seq<char>,
    expected: Seq<char>,
    input: Seq<char>,
    shown: Seq<char>,
    r1: Result<T, EnvManError>,
    r2: Result<T, EnvManError>,
)
    requires
        parser_deterministic(parser),
        validator_deterministic(validator),
        text_outcome(parser, validator, key, expected, input, shown, r1),
        text_outcome(parser, validator, key, expected, input, shown, r2),
    ensures
        same_outcome(r1, r2),
{
    lemma_text_outcome_kind(parser, validator, key, expected, input, shown, r1, r2);
    lemma_text_outcome_kind(parser, validator, key, expected, input, shown, r2, r1);
    match (r1, r2) {
        (Ok(a), Ok(b)) => {
            lemma_parse_unique(parser, input, Ok::<T, String>(a), Ok::<T, String>(b));
        },
        (
            Err(EnvManError::Parse { cause: c1, .. }),
            Err(EnvManError::Parse { cause: c2, .. }),
        ) => {
            lemma_parse_unique(parser, input, Err::<T, String>(c1), Err::<T, String>(c2));
        },
        (
            Err(EnvManError::Validation { message: m1, .. }),
            Err(EnvManError::Validation { message: m2, .. }),
        ) => {
            let v1 = choose|v: T|
                parses_to(parser, input, Ok(v)) && #[trigger] judged(validator, v, Err(m1));
            let v2 = choose|v: T|
                parses_to(parser, input, Ok(v)) && #[trigger] judged(validator, v, Err(m2));
            lemma_parse_unique(parser, input, Ok::<T, String>(v1), Ok::<T, String>(v2));
            assert(judged(validator, v1, Err(m1)) && judged(validator, v1, Err(m2)));
        },
        _ => {},
    }
}

/// The kind of a text outcome is fixed: if `r1` is a value, a parse
/// failure or a validation failure, so is `r2`.
proof fn lemma_text_outcome_kind<T, P: Fn(&str) -> Result<T, String>, V: Fn(&T) -> Result<(), String>>(
    parser: P,
    validator: V,
    key: Seq<char>,
    expected: Seq<char>,
    input: Seq<char>,
    shown: Seq<char>,
    r1: Result<T, EnvManError>,
    r2: Result<T, EnvManError>,
)
    requires
        parser_deterministic(parser),
        validator_deterministic(validator),
        text_outcome(parser, validator, key, expected, input, shown, r1),
        text_outcome(parser, validator, key, expected, input, shown, r2),
    ensures
        r1 is Ok ==> r2 is Ok,
        (r1 is Err && r1->Err_0 is Parse) ==> (r2 is Err && r2->Err_0 is Parse),
        (r1 is Err && r1->Err_0 is Validation) ==> (r2 is Err && r2->Err_0 is Validation),
{
    match r1 {
        Ok(a) => {
            let w = choose|verdict: Result<(), String>|
                verdict is Ok && #[trigger] judged(validator, a, verdict);
            match r2 {
                Err(EnvManError::Parse { cause, .. }) => {
                    lemma_parse_unique(parser, input, Ok::<T, String>(a), Err::<T, String>(cause));
                },
                Err(EnvManError::Validation { message, .. }) => {
                    let v = choose|v: T|
                        parses_to(parser, input, Ok(v)) && #[trigger] judged(
                            validator,
                            v,
                            Err(message),
                        );
                    lemma_parse_unique(parser, input, Ok::<T, String>(a), Ok::<T, String>(v));
                    assert(judged(validator, a, w) && judged(validator, a, Err(message)));
                },
                _ => {},
            }
        },
        Err(EnvManError::Parse { cause, .. }) => {
            match r2 {
                Ok(b) => {
                    lemma_parse_unique(parser, input, Ok::<T, String>(b), Err::<T, String>(cause));
                },
                Err(EnvManError::Validation { message, .. }) => {
                    let v = choose|v: T|
                        parses_to(parser, input, Ok(v)) && #[trigger] judged(
                            validator,
                            v,
                            Err(message),
                        );
                    lemma_parse_unique(parser, input, Ok::<T, String>(v), Err::<T, String>(cause));
                },
                _ => {},
            }
        },
        _ => {},
    }
}

/// Binding a single-valued field twice, from the same declaration and the
/// same source value, gives the same result, when the field's parser and
/// validator give one result for each input.
pub proof fn lemma_scalar_binding_repeatable<T, P: Fn(&str) -> Result<T, String>, V: Fn(&T) -> Result<(), String>>(
    parser: P,
    validator: V,
    key: Seq<char>,
    expected: Seq<char>,
    test_mode: bool,
    test: Fallback<T>,
    found: Option<Seq<char>>,
    default: Fallback<T>,
    r1: Result<T, EnvManError>,
    r2: Result<T, EnvManError>,
)
    requires
        parser_deterministic(parser),
        validator_deterministic(validator),
        scalar_outcome(parser, validator, key, expected, test_mode, test, found, default, r1),
        scalar_outcome(parser, validator, key, expected, test_mode, test, found, default, r2),
    ensures
        same_outcome(r1, r2),
{
    let chosen = if test_mode && !(test is Unset) {
        test
    } else {
        match found {
            Some(_) => Fallback::Unset,
            None => default,
        }
    };
    if !(test_mode && !(test is Unset)) && found is Some {
        let t = found->0;
        lemma_text_outcome_unique(parser, validator, key, expected, t, t, r1, r2);
    } else {
        match chosen {
            Fallback::Text(t) => {
                lemma_text_outcome_unique(parser, validator, key, expected, t@, t@, r1, r2);
            },
            _ => {},
        }
    }
}

/// A piece cannot both bind and fail.
proof fn lemma_piece_binds_or_fails<T, P: Fn(&str) -> Result<T, String>, V: Fn(&T) -> Result<(), String>>(
    parser: P,
    validator: V,
    key: Seq<char>,
    expected: Seq<char>,
    piece: Seq<char>,
    e: EnvManError,
)
    requires
        parser_deterministic(parser),
        validator_deterministic(validator),
        piece_binds(parser, validator, piece),
    ensures
        !piece_fails(parser, validator, key, expected, piece, e),
{
    let v = choose|v: T| #[trigger] piece_ok(parser, validator, piece, v);
    if piece_fails(parser, validator, key, expected, piece, e) {
        lemma_text_outcome_kind(
            parser,
            validator,
            key,
            expected,
            trimmed(piece),
            piece,
            Ok::<T, EnvManError>(v),
            Err::<T, EnvManError>(e),
        );
    }
}

proof fn lemma_pieces_outcome_unique<T, P: Fn(&str) -> Result<T, String>, V: Fn(&T) -> Result<(), String>>(
    parser: P,
    validator: V,
    key: Seq<char>,
    expected: Seq<char>,
    ps: Seq<Seq<char>>,
    r1: Result<Vec<T>, EnvManError>,
    r2: Result<Vec<T>, EnvManError>,
)
    requires
        parser_deterministic(parser),
        validator_deterministic(validator),
        pieces_outcome(parser, validator, key, expected, ps, r1),
        pieces_outcome(parser, validator, key, expected, ps, r2),
    ensures
        same_list_outcome(r1, r2),
{
    match (r1, r2) {
        (Ok(a), Ok(b)) => {
            assert forall|i: int| 0 <= i < a@.len() implies a@[i] == b@[i] by {
                assert(piece_ok(parser, validator, ps[i], a@[i]));
                assert(piece_ok(parser, validator, ps[i], b@[i]));
                lemma_parse_unique(
                    parser,
                    trimmed(ps[i]),
                    Ok::<T, String>(a@[i]),
                    Ok::<T, String>(b@[i]),
                );
            }
            assert(a@ =~= b@);
        },
        (Ok(a), Err(e)) => {
            let i = choose|i: int| #[trigger] first_failure(parser, validator, key, expected, ps, i, e);
            assert(piece_ok(parser, validator, ps[i], a@[i]));
            lemma_piece_binds_or_fails(parser, validator, key, expected, ps[i], e);
        },
        (Err(e), Ok(b)) => {
            let i = choose|i: int| #[trigger] first_failure(parser, validator, key, expected, ps, i, e);
            assert(piece_ok(parser, validator, ps[i], b@[i]));
            lemma_piece_binds_or_fails(parser, validator, key, expected, ps[i], e);
        },
        (Err(e1), Err(e2)) => {
            let i1 = choose|i: int| #[trigger] first_failure(parser, validator, key, expected, ps, i, e1);
            let i2 = choose|i: int| #[trigger] first_failure(parser, validator, key, expected, ps, i, e2);
            if i1 < i2 {
                assert(piece_binds(parser, validator, ps[i1]));
                lemma_piece_binds_or_fails(parser, validator, key, expected, ps[i1], e1);
            } else if i2 < i1 {
                assert(piece_binds(parser, validator, ps[i2]));
                lemma_piece_binds_or_fails(parser, validator, key, expected, ps[i2], e2);
            } else {
                lemma_text_outcome_unique(
                    parser,
                    validator,
                    key,
                    expected,
                    trimmed(ps[i1]),
                    ps[i1],
                    Err::<T, EnvManError>(e1),
                    Err::<T, EnvManError>(e2),
                );
            }
        },
    }
}

/// Binding a list field twice, from the same declaration and the same
/// source value, gives the same result, when the field's parser and
/// validator give one result for each input.
pub proof fn lemma_list_binding_repeatable<T, P: Fn(&str) -> Result<T, String>, V: Fn(&T) -> Result<(), String>>(
    parser: P,
    validator: V,
    key: Seq<char>,
    expected: Seq<char>,
    sep: Seq<char>,
    test_mode: bool,
    test: Fallback<Vec<T>>,
    found: Option<Seq<char>>,
    default: Fallback<Vec<T>>,
    r1: Result<Vec<T>, EnvManError>,
    r2: Result<Vec<T>, EnvManError>,
)
    requires
        parser_deterministic(parser),
        validator_deterministic(validator),
        list_outcome(parser, validator, key, expected, sep, test_mode, test, found, default, r1),
        list_outcome(parser, validator, key, expected, sep, test_mode, test, found, default, r2),
    ensures
        same_list_outcome(r1, r2),
{
    let chosen = if test_mode && !(test is Unset) {
        test
    } else {
        match found {
            Some(_) => Fallback::Unset,
            None => default,
        }
    };
    if !(test_mode && !(test is Unset)) && found is Some {
        lemma_pieces_outcome_unique(parser, validator, key, expected, pieces(found->0, sep), r1, r2);
    } else {
        match chosen {
            Fallback::Text(t) => {
                lemma_pieces_outcome_unique(parser, validator, key, expected, pieces(t@, sep), r1, r2);
            },
            _ => {},
        }
    }
}

} // verus!
