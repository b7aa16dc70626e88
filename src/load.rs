//! Binding whole structures: the [`EnvMan`] entry point, field
//! declarations, and a [`Binder`] that resolves each declared field
//! against one settings source.
use crate::binder::{
    bind_list, bind_optional, bind_optional_list, bind_scalar, list_outcome, nothing_selected,
    opt_view, optional_outcome, scalar_outcome, Fallback,
};
use crate::error::EnvManError;
use crate::naming::NamingPolicy;
use crate::settings::{value_at, Settings};
use vstd::prelude::*;

verus! {

/// A structure that can be bound from a settings source.
///
/// An implementation binds its fields in declaration order, usually
/// through a [`Binder`], and returns the first failure as it comes.
pub trait EnvMan: Sized {
    /// Binds the structure from `source`. With `test_mode` on, the fields'
    /// test overrides take precedence over everything else.
    fn load(source: &Settings, test_mode: bool) -> Result<Self, EnvManError>;
}

/// Resolves a required nested field from the outcome `loaded` of binding
/// the nested structure: the test override when test mode is on and there
/// is one; else the loaded structure; else, when loading failed, the
/// default if there is one, or the failure itself.
pub fn resolve_nested<T>(
    test_mode: bool,
    test: Option<T>,
    loaded: Result<T, EnvManError>,
    default: Option<T>,
) -> (r: Result<T, EnvManError>)
    ensures
        test_mode && test is Some ==> r == Ok::<T, EnvManError>(test->0),
        !(test_mode && test is Some) ==> r == match loaded {
            Ok(v) => Ok(v),
            Err(e) => match default {
                Some(d) => Ok(d),
                None => Err(e),
            },
        },
{
    match test {
        Some(t) if test_mode => Ok(t),
        _ => match loaded {
            Ok(v) => Ok(v),
            Err(e) => match default {
                Some(d) => Ok(d),
                None => Err(e),
            },
        },
    }
}

/// Resolves an optional nested field from the outcome `loaded` of binding
/// the nested structure: the test override when test mode is on and there
/// is one; else the loaded structure; else the default, or absent.
pub fn resolve_optional_nested<T>(
    test_mode: bool,
    test: Option<T>,
    loaded: Result<T, EnvManError>,
    default: Option<T>,
) -> (r: Option<T>)
    ensures
        test_mode && test is Some ==> r == test,
        !(test_mode && test is Some) ==> r == match loaded {
            Ok(v) => Some(v),
            Err(_) => default,
        },
{
    match test {
        Some(t) if test_mode => Some(t),
        _ => match loaded {
            Ok(v) => Some(v),
            Err(_) => default,
        },
    }
}

/// The declaration of one field: its identifier, the explicit name that
/// replaces the derived key if it has one, its test override and its
/// default.
pub struct Field<T> {
    pub ident: String,
    pub rename: Option<String>,
    pub test: Fallback<T>,
    pub default: Fallback<T>,
}

impl<T> Field<T> {
    /// The field declared as `ident`, with no explicit name, no test
    /// override and no default.
    pub fn new(ident: &str) -> (r: Field<T>)
        ensures
            r.ident@ == ident@,
            r.rename is None,
            r.test is Unset,
            r.default is Unset,
    {
        Field {
            ident: ident.to_owned(),
            rename: None,
            test: Fallback::Unset,
            default: Fallback::Unset,
        }
    }

    /// The same field looked up under the explicit name `name`.
    pub fn rename(self, name: &str) -> (r: Field<T>)
        ensures
            r.ident == self.ident,
            r.rename is Some && r.rename->0@ == name@,
            r.test == self.test,
            r.default == self.default,
    {
        Field { rename: Some(name.to_owned()), ..self }
    }

    /// The same field with `v` as its default.
    pub fn default_value(self, v: T) -> (r: Field<T>)
        ensures
            r.ident == self.ident,
            r.rename == self.rename,
            r.test == self.test,
            r.default == Fallback::Value(v),
    {
        Field { default: Fallback::Value(v), ..self }
    }

    /// The same field with `text` as its default, parsed and validated as
    /// a source value would be.
    pub fn default_text(self, text: &str) -> (r: Field<T>)
        ensures
            r.ident == self.ident,
            r.rename == self.rename,
            r.test == self.test,
            r.default is Text && r.default->Text_0@ == text@,
    {
        Field { default: Fallback::Text(text.to_owned()), ..self }
    }

    /// The same field with `v` as its test override.
    pub fn test_value(self, v: T) -> (r: Field<T>)
        ensures
            r.ident == self.ident,
            r.rename == self.rename,
            r.test == Fallback::Value(v),
            r.default == self.default,
    {
        Field { test: Fallback::Value(v), ..self }
    }

    /// The same field with `text` as its test override, parsed and
    /// validated as a source value would be.
    pub fn test_text(self, text: &str) -> (r: Field<T>)
        ensures
            r.ident == self.ident,
            r.rename == self.rename,
            r.test is Text && r.test->Text_0@ == text@,
            r.default == self.default,
    {
        Field { test: Fallback::Text(text.to_owned()), ..self }
    }
}

/// Resolves the fields of one structure against one settings source.
pub struct Binder<'a> {
    /// Where values are looked up.
    pub source: &'a Settings,
    /// Whether test overrides are in force.
    pub test_mode: bool,
    /// The structure's naming policy.
    pub naming: NamingPolicy,
    /// The name reported as the expected type when text does not parse.
    pub struct_name: String,
}

impl<'a> Binder<'a> {
    /// A binder for the structure `struct_name` with the policy `naming`.
    pub fn new(source: &'a Settings, test_mode: bool, naming: NamingPolicy, struct_name: &str) -> (r:
        Binder<'a>)
        ensures
            r.source == source,
            r.test_mode == test_mode,
            r.naming == naming,
            r.struct_name@ == struct_name@,
    {
        Binder { source, test_mode, naming, struct_name: struct_name.to_owned() }
    }

    /// The lookup key of `field` under this structure's naming policy.
    pub open spec fn key_of<T>(&self, field: &Field<T>) -> Seq<char> {
        self.naming.key_spec(field.ident@, opt_view(field.rename))
    }

    /// The lookup key of `field`.
    pub fn key<T>(&self, field: &Field<T>) -> (r: String)
        ensures
            r@ == self.key_of(field),
    {
        match &field.rename {
            Some(name) => self.naming.key(field.ident.as_str(), Some(name.as_str())),
            None => self.naming.key(field.ident.as_str(), None),
        }
    }

    /// Binds the required single-valued `field` (see [`bind_scalar`]).
    pub fn scalar<T, P: Fn(&str) -> Result<T, String>, V: Fn(&T) -> Result<(), String>>(
        &self,
        field: Field<T>,
        parser: &P,
        validator: &V,
    ) -> (r: Result<T, EnvManError>)
        requires
            forall|s: &str| parser.requires((s,)),
            forall|v: &T| validator.requires((v,)),
        ensures
            scalar_outcome(
                *parser,
                *validator,
                self.key_of(&field),
                self.struct_name@,
                self.test_mode,
                field.test,
                value_at(self.source@, self.key_of(&field)),
                field.default,
                r,
            ),
    {
        let key = self.key(&field);
        let found = self.source.lookup(key.as_str());
        bind_scalar(
            key.as_str(),
            self.struct_name.as_str(),
            self.test_mode,
            field.test,
            found,
            field.default,
            parser,
            validator,
        )
    }

    /// Binds the optional single-valued `field` (see [`bind_optional`]).
    pub fn optional<T, P: Fn(&str) -> Result<T, String>, V: Fn(&T) -> Result<(), String>>(
        &self,
        field: Field<T>,
        parser: &P,
        validator: &V,
    ) -> (r: Result<Option<T>, EnvManError>)
        requires
            forall|s: &str| parser.requires((s,)),
            forall|v: &T| validator.requires((v,)),
        ensures
            optional_outcome(
                *parser,
                *validator,
                self.key_of(&field),
                self.struct_name@,
                self.test_mode,
                field.test,
                value_at(self.source@, self.key_of(&field)),
                field.default,
                r,
            ),
    {
        let key = self.key(&field);
        let found = self.source.lookup(key.as_str());
        bind_optional(
            key.as_str(),
            self.struct_name.as_str(),
            self.test_mode,
            field.test,
            found,
            field.default,
            parser,
            validator,
        )
    }

    /// Binds the required list `field`, whose source text is cut at `sep`
    /// (see [`bind_list`]).
    pub fn list<T, P: Fn(&str) -> Result<T, String>, V: Fn(&T) -> Result<(), String>>(
        &self,
        field: Field<Vec<T>>,
        sep: &str,
        parser: &P,
        validator: &V,
    ) -> (r: Result<Vec<T>, EnvManError>)
        requires
            forall|s: &str| parser.requires((s,)),
            forall|v: &T| validator.requires((v,)),
        ensures
            list_outcome(
                *parser,
                *validator,
                self.key_of(&field),
                self.struct_name@,
                sep@,
                self.test_mode,
                field.test,
                value_at(self.source@, self.key_of(&field)),
                field.default,
                r,
            ),
    {
        let key = self.key(&field);
        let found = self.source.lookup(key.as_str());
        bind_list(
            key.as_str(),
            self.struct_name.as_str(),
            sep,
            self.test_mode,
            field.test,
            found,
            field.default,
            parser,
            validator,
        )
    }

    /// Binds the optional list `field`, whose source text is cut at `sep`
    /// (see [`bind_optional_list`]).
    pub fn optional_list<T, P: Fn(&str) -> Result<T, String>, V: Fn(&T) -> Result<(), String>>(
        &self,
        field: Field<Vec<T>>,
        sep: &str,
        parser: &P,
        validator: &V,
    ) -> (r: Result<Option<Vec<T>>, EnvManError>)
        requires
            forall|s: &str| parser.requires((s,)),
            forall|v: &T| validator.requires((v,)),
        ensures
            ({
                let key = self.key_of(&field);
                let found = value_at(self.source@, key);
                if nothing_selected(self.test_mode, field.test, found, field.default) {
                    r is Ok && r->Ok_0 is None
                } else {
                    match r {
                        Ok(Some(vs)) => list_outcome(
                            *parser,
                            *validator,
                            key,
                            self.struct_name@,
                            sep@,
                            self.test_mode,
                            field.test,
                            found,
                            field.default,
                            Ok(vs),
                        ),
                        Ok(None) => false,
                        Err(e) => list_outcome(
                            *parser,
                            *validator,
                            key,
                            self.struct_name@,
                            sep@,
                            self.test_mode,
                            field.test,
                            found,
                            field.default,
                            Err(e),
                        ),
                    }
                }
            }),
    {
        let key = self.key(&field);
        let found = self.source.lookup(key.as_str());
        bind_optional_list(
            key.as_str(),
            self.struct_name.as_str(),
            sep,
            self.test_mode,
            field.test,
            found,
            field.default,
            parser,
            validator,
        )
    }

    /// Binds a required nested structure through its own [`EnvMan`]
    /// implementation, which applies its own naming policy. The test
    /// override, in test mode, is taken without loading; a failed load
    /// falls back on `default` when there is one (see [`resolve_nested`]).
    pub fn nested<T: EnvMan>(&self, test: Option<T>, default: Option<T>) -> (r: Result<
        T,
        EnvManError,
    >)
        ensures
            self.test_mode && test is Some ==> r == Ok::<T, EnvManError>(test->0),
            !(self.test_mode && test is Some) && default is Some ==> r is Ok,
    {
        match test {
            Some(t) if self.test_mode => Ok(t),
            test => {
                let loaded = T::load(self.source, self.test_mode);
                resolve_nested(self.test_mode, test, loaded, default)
            },
        }
    }

    /// Binds an optional nested structure: absent when loading fails and
    /// there is no default (see [`resolve_optional_nested`]).
    pub fn optional_nested<T: EnvMan>(&self, test: Option<T>, default: Option<T>) -> (r: Option<T>)
        ensures
            self.test_mode && test is Some ==> r == test,
            !(self.test_mode && test is Some) && default is Some ==> r is Some,
    {
        match test {
            Some(t) if self.test_mode => Some(t),
            test => {
                let loaded = T::load(self.source, self.test_mode);
                resolve_optional_nested(self.test_mode, test, loaded, default)
            },
        }
    }
}

} // verus!
