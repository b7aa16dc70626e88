//! Schema-driven binding of configuration structures from a flat key/value
//! settings source.
//!
//! A field's lookup key comes from the owning structure's naming policy
//! ([`naming`]); its value is chosen by a fixed priority chain (test
//! override, live source value, declared default) and then parsed and
//! validated ([`binder`]); a whole structure is bound field by field in
//! declaration order, stopping at the first failure ([`load`]); secret
//! fields can be rendered masked ([`mask`]).
pub mod binder;
pub mod error;
pub mod laws;
pub mod load;
pub mod mask;
pub mod naming;
pub mod settings;
pub mod text;

pub use binder::{bind_list, bind_optional, bind_optional_list, bind_scalar, Fallback};
pub use error::{format_errors, EnvManError};
pub use load::{resolve_nested, resolve_optional_nested, Binder, EnvMan, Field};
pub use mask::{render_masked, Shown};
pub use naming::{from_str_to_case, NamingPolicy, RenameRule};
pub use settings::Settings;
