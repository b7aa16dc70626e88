//! The naming rules: how a field's lookup key is derived from its declared
//! identifier and the owning structure's naming policy.
use crate::text::{chars_of, same_text};
use convert_case::Casing;
use vstd::prelude::*;

verus! {

/// The case conversion applied to derived field names.
#[derive(Clone, Copy, Debug, PartialEq, Eq, Structural)]
pub enum RenameRule {
    /// `lowercase`
    Lower,
    /// `UPPERCASE`
    Upper,
    /// `PascalCase`
    Pascal,
    /// `camelCase`
    Camel,
    /// `snake_case`
    Snake,
    /// `SCREAMING_SNAKE_CASE`
    UpperSnake,
    /// `kebab-case`
    Kebab,
    /// `SCREAMING-KEBAB-CASE`
    UpperKebab,
}

/// The identifier `ident` written in the case that `rule` names.
pub uninterp spec fn case_converted(ident: Seq<char>, rule: RenameRule) -> Seq<char>;

/// Relies on convert_case's `Casing::to_case`: it splits `ident` into words
/// and joins them again in the case of `rule`. The result depends on the
/// identifier and the rule alone, and an empty identifier has no words.
#[verifier::external_body]
fn convert_identifier(ident: &str, rule: RenameRule) -> (r: String)
    ensures
        r@ == case_converted(ident@, rule),
        ident@.len() == 0 ==> r@.len() == 0,
{
    let case = match rule {
        RenameRule::Lower => convert_case::Case::Lower,
        RenameRule::Upper => convert_case::Case::Upper,
        RenameRule::Pascal => convert_case::Case::Pascal,
        RenameRule::Camel => convert_case::Case::Camel,
        RenameRule::Snake => convert_case::Case::Snake,
        RenameRule::UpperSnake => convert_case::Case::UpperSnake,
        RenameRule::Kebab => convert_case::Case::Kebab,
        RenameRule::UpperKebab => convert_case::Case::UpperKebab,
    };
    ident.to_case(case)
}

/// The rule that a `rename_all` setting names, if it names one.
pub open spec fn rule_named(text: Seq<char>) -> Option<RenameRule> {
    if text == "lowercase"@ {
        Some(RenameRule::Lower)
    } else if text == "UPPERCASE"@ {
        Some(RenameRule::Upper)
    } else if text == "PascalCase"@ {
        Some(RenameRule::Pascal)
    } else if text == "camelCase"@ {
        Some(RenameRule::Camel)
    } else if text == "snake_case"@ {
        Some(RenameRule::Snake)
    } else if text == "SCREAMING_SNAKE_CASE"@ {
        Some(RenameRule::UpperSnake)
    } else if text == "kebab-case"@ {
        Some(RenameRule::Kebab)
    } else if text == "SCREAMING-KEBAB-CASE"@ {
        Some(RenameRule::UpperKebab)
    } else {
        None
    }
}

/// The rule that `text` names (`"kebab-case"`, `"SCREAMING_SNAKE_CASE"`,
/// ...), or `None` for any other text.
pub fn from_str_to_case(text: &str) -> (r: Option<RenameRule>)
    ensures
        r == rule_named(text@),
{
    if same_text(text, "lowercase") {
        Some(RenameRule::Lower)
    } else if same_text(text, "UPPERCASE") {
        Some(RenameRule::Upper)
    } else if same_text(text, "PascalCase") {
        Some(RenameRule::Pascal)
    } else if same_text(text, "camelCase") {
        Some(RenameRule::Camel)
    } else if same_text(text, "snake_case") {
        Some(RenameRule::Snake)
    } else if same_text(text, "SCREAMING_SNAKE_CASE") {
        Some(RenameRule::UpperSnake)
    } else if same_text(text, "kebab-case") {
        Some(RenameRule::Kebab)
    } else if same_text(text, "SCREAMING-KEBAB-CASE") {
        Some(RenameRule::UpperKebab)
    } else {
        None
    }
}

/// An identifier without its raw-identifier marks: every leading `r#` is
/// dropped.
pub open spec fn unraw_spec(ident: Seq<char>) -> Seq<char>
    decreases ident.len(),
{
    if ident.len() >= 2 && ident[0] == 'r' && ident[1] == '#' {
        unraw_spec(ident.subrange(2, ident.len() as int))
    } else {
        ident
    }
}

/// `ident` without its leading `r#` marks.
pub fn unraw(ident: &str) -> (r: String)
    ensures
        r@ == unraw_spec(ident@),
{
    let cs = chars_of(ident);
    let n = cs.len();
    let mut i: usize = 0;
    assert(ident@.subrange(0, n as int) =~= ident@);
    while n >= 2 && i <= n - 2 && cs[i] == 'r' && cs[i + 1] == '#'
        invariant
            cs@ == ident@,
            n == ident@.len(),
            i <= n,
            unraw_spec(ident@) == unraw_spec(ident@.subrange(i as int, n as int)),
        decreases n - i,
    {
        assert(ident@.subrange(i as int, n as int).subrange(2, n - i) =~= ident@.subrange(
            i + 2,
            n as int,
        ));
        i = i + 2;
    }
    ident.substring_char(i, n).to_owned()
}

/// The view of an optional string, empty when absent.
pub open spec fn text_or_empty(s: Option<String>) -> Seq<char> {
    match s {
        Some(t) => t@,
        None => Seq::empty(),
    }
}

/// A structure's naming policy for the fields that carry no explicit name.
pub struct NamingPolicy {
    /// The case of the derived base name.
    pub rename_all: RenameRule,
    /// Put before the converted name.
    pub prefix: Option<String>,
    /// Put after the converted name.
    pub suffix: Option<String>,
}

impl NamingPolicy {
    /// The key derived from a declared identifier: the identifier in the
    /// policy's case, then the prefix before it and the suffix after it.
    pub open spec fn derived_key(&self, ident: Seq<char>) -> Seq<char> {
        text_or_empty(self.prefix) + case_converted(unraw_spec(ident), self.rename_all)
            + text_or_empty(self.suffix)
    }

    /// The key of a field: its explicit name if it has one, else the
    /// derived key.
    pub open spec fn key_spec(&self, ident: Seq<char>, explicit: Option<Seq<char>>) -> Seq<char> {
        match explicit {
            Some(name) => name,
            None => self.derived_key(ident),
        }
    }

    /// The default policy: upper snake case, no prefix, no suffix.
    pub fn new() -> (r: NamingPolicy)
        ensures
            r.rename_all == RenameRule::UpperSnake,
            r.prefix is None,
            r.suffix is None,
    {
        NamingPolicy { rename_all: RenameRule::UpperSnake, prefix: None, suffix: None }
    }

    /// The policy that a structure's settings describe. `rename_all`, when
    /// given, must name a rule (see [`from_str_to_case`]); otherwise the
    /// settings are rejected with `None`. Without it the rule is upper snake
    /// case.
    pub fn from_settings(rename_all: Option<&str>, prefix: Option<&str>, suffix: Option<&str>) -> (r:
        Option<NamingPolicy>)
        ensures
            r is None <==> (rename_all is Some && rule_named(rename_all->0@) is None),
            r is Some ==> {
                let p = r->0;
                &&& p.rename_all == match rename_all {
                    Some(t) => rule_named(t@)->0,
                    None => RenameRule::UpperSnake,
                }
                &&& (p.prefix is Some <==> prefix is Some)
                &&& prefix is Some ==> p.prefix->0@ == prefix->0@
                &&& (p.suffix is Some <==> suffix is Some)
                &&& suffix is Some ==> p.suffix->0@ == suffix->0@
            },
    {
        let rule = match rename_all {
            Some(t) => match from_str_to_case(t) {
                Some(rule) => rule,
                None => {
                    return None;
                },
            },
            None => RenameRule::UpperSnake,
        };
        let prefix = match prefix {
            Some(p) => Some(p.to_owned()),
            None => None,
        };
        let suffix = match suffix {
            Some(s) => Some(s.to_owned()),
            None => None,
        };
        Some(NamingPolicy { rename_all: rule, prefix, suffix })
    }

    /// The lookup key of the field declared as `ident`. An explicit name is
    /// the key as it stands, whatever the policy; otherwise the key is the
    /// prefix, the identifier in the policy's case, and the suffix.
    pub fn key(&self, ident: &str, explicit: Option<&str>) -> (r: String)
        ensures
            r@ == self.key_spec(
                ident@,
                match explicit {
                    Some(name) => Some(name@),
                    None => None,
                },
            ),
            explicit is Some ==> r@ == explicit->0@,
            explicit is None ==> r@ == text_or_empty(self.prefix) + case_converted(
                unraw_spec(ident@),
                self.rename_all,
            ) + text_or_empty(self.suffix),
    {
        match explicit {
            Some(name) => name.to_owned(),
            None => {
                let base = unraw(ident);
                let converted = convert_identifier(base.as_str(), self.rename_all);
                let mut key = match &self.prefix {
                    Some(p) => p.clone(),
                    None => String::new(),
                };
                key.append(converted.as_str());
                match &self.suffix {
                    Some(s) => key.append(s.as_str()),
                    None => {},
                }
                key
            },
        }
    }
}

} // verus!
