//! Masked rendering of a bound structure: secret fields show a fixed token
//! in place of their value.
use vstd::prelude::*;

verus! {

/// How one field of a bound structure is shown: its name, its ordinary
/// rendering, and whether it is secret.
pub struct Shown {
    pub name: String,
    pub text: String,
    pub secret: bool,
}

impl Shown {
    /// The field `name`, ordinarily rendered as `text`.
    pub fn new(name: &str, text: &str, secret: bool) -> (r: Shown)
        ensures
            r.name@ == name@,
            r.text@ == text@,
            r.secret == secret,
    {
        Shown { name: name.to_owned(), text: text.to_owned(), secret }
    }
}

/// What a secret field shows in place of its value.
pub open spec fn mask_token() -> Seq<char> {
    "\"***\""@
}

/// One field as `name: value`, the value masked when the field is secret.
pub open spec fn field_rendering(f: Shown) -> Seq<char> {
    f.name@ + ": "@ + if f.secret {
        mask_token()
    } else {
        f.text@
    }
}

/// The fields, rendered in order and separated by `", "`.
pub open spec fn field_listing(fs: Seq<Shown>) -> Seq<char>
    decreases fs.len(),
{
    if fs.len() == 0 {
        Seq::empty()
    } else if fs.len() == 1 {
        field_rendering(fs[0])
    } else {
        field_listing(fs.drop_last()) + ", "@ + field_rendering(fs.last())
    }
}

/// The structure `name` with its fields, as `Name { a: x, b: y }`, or the
/// bare name when it has no fields.
pub open spec fn masked(name: Seq<char>, fs: Seq<Shown>) -> Seq<char> {
    if fs.len() == 0 {
        name
    } else {
        name + " { "@ + field_listing(fs) + " }"@
    }
}

/// Renders the structure `struct_name` with `fields`, each secret field
/// shown as `"***"` whatever its value; the values themselves are only
/// read.
pub fn render_masked(struct_name: &str, fields: &Vec<Shown>) -> (r: String)
    ensures
        r@ == masked(struct_name@, fields@),
{
    let mut out = struct_name.to_owned();
    if fields.len() == 0 {
        return out;
    }
    out.append(" { ");
    let ghost head = out@;
    let mut i: usize = 0;
    while i < fields.len()
        invariant
            i <= fields@.len(),
            fields@.len() > 0,
            head == struct_name@ + " { "@,
            out@ == head + field_listing(fields@.subrange(0, i as int)),
        decreases fields@.len() - i,
    {
        let f = &fields[i];
        if i > 0 {
            out.append(", ");
        }
        out.append(f.name.as_str());
        out.append(": ");
        if f.secret {
            out.append("\"***\"");
        } else {
            out.append(f.text.as_str());
        }
        assert(fields@.subrange(0, i + 1).drop_last() =~= fields@.subrange(0, i as int));
        i = i + 1;
        assert(out@ =~= head + field_listing(fields@.subrange(0, i as int)));
    }
    out.append(" }");
    assert(fields@.subrange(0, i as int) =~= fields@);
    out
}

/// Masked rendering does not depend on what a secret field holds: field
/// lists that agree on every field's name and secrecy, and on the text of
/// every field that is not secret, render alike. So a secret field shows
/// the same token whether its value is present or absent.
pub proof fn lemma_secret_text_hidden(name: Seq<char>, a: Seq<Shown>, b: Seq<Shown>)
    requires
        a.len() == b.len(),
        forall|i: int|
            0 <= i < a.len() ==> {
                &&& (#[trigger] a[i]).name@ == b[i].name@
                &&& a[i].secret == b[i].secret
                &&& !a[i].secret ==> a[i].text@ == b[i].text@
            },
    ensures
        masked(name, a) == masked(name, b),
{
    lemma_listing_hides_secrets(a, b);
}

proof fn lemma_listing_hides_secrets(a: Seq<Shown>, b: Seq<Shown>)
    requires
        a.len() == b.len(),
        forall|i: int|
            0 <= i < a.len() ==> {
                &&& (#[trigger] a[i]).name@ == b[i].name@
                &&& a[i].secret == b[i].secret
                &&& !a[i].secret ==> a[i].text@ == b[i].text@
            },
    ensures
        field_listing(a) == field_listing(b),
    decreases a.len(),
{
    if a.len() > 1 {
        let a2 = a.drop_last();
        let b2 = b.drop_last();
        assert forall|i: int| 0 <= i < a2.len() implies {
            &&& (#[trigger] a2[i]).name@ == b2[i].name@
            &&& a2[i].secret == b2[i].secret
            &&& !a2[i].secret ==> a2[i].text@ == b2[i].text@
        } by {
            assert(a2[i] == a[i]);
            assert(b2[i] == b[i]);
        }
        lemma_listing_hides_secrets(a2, b2);
        assert(a[a.len() - 1].name@ == b[b.len() - 1].name@);
    } else if a.len() == 1 {
        assert(a[0].name@ == b[0].name@);
    }
}

} // verus!
