use vstd::prelude::*;
use vstd::string::StringExecFns;

use crate::decl::TypeDeclaration;
use crate::validate::ValidationResult;
use crate::validate::Reason;
use crate::validate::is_eligible;
use crate::validate::rejection;
use crate::validate::validate;

verus! {

/// An owned, immutable block of generated source text: the conversion
/// implementation for one scalar wrapper. Created by `emit`, consumed
/// by the normalizer and the snapshot harness.
#[derive(Clone, PartialEq, Eq, Debug)]
pub struct GeneratedFragment {
    text: String,
}

impl View for GeneratedFragment {
    type V = Seq<char>;

    closed spec fn view(&self) -> Seq<char> {
        self.text@
    }
}

impl GeneratedFragment {
    /// The generated source text.
    pub fn text(&self) -> (r: &str)
        ensures
            r@ == self@,
    {
        self.text.as_str()
    }

    /// Gives up the fragment and hands out its text.
    pub fn into_text(self) -> (r: String)
        ensures
            r@ == self@,
    {
        self.text
    }
}

/// The exact unformatted text emitted for a wrapper with the given
/// declared name and inner type reference: an implementation that
/// decodes a serialized value by delegating to the inner type's
/// decoder and re-wrapping (tagging any decode failure with the
/// wrapper's name), and encodes by unwrapping and delegating to the
/// inner type's encoder. Purely syntactic in the two names.
pub open spec fn fragment_spec(name: Seq<char>, inner: Seq<char>) -> Seq<char> {
    "impl FromValue for "@ + name
        + " { fn from_value(value: Value) -> Result<Self, DecodeError> { match <"@ + inner
        + " as FromValue>::from_value(value) { Ok(inner) => Ok("@ + name
        + "(inner)), Err(cause) => Err(cause.within_wrapper(\""@ + name
        + "\")), } } } impl IntoValue for "@ + name
        + " { fn into_value(self) -> Value { let "@ + name
        + "(inner) = self; <"@ + inner
        + " as IntoValue>::into_value(inner) } }"@
}

/// Emits the conversion implementation for a validated declaration.
/// Total: succeeds for every name and inner type reference, and the
/// result is exactly `fragment_spec` of its inputs.
pub fn emit(name: &str, inner: &str) -> (r: GeneratedFragment)
    ensures
        r@ == fragment_spec(name@, inner@),
{
    let mut text = String::new();
    text.append("impl FromValue for ");
    text.append(name);
    text.append(" { fn from_value(value: Value) -> Result<Self, DecodeError> { match <");
    text.append(inner);
    text.append(" as FromValue>::from_value(value) { Ok(inner) => Ok(");
    text.append(name);
    text.append("(inner)), Err(cause) => Err(cause.within_wrapper(\"");
    text.append(name);
    text.append("\")), } } } impl IntoValue for ");
    text.append(name);
    text.append(" { fn into_value(self) -> Value { let ");
    text.append(name);
    text.append("(inner) = self; <");
    text.append(inner);
    text.append(" as IntoValue>::into_value(inner) } }");
    assert(text@ =~= fragment_spec(name@, inner@));
    GeneratedFragment { text }
}

/// Validates a declaration and, when it is eligible, emits its
/// conversion implementation. A rejected declaration yields its
/// rejection reason and nothing is emitted.
pub fn generate(decl: &TypeDeclaration) -> (r: Result<GeneratedFragment, Reason>)
    ensures
        is_eligible(*decl) ==> (r matches Ok(f) && f@ == fragment_spec(
            decl.name@,
            decl.fields@[0].ty@,
        )),
        !is_eligible(*decl) ==> r == Err::<GeneratedFragment, Reason>(rejection(*decl)),
{
    match validate(decl) {
        ValidationResult::Eligible(name, inner) => Ok(emit(name.as_str(), inner.as_str())),
        ValidationResult::Rejected(reason) => Err(reason),
    }
}

/// Emission is deterministic: any two fragments emitted for the same
/// declared name and inner type reference are byte-identical.
pub proof fn lemma_emit_deterministic(
    name: Seq<char>,
    inner: Seq<char>,
    first: Seq<char>,
    second: Seq<char>,
)
    requires
        first == fragment_spec(name, inner),
        second == fragment_spec(name, inner),
    ensures
        first == second,
{
}

} // verus!
