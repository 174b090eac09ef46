use crate::equatable::Equatable;
use crate::exportable::Exportable;
use crate::indexable::Indexable;
use crate::usage::Usage;
use crate::Protected;
use vstd::prelude::*;
use vstd::string::StringExecFns;

verus! {

/// Relies on `String::push`: appends exactly one character.
#[verifier::external_body]
pub(crate) fn string_push(s: &mut String, c: char)
    ensures
        final(s)@ == old(s)@ + seq![c],
{
    s.push(c)
}

/// The decimal digits of `n`, most significant first.
pub open spec fn spec_decimal(n: int) -> Seq<char>
    decreases n,
{
    if n < 10 {
        seq![spec_digit(n)]
    } else {
        spec_decimal(n / 10).push(spec_digit(n % 10))
    }
}

/// The digit character for a value below ten.
pub open spec fn spec_digit(d: int) -> char {
    seq!['0', '1', '2', '3', '4', '5', '6', '7', '8', '9'][d]
}

/// Render a number in decimal.
fn usize_decimal(x: usize) -> (r: String)
    ensures
        r@ == spec_decimal(x as int),
    decreases x,
{
    let digits: [char; 10] = ['0', '1', '2', '3', '4', '5', '6', '7', '8', '9'];
    proof {
        assert(digits@ =~= seq!['0', '1', '2', '3', '4', '5', '6', '7', '8', '9']);
    }
    if x < 10 {
        let mut s = String::new();
        string_push(&mut s, digits[x]);
        proof {
            assert(s@ =~= seq![spec_digit(x as int)]);
        }
        s
    } else {
        let mut s = usize_decimal(x / 10);
        string_push(&mut s, digits[x % 10]);
        s
    }
}

/// A compile-time label for a raw type, used only to caption redacted
/// debug output.
pub trait TypeLabel {
    /// The type's name, as written in source.
    fn type_label() -> String;
}

impl TypeLabel for u8 {
    fn type_label() -> String {
        String::from_str("u8")
    }
}

impl TypeLabel for u16 {
    fn type_label() -> String {
        String::from_str("u16")
    }
}

impl TypeLabel for u32 {
    fn type_label() -> String {
        String::from_str("u32")
    }
}

impl TypeLabel for u64 {
    fn type_label() -> String {
        String::from_str("u64")
    }
}

impl TypeLabel for u128 {
    fn type_label() -> String {
        String::from_str("u128")
    }
}

impl TypeLabel for usize {
    fn type_label() -> String {
        String::from_str("usize")
    }
}

impl TypeLabel for char {
    fn type_label() -> String {
        String::from_str("char")
    }
}

impl TypeLabel for String {
    fn type_label() -> String {
        String::from_str("String")
    }
}

impl<T: TypeLabel> TypeLabel for Vec<T> {
    fn type_label() -> String {
        let mut s = String::from_str("Vec<");
        s.append(T::type_label().as_str());
        s.append(">");
        s
    }
}

impl<T: TypeLabel, const N: usize> TypeLabel for [T; N] {
    fn type_label() -> String {
        let mut s = String::from_str("[");
        s.append(T::type_label().as_str());
        s.append("; ");
        s.append(usize_decimal(N).as_str());
        s.append("]");
        s
    }
}

/// A rendering for debug output that shows the wrapper's shape and never
/// the raw value.
pub trait RedactedDebug {
    /// The redacted rendering.
    fn debug_repr(&self) -> String;
}

impl<T: TypeLabel> RedactedDebug for Protected<T> {
    fn debug_repr(&self) -> String {
        let mut s = String::from_str("Protected<");
        s.append(T::type_label().as_str());
        s.append("> { ... }");
        s
    }
}

impl<T: RedactedDebug> RedactedDebug for Equatable<T> {
    fn debug_repr(&self) -> String {
        let mut s = String::from_str("Equatable(");
        s.append(self.0.debug_repr().as_str());
        s.append(")");
        s
    }
}

impl<T: RedactedDebug> RedactedDebug for Exportable<T> {
    fn debug_repr(&self) -> String {
        let mut s = String::from_str("Exportable(");
        s.append(self.0.debug_repr().as_str());
        s.append(")");
        s
    }
}

impl<T: RedactedDebug> RedactedDebug for Indexable<T> {
    fn debug_repr(&self) -> String {
        let mut s = String::from_str("Indexable(");
        s.append(self.0.debug_repr().as_str());
        s.append(")");
        s
    }
}

impl<T: RedactedDebug, S> RedactedDebug for Usage<T, S> {
    fn debug_repr(&self) -> String {
        let mut s = String::from_str("Usage(");
        s.append(self.0.debug_repr().as_str());
        s.append(")");
        s
    }
}

} // verus!
