//! The code that deriving `HelloMacro` adds to a type: an implementation
//! that greets with the type's name.

use vstd::prelude::*;
use vstd::string::{StringExecFns, StringSliceAdditionalSpecFns};

verus! {

/// The most nesting marks that a source may hold and still be parsed.
pub const MAX_NESTING: usize = 16;

/// The most bytes that a source may hold and still be parsed.
pub const MAX_SOURCE: usize = 4096;

/// Whether a byte opens a pair of brackets or stands before what it applies
/// to: one of `(`, `[`, `{`, `<`, `&`, `*`, `!` and `-`. Each of them is one
/// byte in a text, and no longer character holds that byte.
pub open spec fn is_nesting_mark(byte: u8) -> bool {
    byte == 0x28 || byte == 0x5b || byte == 0x7b || byte == 0x3c || byte == 0x26 || byte == 0x2a
        || byte == 0x21 || byte == 0x2d
}

/// The number of nesting marks among `bytes`. A type or an expression in a
/// source is nested no deeper than the source holds nesting marks, wherever
/// they stand, and nothing in it is nested deeper than it has bytes.
pub open spec fn nesting_marks(bytes: Seq<u8>) -> nat
    decreases bytes.len(),
{
    if bytes.len() == 0 {
        0
    } else {
        nesting_marks(bytes.drop_last()) + (if is_nesting_mark(bytes.last()) {
            1nat
        } else {
            0nat
        })
    }
}

/// Whether a source is small and flat enough to be handed to the parser.
pub open spec fn parseable(bytes: Seq<u8>) -> bool {
    bytes.len() <= MAX_SOURCE && nesting_marks(bytes) <= MAX_NESTING
}

/// Counts the nesting marks of `source`.
pub fn count_nesting_marks(source: &str) -> (count: usize)
    ensures
        count == nesting_marks(source.spec_bytes()),
{
    let bytes = source.as_bytes();
    let mut count: usize = 0;
    let mut at: usize = 0;
    while at < bytes.len()
        invariant
            at <= bytes@.len(),
            count <= at,
            count == nesting_marks(bytes@.take(at as int)),
        decreases bytes@.len() - at,
    {
        assert(bytes@.take(at + 1).drop_last() =~= bytes@.take(at as int));
        let byte = bytes[at];
        if byte == 0x28 || byte == 0x5b || byte == 0x7b || byte == 0x3c || byte == 0x26 || byte
            == 0x2a || byte == 0x21 || byte == 0x2d {
            count += 1;
        }
        at += 1;
    }
    assert(bytes@.take(at as int) =~= bytes@);
    count
}

/// Calls `syn::parse_str` for a `syn::DeriveInput` and takes the text of
/// the input's `ident`. The parser calls itself once for each level of
/// nesting in the source, so a source that nests deep enough exhausts the
/// stack; the bounds keep out every source that could nest deeper than
/// `MAX_NESTING` types or expressions. Trusted: within the bounds and on a
/// stack of the usual size the call returns. Nothing is claimed of what
/// comes back: it also depends on whether the process runs inside a
/// procedural macro.
#[verifier::external_body]
fn derive_target(source: &str) -> (name: Option<String>)
    requires
        parseable(source.spec_bytes()),
{
    match syn::parse_str::<syn::DeriveInput>(source) {
        Ok(ast) => Some(ast.ident.to_string()),
        Err(_) => None,
    }
}

/// The source of the implementation for the type `name`.
pub open spec fn hello_macro_impl(name: Seq<char>) -> Seq<char> {
    "impl HelloMacro for "@ + name
        + " { fn hello_macro() { println!(\"Hello, Macro! My name is {}!\", stringify!("@ + name
        + ")); } }"@
}

/// Writes the implementation of `HelloMacro` for the type `name`.
pub fn impl_hello_macro(name: &str) -> (code: String)
    ensures
        code@ == hello_macro_impl(name@),
{
    let mut code = String::from_str("impl HelloMacro for ");
    code.append(name);
    code.append(" { fn hello_macro() { println!(\"Hello, Macro! My name is {}!\", stringify!(");
    code.append(name);
    code.append(")); } }");
    code
}

/// Gives the implementation of `HelloMacro` for the type that `input`
/// defines. Gives `None` where the parser finds no type in `input`, and
/// where `input` is too long or holds too many nesting marks, in which case
/// the parser is not asked.
pub fn hello_macro_derive(input: &str) -> (code: Option<String>)
    ensures
        !parseable(input.spec_bytes()) ==> code is None,
        code is Some ==> exists|name: Seq<char>| code->Some_0@ == #[trigger] hello_macro_impl(name),
{
    if input.as_bytes().len() > MAX_SOURCE || count_nesting_marks(input) > MAX_NESTING {
        return None;
    }
    match derive_target(input) {
        Some(name) => {
            let code = impl_hello_macro(name.as_str());
            assert(code@ == hello_macro_impl(name@));
            Some(code)
        },
        None => None,
    }
}

} // verus!
