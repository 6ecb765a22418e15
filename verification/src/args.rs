//! The argument planner: a default literal for each declared argument, and
//! the list of what is handed to the entry point.

use vstd::prelude::*;
use vstd::string::*;
use crate::schema::{ArgType, Argument, Entry};
use crate::text::{decimal, decimal_text, views};

verus! {

/// A type as the schema declares it, before it is placed in the table of
/// default literals.
#[derive(Debug, PartialEq, Eq)]
pub enum DeclaredType {
    U8,
    U64,
    Bool,
    Text,
    PublicKey,
    /// An array: the type of its elements, and its length where the schema
    /// gives that as a number.
    Array { element: Box<DeclaredType>, len: Option<usize> },
    /// Any other type.
    Other,
}

/// The place of a declared type in the table: the five plain types stand
/// for themselves, an array of unsigned-8 elements with a number for its
/// length is a byte array of that length, and every other type is outside
/// the table and keeps the text that describes it.
pub open spec fn arg_type_for(declared: DeclaredType, described: String) -> ArgType {
    match declared {
        DeclaredType::U8 => ArgType::U8,
        DeclaredType::U64 => ArgType::U64,
        DeclaredType::Bool => ArgType::Bool,
        DeclaredType::Text => ArgType::Text,
        DeclaredType::PublicKey => ArgType::PublicKey,
        DeclaredType::Array { element, len } => match (*element, len) {
            (DeclaredType::U8, Some(count)) => ArgType::ByteArray(count),
            _ => ArgType::Other(described),
        },
        DeclaredType::Other => ArgType::Other(described),
    }
}

/// Places a declared type in the table of default literals; `described` is
/// the text kept for a type outside the table.
pub fn arg_type_of(declared: &DeclaredType, described: String) -> (r: ArgType)
    ensures
        r == arg_type_for(*declared, described),
{
    match declared {
        DeclaredType::U8 => ArgType::U8,
        DeclaredType::U64 => ArgType::U64,
        DeclaredType::Bool => ArgType::Bool,
        DeclaredType::Text => ArgType::Text,
        DeclaredType::PublicKey => ArgType::PublicKey,
        DeclaredType::Array { element, len } => match (&**element, len) {
            (DeclaredType::U8, Some(count)) => ArgType::ByteArray(*count),
            _ => ArgType::Other(described),
        },
        DeclaredType::Other => ArgType::Other(described),
    }
}

/// The default literal of a declared type. A type outside the table gets a
/// marked placeholder and the type's own default, so that generation goes on.
pub open spec fn literal_text(ty: ArgType) -> Seq<char> {
    match ty {
        ArgType::U8 => "0u8"@,
        ArgType::U64 => "0u64"@,
        ArgType::Bool => "false"@,
        ArgType::Text => "\"test\".to_string()"@,
        ArgType::PublicKey => "Pubkey::new_unique()"@,
        ArgType::ByteArray(len) => "[0u8; "@ + decimal_text(len as nat) + "]"@,
        ArgType::Other(described) => "/* unsupported arg type: "@ + described@
            + " */ Default::default()"@,
    }
}

/// The statement that binds an argument to its default literal.
pub open spec fn arg_binding_text(arg: Argument) -> Seq<char> {
    "let "@ + arg.name@ + " = "@ + literal_text(arg.ty) + ";"@
}

/// The binding statements of a list of arguments, in their order.
pub open spec fn arg_binding_texts(args: Seq<Argument>) -> Seq<Seq<char>> {
    Seq::new(args.len(), |i: int| arg_binding_text(args[i]))
}

/// What is handed to the entry point: the execution context, then the
/// arguments by name in the order of their declaration.
pub open spec fn call_arg_texts(args: Seq<Argument>) -> Seq<Seq<char>> {
    Seq::new(args.len() + 1, |i: int| if i == 0 { "ctx"@ } else { args[i - 1].name@ })
}

/// The default literal of a declared type.
pub fn default_literal(ty: &ArgType) -> (r: String)
    ensures
        r@ == literal_text(*ty),
{
    match ty {
        ArgType::U8 => String::from_str("0u8"),
        ArgType::U64 => String::from_str("0u64"),
        ArgType::Bool => String::from_str("false"),
        ArgType::Text => String::from_str("\"test\".to_string()"),
        ArgType::PublicKey => String::from_str("Pubkey::new_unique()"),
        ArgType::ByteArray(len) => {
            let mut out = String::from_str("[0u8; ");
            let numeral = decimal(*len);
            out.append(numeral.as_str());
            out.append("]");
            out
        },
        ArgType::Other(described) => {
            let mut out = String::from_str("/* unsupported arg type: ");
            out.append(described.as_str());
            out.append(" */ Default::default()");
            out
        },
    }
}

/// The statement that binds an argument to its default literal.
pub fn arg_binding(arg: &Argument) -> (r: String)
    ensures
        r@ == arg_binding_text(*arg),
{
    let literal = default_literal(&arg.ty);
    let mut out = String::from_str("let ");
    out.append(arg.name.as_str());
    out.append(" = ");
    out.append(literal.as_str());
    out.append(";");
    out
}

/// The argument bindings of an entry and the list handed to its entry point.
#[derive(Debug, Clone, PartialEq, Eq)]
pub struct InstructionArgCode {
    pub args: Vec<String>,
    pub call_args: Vec<String>,
}

impl InstructionArgCode {
    /// Writes the default binding of every argument of `ix` and the call
    /// list. No declared type makes this fail.
    pub fn generate_argument_code(ix: &Entry) -> (r: InstructionArgCode)
        ensures
            views(r.args@) == arg_binding_texts(ix.args@),
            views(r.call_args@) == call_arg_texts(ix.args@),
    {
        let mut args: Vec<String> = Vec::new();
        let mut call_args: Vec<String> = Vec::new();
        call_args.push(String::from_str("ctx"));
        let mut i: usize = 0;
        while i < ix.args.len()
            invariant
                i <= ix.args.len(),
                args@.len() == i,
                call_args@.len() == i + 1,
                call_args@[0]@ == "ctx"@,
                forall|k: int| 0 <= k < i ==> args@[k]@ == arg_binding_text(ix.args@[k]),
                forall|k: int| 0 <= k < i ==> call_args@[k + 1]@ == ix.args@[k].name@,
            decreases ix.args.len() - i,
        {
            args.push(arg_binding(&ix.args[i]));
            call_args.push(ix.args[i].name.clone());
            i += 1;
        }
        assert(views(args@) =~= arg_binding_texts(ix.args@));
        assert forall|k: int| 0 <= k < call_args@.len() implies views(call_args@)[k]
            == call_arg_texts(ix.args@)[k] by {
            if k > 0 {
                assert(call_args@[(k - 1) + 1]@ == ix.args@[k - 1].name@);
            }
        }
        assert(views(call_args@) =~= call_arg_texts(ix.args@));
        InstructionArgCode { args, call_args }
    }
}

} // verus!
