//! Errors of code generation, and the names given to slots and blocks.
use crate::mir::BinOp;
use crate::plan::Fault;
use vstd::prelude::*;

verus! {

/// An error of code generation; its kind is told by the message's prefix.
#[derive(Debug)]
pub struct CodegenError {
    pub message: String,
}

pub open spec fn digit_text(d: nat) -> Seq<char> {
    if d == 0 {
        "0"@
    } else if d == 1 {
        "1"@
    } else if d == 2 {
        "2"@
    } else if d == 3 {
        "3"@
    } else if d == 4 {
        "4"@
    } else if d == 5 {
        "5"@
    } else if d == 6 {
        "6"@
    } else if d == 7 {
        "7"@
    } else if d == 8 {
        "8"@
    } else {
        "9"@
    }
}

/// The decimal digits of `n`, most significant first, without leading zeros.
pub open spec fn decimal(n: nat) -> Seq<char>
    decreases n,
{
    if n < 10 {
        digit_text(n)
    } else {
        decimal(n / 10) + digit_text(n % 10)
    }
}

fn digit_str(d: usize) -> (r: &'static str)
    requires
        d < 10,
    ensures
        r@ == digit_text(d as nat),
{
    if d == 0 {
        "0"
    } else if d == 1 {
        "1"
    } else if d == 2 {
        "2"
    } else if d == 3 {
        "3"
    } else if d == 4 {
        "4"
    } else if d == 5 {
        "5"
    } else if d == 6 {
        "6"
    } else if d == 7 {
        "7"
    } else if d == 8 {
        "8"
    } else {
        "9"
    }
}

/// Appends the decimal digits of `n` to `s`.
pub fn push_decimal(s: &mut String, n: usize)
    ensures
        final(s)@ == old(s)@ + decimal(n as nat),
    decreases n,
{
    if n >= 10 {
        push_decimal(s, n / 10);
    }
    s.append(digit_str(n % 10));
    proof {
        if n >= 10 {
            assert(old(s)@ + decimal((n / 10) as nat) + digit_text((n % 10) as nat) =~= old(s)@
                + decimal(n as nat));
        } else {
            assert(old(s)@ + digit_text(n as nat) =~= old(s)@ + decimal(n as nat));
        }
    }
}

/// The name of the stack slot of local `i`.
pub fn local_name(i: usize) -> (r: String)
    ensures
        r@ == "local_"@ + decimal(i as nat),
{
    let mut s = String::from_str("local_");
    push_decimal(&mut s, i);
    s
}

/// The name of the native block of MIR block `i`.
pub fn block_name(i: usize) -> (r: String)
    ensures
        r@ == "bb_"@ + decimal(i as nat),
{
    let mut s = String::from_str("bb_");
    push_decimal(&mut s, i);
    s
}

pub open spec fn binop_name(op: BinOp) -> Seq<char> {
    match op {
        BinOp::Add => "Add"@,
        BinOp::Sub => "Sub"@,
        BinOp::Mul => "Mul"@,
        BinOp::Div => "Div"@,
        BinOp::Mod => "Mod"@,
        BinOp::Eq => "Eq"@,
        BinOp::Ne => "Ne"@,
        BinOp::Lt => "Lt"@,
        BinOp::Le => "Le"@,
        BinOp::Gt => "Gt"@,
        BinOp::Ge => "Ge"@,
        BinOp::And => "And"@,
        BinOp::Or => "Or"@,
        BinOp::BitXor => "BitXor"@,
        BinOp::Shl => "Shl"@,
        BinOp::Shr => "Shr"@,
    }
}

fn binop_str(op: BinOp) -> (r: &'static str)
    ensures
        r@ == binop_name(op),
{
    match op {
        BinOp::Add => "Add",
        BinOp::Sub => "Sub",
        BinOp::Mul => "Mul",
        BinOp::Div => "Div",
        BinOp::Mod => "Mod",
        BinOp::Eq => "Eq",
        BinOp::Ne => "Ne",
        BinOp::Lt => "Lt",
        BinOp::Le => "Le",
        BinOp::Gt => "Gt",
        BinOp::Ge => "Ge",
        BinOp::And => "And",
        BinOp::Or => "Or",
        BinOp::BitXor => "BitXor",
        BinOp::Shl => "Shl",
        BinOp::Shr => "Shr",
    }
}

pub open spec fn fault_message(f: Fault) -> Seq<char> {
    match f {
        Fault::UnknownFunction(name) => "Unknown function: "@ + name@,
        Fault::UnknownLocal(i) => "Unknown local: "@ + decimal(i as nat),
        Fault::MissingOtherwise => "Missing otherwise block"@,
        Fault::MissingThen => "Missing then block"@,
        Fault::UnsupportedRvalue => "Unsupported rvalue: Ref"@,
        Fault::UnsupportedBinOp(op) => "Unsupported binary operator: "@ + binop_name(op),
    }
}

/// The message of a failure of the native IR library while building `what`.
pub open spec fn builder_message(what: Seq<char>, detail: Seq<char>) -> Seq<char> {
    what + " failed: "@ + detail
}

impl CodegenError {
    pub fn from_fault(f: &Fault) -> (r: CodegenError)
        ensures
            r.message@ == fault_message(*f),
    {
        let message = match f {
            Fault::UnknownFunction(name) => String::from_str("Unknown function: ").concat(
                name.as_str(),
            ),
            Fault::UnknownLocal(i) => {
                let mut s = String::from_str("Unknown local: ");
                push_decimal(&mut s, *i);
                s
            },
            Fault::MissingOtherwise => String::from_str("Missing otherwise block"),
            Fault::MissingThen => String::from_str("Missing then block"),
            Fault::UnsupportedRvalue => String::from_str("Unsupported rvalue: Ref"),
            Fault::UnsupportedBinOp(op) => String::from_str("Unsupported binary operator: ").concat(
                binop_str(*op),
            ),
        };
        CodegenError { message }
    }

    /// A failure of the native IR library while building `what`.
    pub fn builder(what: &str, detail: String) -> (r: CodegenError)
        ensures
            r.message@ == builder_message(what@, detail@),
    {
        let message = String::from_str(what).concat(" failed: ").concat(detail.as_str());
        CodegenError { message }
    }

    /// An error with the given message.
    pub fn new(message: &str) -> (r: CodegenError)
        ensures
            r.message@ == message@,
    {
        CodegenError { message: String::from_str(message) }
    }

    /// The message, as the error is displayed.
    pub fn to_string(&self) -> (r: String)
        ensures
            r@ == "codegen error: "@ + self.message@,
    {
        String::from_str("codegen error: ").concat(self.message.as_str())
    }
}

} // verus!
