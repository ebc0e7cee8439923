//! The wrapper program that turns an expression into a result artifact.

use vstd::prelude::*;

verus! {

/// The program text before the expression.
pub const PROGRAM_HEAD: &'static str = "use std::io::Write;\n\nfn main() -> std::io::Result<()> {\n    let mut file = std::fs::File::create(\"output\")?;\n    let output = { ";

/// The program text after the expression.
pub const PROGRAM_TAIL: &'static str = " }.to_string();\n    file.write_all(output.as_bytes())?;\n    Ok(())\n}\n";

/// The wrapper program around the expression source `expr`: it computes the
/// expression, turns the value into text and writes it to the result file.
pub open spec fn program(expr: Seq<char>) -> Seq<char> {
    PROGRAM_HEAD@ + expr + PROGRAM_TAIL@
}

/// The wrapper program around `expr`, embedded verbatim between braces.
pub fn wrapper_program(expr: &str) -> (r: String)
    ensures
        r@ == program(expr@),
{
    PROGRAM_HEAD.to_string().concat(expr).concat(PROGRAM_TAIL)
}

} // verus!
