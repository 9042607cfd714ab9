use vstd::prelude::*;

verus! {

/// The six rich comparison operators a host language may ask for.
#[derive(Clone, Copy, Debug, PartialEq, Eq, Structural)]
pub enum CompareOp {
    Lt,
    Le,
    Eq,
    Ne,
    Gt,
    Ge,
}

/// What `op` answers when the two sides compare as the integers `a` and `b`.
pub open spec fn compare_ints(op: CompareOp, a: int, b: int) -> bool {
    match op {
        CompareOp::Lt => a < b,
        CompareOp::Le => a <= b,
        CompareOp::Eq => a == b,
        CompareOp::Ne => a != b,
        CompareOp::Gt => a > b,
        CompareOp::Ge => a >= b,
    }
}

/// Applies `op` to two unsigned integers.
pub fn compare_u32(op: CompareOp, a: u32, b: u32) -> (r: bool)
    ensures
        r == compare_ints(op, a as int, b as int),
{
    match op {
        CompareOp::Lt => a < b,
        CompareOp::Le => a <= b,
        CompareOp::Eq => a == b,
        CompareOp::Ne => a != b,
        CompareOp::Gt => a > b,
        CompareOp::Ge => a >= b,
    }
}

} // verus!
