use vstd::prelude::*;
use crate::function_expr::FunctionExpr;
use crate::output::OutputTypeRule;

verus! {

/// A node of an expression tree.
#[derive(Debug, PartialEq, Eq, Hash)]
pub enum Expr {
    /// A column read by name.
    Column(String),
    /// A built-in operation applied to an input expression, with the rule
    /// that predicts its output type.
    Function { input: Box<Expr>, function: FunctionExpr, output: OutputTypeRule },
}

/// Whether `e` applies `function` to `input` with output rule `output`.
pub open spec fn is_application(
    e: Expr,
    input: Expr,
    function: FunctionExpr,
    output: OutputTypeRule,
) -> bool {
    e matches Expr::Function { input: i, function: f, output: o } && *i == input && f == function
        && o == output
}

impl Expr {
    /// A column reference.
    pub fn col(name: &str) -> (r: Expr)
        ensures
            r matches Expr::Column(n) && n@ == name@,
    {
        Expr::Column(String::from_str(name))
    }

    /// Wraps this expression in an application of `function`.
    pub fn apply(self, function: FunctionExpr, output: OutputTypeRule) -> (r: Expr)
        ensures
            is_application(r, self, function, output),
    {
        Expr::Function { input: Box::new(self), function, output }
    }
}

} // verus!
