use vstd::prelude::*;
use crate::ast::Ast;
use crate::error::Fault;
use crate::value::Val;

verus! {

/// The evaluator's state: the table of functions (name to parameter list and
/// statement list) and the stack of frames (name to value).
pub struct Env {
    pub functions: Map<Seq<u8>, (Ast, Ast)>,
    pub frames: Seq<Map<Seq<u8>, Val>>,
}

/// What evaluating a node gives.
pub type Outcome = Result<Val, Fault>;

impl Env {
    pub open spec fn push_frame(self, frame: Map<Seq<u8>, Val>) -> Env {
        Env { functions: self.functions, frames: self.frames.push(frame) }
    }

    /// Drops the topmost frame; a stack with no frame stays as it is.
    pub open spec fn pop_frame(self) -> Env {
        if self.frames.len() == 0 {
            self
        } else {
            Env { functions: self.functions, frames: self.frames.drop_last() }
        }
    }

    /// The value of `name` in the topmost frame: no other frame is visible.
    pub open spec fn lookup(self, name: Seq<u8>) -> Option<Val> {
        if self.frames.len() == 0 || !self.frames.last().contains_key(name) {
            None
        } else {
            Some(self.frames.last()[name])
        }
    }

    /// Binds `name` to `v` in the topmost frame.
    pub open spec fn set_var(self, name: Seq<u8>, v: Val) -> Env
        recommends
            self.frames.len() > 0,
    {
        Env {
            functions: self.functions,
            frames: self.frames.update(
                self.frames.len() - 1,
                self.frames.last().insert(name, v),
            ),
        }
    }

    pub open spec fn define_function(self, name: Seq<u8>, params: Ast, body: Ast) -> Env {
        Env { functions: self.functions.insert(name, (params, body)), frames: self.frames }
    }
}

pub open spec fn msg_depth() -> Seq<char> {
    "Call depth limit reached"@
}

pub open spec fn msg_malformed() -> Seq<char> {
    "Malformed syntax tree"@
}

pub open spec fn msg_unsupported_node() -> Seq<char> {
    "Node cannot be evaluated"@
}

pub open spec fn msg_math_operator() -> Seq<char> {
    "Cannot solve mathematical expression: unknown operator"@
}

pub open spec fn msg_math_arity() -> Seq<char> {
    "Cannot solve mathematical expression: expected two operands"@
}

pub open spec fn msg_math_operands() -> Seq<char> {
    "Cannot solve mathematical expression: operands must be numbers"@
}

pub open spec fn msg_unsupported_operator() -> Seq<char> {
    "Unsupported conditional operator"@
}

pub open spec fn msg_arity() -> Seq<char> {
    "Number of arguments does not match expected"@
}

pub open spec fn msg_syntax() -> Seq<char> {
    "Syntax Error"@
}

pub open spec fn msg_param_shape() -> Seq<char> {
    "Expected argument to be an identifier within an expression"@
}

pub open spec fn msg_no_args() -> Seq<char> {
    "No Arguments Expected"@
}

pub open spec fn msg_body() -> Seq<char> {
    "Expected a list of function statements"@
}

pub open spec fn msg_not_statement() -> Seq<char> {
    "Not a defined statement"@
}

pub open spec fn msg_no_frame() -> Seq<char> {
    "No frame to define the variable in"@
}

/// The name of the addition operator, `add`.
pub open spec fn add_name() -> Seq<u8> {
    seq![97u8, 100u8, 100u8]
}

/// The name of the subtraction operator, `sub`.
pub open spec fn sub_name() -> Seq<u8> {
    seq![115u8, 117u8, 98u8]
}

/// The name of the entry point, `main`.
pub open spec fn main_name() -> Seq<u8> {
    seq![109u8, 97u8, 105u8, 110u8]
}

/// Checked 32-bit arithmetic on two operand values.
pub open spec fn math_outcome(name: Seq<u8>, a: Val, b: Val) -> Outcome {
    match (a, b) {
        (Val::Number(x), Val::Number(y)) => {
            let s: int = if name == add_name() {
                x + y
            } else {
                x - y
            };
            if s > i32::MAX {
                Err(Fault::NumberOverflow)
            } else if s < i32::MIN {
                Err(Fault::NumberUnderflow)
            } else {
                Ok(Val::Number(s as i32))
            }
        },
        _ => Err(Fault::Generic(msg_math_operands())),
    }
}

/// Whether `op` is one of the six comparison operators.
pub open spec fn is_comparison(op: Ast) -> bool {
    op is EqualTo || op is NotEqualTo || op is LessThan || op is GreaterThan
        || op is LessThanOrEqualTo || op is GreaterThanOrEqualTo
}

/// The comparison that `op` makes. `EqualTo` tests whether the left operand
/// is greater than the right one.
pub open spec fn compare(op: Ast, x: i32, y: i32) -> bool {
    match op {
        Ast::EqualTo => x > y,
        Ast::NotEqualTo => x != y,
        Ast::LessThan => x < y,
        Ast::GreaterThan => x > y,
        Ast::LessThanOrEqualTo => x <= y,
        _ => x >= y,
    }
}

/// A conditional operator applied to two operand values.
pub open spec fn condition_outcome(op: Ast, a: Val, b: Val) -> Outcome {
    if is_comparison(op) {
        match (a, b) {
            (Val::Number(x), Val::Number(y)) => Ok(Val::Bool(compare(op, x, y))),
            _ => Err(Fault::TypeMismatch),
        }
    } else if op is And || op is Or {
        match (a, b) {
            (Val::Bool(x), Val::Bool(y)) => Ok(Val::Bool(if op is And { x && y } else { x || y })),
            _ => Err(Fault::TypeMismatch),
        }
    } else {
        Err(Fault::Generic(msg_unsupported_operator()))
    }
}

/// The argument expressions of a call: the children of a leading
/// `FunctionArguments` node, or else the call's own children.
pub open spec fn call_arguments(cs: Seq<Ast>) -> Seq<Ast> {
    if cs.len() > 0 && cs[0] is FunctionArguments {
        cs[0]->FunctionArguments_0
    } else {
        cs
    }
}

/// Evaluates `n` in `env`. Each nested evaluation uses one unit of `fuel`;
/// with none left, evaluation fails.
pub open spec fn eval(fuel: nat, env: Env, n: Ast) -> (Outcome, Env)
    decreases fuel, 1int, 0int,
{
    if fuel == 0 {
        (Err(Fault::Generic(msg_depth())), env)
    } else {
        let f = (fuel - 1) as nat;
        match n {
            Ast::Program(cs) => {
                let (r, e) = eval_block(f, env, cs, 0, Ok(Val::Bool(true)));
                (r, e.pop_frame())
            },
            Ast::MathExpression(name, cs) => {
                if name != add_name() && name != sub_name() {
                    (Err(Fault::Generic(msg_math_operator())), env)
                } else if cs.len() != 2 {
                    (Err(Fault::Generic(msg_math_arity())), env)
                } else {
                    let (r1, e1) = eval(f, env, cs[0]);
                    match r1 {
                        Err(x) => (Err(x), e1),
                        Ok(a) => {
                            let (r2, e2) = eval(f, e1, cs[1]);
                            match r2 {
                                Err(x) => (Err(x), e2),
                                Ok(b) => (math_outcome(name, a, b), e2),
                            }
                        },
                    }
                }
            },
            Ast::ConditionalExpression(cs) => {
                if cs.len() != 3 {
                    (Err(Fault::Generic(msg_malformed())), env)
                } else {
                    let (r1, e1) = eval(f, env, cs[0]);
                    match r1 {
                        Err(x) => (Err(x), e1),
                        Ok(a) => {
                            let (r2, e2) = eval(f, e1, cs[2]);
                            match r2 {
                                Err(x) => (Err(x), e2),
                                Ok(b) => (condition_outcome(cs[1], a, b), e2),
                            }
                        },
                    }
                }
            },
            Ast::IfStatement(case, stmts, elses) => {
                if case.len() == 0 {
                    (Err(Fault::Generic(msg_malformed())), env)
                } else {
                    let (c, e) = eval(f, env, case[0]);
                    match c {
                        Err(x) => (Err(x), e),
                        Ok(Val::Bool(b)) => {
                            if b {
                                eval_branch(f, e, stmts)
                            } else {
                                eval_else(f, e, elses, 0)
                            }
                        },
                        Ok(_) => (Err(Fault::TypeMismatch), e),
                    }
                }
            },
            Ast::FunctionCall(name, cs) => eval_call(f, env, name, cs),
            Ast::FunctionDefine(name, cs) => {
                if cs.len() < 2 {
                    (Err(Fault::Generic(msg_malformed())), env)
                } else {
                    (Ok(Val::Bool(true)), env.define_function(name, cs[0], cs[1]))
                }
            },
            Ast::FunctionReturn(cs) => {
                if cs.len() == 0 {
                    (Err(Fault::Generic(msg_malformed())), env)
                } else {
                    eval(f, env, cs[0])
                }
            },
            Ast::Identifier(name) => {
                match env.lookup(name) {
                    Some(v) => (Ok(v), env),
                    None => (Err(Fault::UndefinedFunction), env),
                }
            },
            Ast::Statement(cs) => {
                if cs.len() == 0 {
                    (Err(Fault::Generic(msg_malformed())), env)
                } else if cs[0] is VariableDefine || cs[0] is FunctionReturn {
                    eval(f, env, cs[0])
                } else {
                    (Err(Fault::Generic(msg_not_statement())), env)
                }
            },
            Ast::VariableDefine(cs) => {
                if cs.len() < 2 {
                    (Err(Fault::Generic(msg_malformed())), env)
                } else {
                    let name = if cs[0] is Identifier {
                        cs[0]->Identifier_0
                    } else {
                        Seq::empty()
                    };
                    let (r, e) = eval(f, env, cs[1]);
                    match r {
                        Err(x) => (Err(x), e),
                        Ok(v) => {
                            if e.frames.len() == 0 {
                                (Err(Fault::Generic(msg_no_frame())), e)
                            } else {
                                (Ok(v), e.set_var(name, v))
                            }
                        },
                    }
                }
            },
            Ast::Expression(cs) => {
                if cs.len() == 0 {
                    (Err(Fault::Generic(msg_malformed())), env)
                } else {
                    eval(f, env, cs[0])
                }
            },
            Ast::Number(v) => (Ok(Val::Number(v)), env),
            Ast::Text(s) => (Ok(Val::Text(s)), env),
            Ast::Bool(b) => (Ok(Val::Bool(b)), env),
            _ => (Err(Fault::Generic(msg_unsupported_node())), env),
        }
    }
}

/// Evaluates `stmts[i..]` in order, starting from the result `acc`. The
/// last result is kept; the first failure ends the sequence.
pub open spec fn eval_block(fuel: nat, env: Env, stmts: Seq<Ast>, i: int, acc: Outcome) -> (
    Outcome,
    Env,
)
    decreases fuel, 2int, stmts.len() - i,
{
    if i < 0 || i >= stmts.len() {
        (acc, env)
    } else {
        let (r, e) = eval(fuel, env, stmts[i]);
        if r is Err {
            (r, e)
        } else {
            eval_block(fuel, e, stmts, i + 1, r)
        }
    }
}

/// Runs a branch of an `if` chain in a fresh frame of its own.
pub open spec fn eval_branch(fuel: nat, env: Env, stmts: Seq<Ast>) -> (Outcome, Env)
    decreases fuel, 2int, stmts.len() + 1,
{
    let (r, e) = eval_block(fuel, env.push_frame(Map::empty()), stmts, 0, Ok(Val::Undefined));
    (r, e.pop_frame())
}

/// Tries the clauses `clauses[i..]` that follow a false `if` condition.
pub open spec fn eval_else(fuel: nat, env: Env, clauses: Seq<Ast>, i: int) -> (Outcome, Env)
    decreases fuel, 3int, clauses.len() - i,
{
    if i < 0 || i >= clauses.len() {
        (Ok(Val::Undefined), env)
    } else {
        match clauses[i] {
            Ast::ElseIfStatement(case, stmts) => {
                if case.len() == 0 {
                    (Err(Fault::Generic(msg_malformed())), env)
                } else {
                    let (c, e) = eval(fuel, env, case[0]);
                    match c {
                        Err(x) => (Err(x), e),
                        Ok(Val::Bool(b)) => {
                            if b {
                                eval_branch(fuel, e, stmts)
                            } else {
                                eval_else(fuel, e, clauses, i + 1)
                            }
                        },
                        Ok(_) => (Err(Fault::TypeMismatch), e),
                    }
                }
            },
            Ast::ElseStatement(stmts) => eval_branch(fuel, env, stmts),
            _ => (Err(Fault::UndefinedFunction), env),
        }
    }
}

/// Binds `params[i..]` to the values of `args[i..]`, evaluated in the
/// caller's frame, into `frame`.
pub open spec fn bind_params(
    fuel: nat,
    env: Env,
    params: Seq<Ast>,
    args: Seq<Ast>,
    i: int,
    frame: Map<Seq<u8>, Val>,
) -> (Result<Map<Seq<u8>, Val>, Fault>, Env)
    decreases fuel, 2int, params.len() - i,
{
    if i < 0 || i >= params.len() {
        (Ok(frame), env)
    } else {
        match params[i] {
            Ast::Expression(cs) => {
                if cs.len() > 0 && cs[0] is Identifier {
                    let (r, e) = eval(fuel, env, args[i]);
                    match r {
                        Err(x) => (Err(x), e),
                        Ok(v) => bind_params(
                            fuel,
                            e,
                            params,
                            args,
                            i + 1,
                            frame.insert(cs[0]->Identifier_0, v),
                        ),
                    }
                } else {
                    (Err(Fault::Generic(msg_syntax())), env)
                }
            },
            _ => (Err(Fault::Generic(msg_param_shape())), env),
        }
    }
}

/// Calls the function `name` with the argument nodes `cs`.
pub open spec fn eval_call(fuel: nat, env: Env, name: Seq<u8>, cs: Seq<Ast>) -> (Outcome, Env)
    decreases fuel, 4int, 0int,
{
    if !env.functions.contains_key(name) {
        (Err(Fault::UndefinedFunction), env)
    } else {
        let (params, body) = env.functions[name];
        let (bound, e1) = match params {
            Ast::FunctionArguments(ps) => {
                let actual = call_arguments(cs);
                if ps.len() != actual.len() {
                    (Err(Fault::Generic(msg_arity())), env)
                } else {
                    bind_params(fuel, env, ps, actual, 0, Map::empty())
                }
            },
            _ => {
                if cs.len() > 0 {
                    (Err(Fault::Generic(msg_no_args())), env)
                } else {
                    (Ok(Map::empty()), env)
                }
            },
        };
        match bound {
            Err(x) => (Err(x), e1),
            Ok(frame) => {
                match body {
                    Ast::FunctionStatements(stmts) => {
                        let (r, e2) = eval_block(
                            fuel,
                            e1.push_frame(frame),
                            stmts,
                            0,
                            Err(Fault::UndefinedFunction),
                        );
                        (r, e2.pop_frame())
                    },
                    _ => (Err(Fault::Generic(msg_body())), e1),
                }
            },
        }
    }
}

/// The fuel that a top-level evaluation starts with. It bounds the nesting of
/// evaluation; the native stack runs out long before it does.
pub const MAX_DEPTH: u64 = 18446744073709551615;

/// Evaluates `n` in `env`.
pub open spec fn evaluate(env: Env, n: Ast) -> (Outcome, Env) {
    eval(MAX_DEPTH as nat, env, n)
}

} // verus!
