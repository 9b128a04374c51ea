use vstd::prelude::*;
use crate::ast::Ast;
use crate::error::Fault;
use crate::semantics::{
    add_name, call_arguments, compare, eval, eval_branch, eval_call, eval_else, evaluate, is_comparison, msg_arity,
    msg_math_operands, sub_name, Env, MAX_DEPTH,
};
use crate::value::Val;

verus! {

/// A literal node: a number, a string or a boolean.
pub open spec fn is_literal(n: Ast) -> bool {
    n is Number || n is Text || n is Bool
}

/// Adding two numbers gives their sum when it fits in 32 bits, and changes
/// nothing else.
pub proof fn law_add(env: Env, a: i32, b: i32)
    requires
        i32::MIN <= a + b <= i32::MAX,
    ensures
        evaluate(env, Ast::MathExpression(add_name(), seq![Ast::Number(a), Ast::Number(b)]))
            == (Ok::<Val, Fault>(Val::Number((a + b) as i32)), env),
{
    let n = Ast::MathExpression(add_name(), seq![Ast::Number(a), Ast::Number(b)]);
    let f = (MAX_DEPTH - 1) as nat;
    assert(eval(f, env, Ast::Number(a)) == (Ok::<Val, Fault>(Val::Number(a)), env));
    assert(eval(f, env, Ast::Number(b)) == (Ok::<Val, Fault>(Val::Number(b)), env));
}

/// Subtracting two numbers gives their difference when it fits in 32 bits,
/// and changes nothing else.
pub proof fn law_sub(env: Env, a: i32, b: i32)
    requires
        i32::MIN <= a - b <= i32::MAX,
    ensures
        evaluate(env, Ast::MathExpression(sub_name(), seq![Ast::Number(a), Ast::Number(b)]))
            == (Ok::<Val, Fault>(Val::Number((a - b) as i32)), env),
{
    let f = (MAX_DEPTH - 1) as nat;
    assert(add_name() != sub_name()) by {
        assert(add_name()[0] != sub_name()[0]);
    }
    assert(eval(f, env, Ast::Number(a)) == (Ok::<Val, Fault>(Val::Number(a)), env));
    assert(eval(f, env, Ast::Number(b)) == (Ok::<Val, Fault>(Val::Number(b)), env));
}

/// Adding or subtracting a literal that is not a number fails with the
/// operand error.
pub proof fn law_math_needs_numbers(env: Env, name: Seq<u8>, x: Ast, y: Ast)
    requires
        name == add_name() || name == sub_name(),
        is_literal(x),
        is_literal(y),
        !(x is Number && y is Number),
    ensures
        evaluate(env, Ast::MathExpression(name, seq![x, y])) == (
            Err::<Val, Fault>(Fault::Generic(msg_math_operands())),
            env,
        ),
{
    let f = (MAX_DEPTH - 1) as nat;
    assert(eval(f, env, x).1 == env);
    assert(eval(f, env, y).1 == env);
}

/// Binding a variable and then reading it in the same frame gives the value
/// that was bound.
pub proof fn law_define_then_read(env: Env, x: Seq<u8>, e: Ast)
    ensures
        ({
            let (r, after) = evaluate(env, Ast::VariableDefine(seq![Ast::Identifier(x), e]));
            r is Ok ==> evaluate(after, Ast::Identifier(x)) == (r, after)
        }),
{
    let (r, after) = evaluate(env, Ast::VariableDefine(seq![Ast::Identifier(x), e]));
    if r is Ok {
        assert(after.frames.last() == after.frames[after.frames.len() - 1]);
        assert(after.lookup(x) == Some(r->Ok_0));
    }
}

/// Reading a name that the topmost frame does not bind fails with
/// `UndefinedFunction`.
pub proof fn law_undefined_identifier(env: Env, x: Seq<u8>)
    requires
        env.lookup(x) is None,
    ensures
        evaluate(env, Ast::Identifier(x)) == (Err::<Val, Fault>(Fault::UndefinedFunction), env),
{
    assert(MAX_DEPTH as nat > 0);
}

/// Calling a function that was never defined fails with `UndefinedFunction`.
pub proof fn law_undefined_function(env: Env, name: Seq<u8>, args: Seq<Ast>)
    requires
        !env.functions.contains_key(name),
    ensures
        evaluate(env, Ast::FunctionCall(name, args)) == (
            Err::<Val, Fault>(Fault::UndefinedFunction),
            env,
        ),
{
    let f = (MAX_DEPTH - 1) as nat;
    assert(eval_call(f, env, name, args) == (Err::<Val, Fault>(Fault::UndefinedFunction), env));
}

/// Calling a function with a number of arguments other than the number of
/// its parameters fails with the arity error, before any argument is
/// evaluated.
pub proof fn law_arity_mismatch(env: Env, name: Seq<u8>, args: Seq<Ast>)
    requires
        env.functions.contains_key(name),
        env.functions[name].0 is FunctionArguments,
        env.functions[name].0->FunctionArguments_0.len() != call_arguments(args).len(),
    ensures
        evaluate(env, Ast::FunctionCall(name, args)) == (
            Err::<Val, Fault>(Fault::Generic(msg_arity())),
            env,
        ),
{
    let f = (MAX_DEPTH - 1) as nat;
    assert(eval_call(f, env, name, args) == (
        Err::<Val, Fault>(Fault::Generic(msg_arity())),
        env,
    ));
}

/// A comparison of two numbers succeeds with a boolean.
pub proof fn law_compare_numbers(env: Env, op: Ast, x: i32, y: i32)
    requires
        is_comparison(op),
    ensures
        evaluate(env, Ast::ConditionalExpression(seq![Ast::Number(x), op, Ast::Number(y)])) == (
            Ok::<Val, Fault>(Val::Bool(compare(op, x, y))),
            env,
        ),
{
    let f = (MAX_DEPTH - 1) as nat;
    assert(eval(f, env, Ast::Number(x)) == (Ok::<Val, Fault>(Val::Number(x)), env));
    assert(eval(f, env, Ast::Number(y)) == (Ok::<Val, Fault>(Val::Number(y)), env));
}

/// A comparison with a literal operand that is not a number fails with
/// `TypeMismatch`.
pub proof fn law_compare_needs_numbers(env: Env, op: Ast, x: Ast, y: Ast)
    requires
        is_comparison(op),
        is_literal(x),
        is_literal(y),
        !(x is Number && y is Number),
    ensures
        evaluate(env, Ast::ConditionalExpression(seq![x, op, y])) == (
            Err::<Val, Fault>(Fault::TypeMismatch),
            env,
        ),
{
    let f = (MAX_DEPTH - 1) as nat;
    assert(eval(f, env, x).1 == env);
    assert(eval(f, env, y).1 == env);
}

/// `&&` and `||` with a literal operand that is not a boolean fail with
/// `TypeMismatch`.
pub proof fn law_logic_needs_bools(env: Env, op: Ast, x: Ast, y: Ast)
    requires
        op is And || op is Or,
        is_literal(x),
        is_literal(y),
        !(x is Bool && y is Bool),
    ensures
        evaluate(env, Ast::ConditionalExpression(seq![x, op, y])) == (
            Err::<Val, Fault>(Fault::TypeMismatch),
            env,
        ),
{
    let f = (MAX_DEPTH - 1) as nat;
    assert(eval(f, env, x).1 == env);
    assert(eval(f, env, y).1 == env);
}

/// An `if` / `else if` / `else` chain runs exactly one branch: the first
/// whose condition holds, else the `else` branch.
pub proof fn law_if_chain(env: Env, c1: bool, c2: bool, s1: Seq<Ast>, s2: Seq<Ast>, s3: Seq<Ast>)
    ensures
        evaluate(
            env,
            Ast::IfStatement(
                seq![Ast::Bool(c1)],
                s1,
                seq![Ast::ElseIfStatement(seq![Ast::Bool(c2)], s2), Ast::ElseStatement(s3)],
            ),
        ) == (if c1 {
            eval_branch((MAX_DEPTH - 1) as nat, env, s1)
        } else if c2 {
            eval_branch((MAX_DEPTH - 1) as nat, env, s2)
        } else {
            eval_branch((MAX_DEPTH - 1) as nat, env, s3)
        }),
{
    let f = (MAX_DEPTH - 1) as nat;
    assert(eval(f, env, Ast::Bool(c1)) == (Ok::<Val, Fault>(Val::Bool(c1)), env));
    assert(eval(f, env, Ast::Bool(c2)) == (Ok::<Val, Fault>(Val::Bool(c2)), env));
    let elses = seq![Ast::ElseIfStatement(seq![Ast::Bool(c2)], s2), Ast::ElseStatement(s3)];
    assert(eval_else(f, env, elses, 1) == eval_branch(f, env, s3));
    assert(eval_else(f, env, elses, 0) == (if c2 {
        eval_branch(f, env, s2)
    } else {
        eval_else(f, env, elses, 1)
    }));
}

/// An `if` whose condition is false and which has no other clause runs no
/// branch and gives `Undefined`, not an error.
pub proof fn law_if_without_else(env: Env, s1: Seq<Ast>)
    ensures
        evaluate(env, Ast::IfStatement(seq![Ast::Bool(false)], s1, seq![])) == (
            Ok::<Val, Fault>(Val::Undefined),
            env,
        ),
{
    let f = (MAX_DEPTH - 1) as nat;
    assert(eval(f, env, Ast::Bool(false)) == (Ok::<Val, Fault>(Val::Bool(false)), env));
    assert(eval_else(f, env, seq![], 0) == (Ok::<Val, Fault>(Val::Undefined), env));
}

/// Defining a function again replaces the earlier definition: the table
/// holds the latest one, and is the same as if only that one had been made.
pub proof fn law_redefine(env: Env, name: Seq<u8>, p1: Ast, b1: Ast, p2: Ast, b2: Ast)
    ensures
        ({
            let first = evaluate(env, Ast::FunctionDefine(name, seq![p1, b1])).1;
            let second = evaluate(first, Ast::FunctionDefine(name, seq![p2, b2]));
            &&& second.0 == Ok::<Val, Fault>(Val::Bool(true))
            &&& second.1.functions[name] == (p2, b2)
            &&& second.1 == evaluate(env, Ast::FunctionDefine(name, seq![p2, b2])).1
        }),
{
    let first = evaluate(env, Ast::FunctionDefine(name, seq![p1, b1])).1;
    let second = evaluate(first, Ast::FunctionDefine(name, seq![p2, b2]));
    assert(second.1.functions =~= env.functions.insert(name, (p2, b2)));
}

} // verus!
