use asalang::{AsaErrorKind, Interpreter, Node, Value};

fn name(s: &str) -> Vec<u8> {
    s.as_bytes().to_vec()
}

fn num(n: i32) -> Node {
    Node::Number { value: n }
}

fn boolean(b: bool) -> Node {
    Node::Bool { value: b }
}

fn text(s: &str) -> Node {
    Node::String { value: s.to_string() }
}

fn ident(s: &str) -> Node {
    Node::Identifier { value: name(s) }
}

fn expr(n: Node) -> Node {
    Node::Expression { children: vec![n] }
}

fn plus(a: Node, b: Node) -> Node {
    Node::MathExpression { name: name("add"), children: vec![a, b] }
}

fn minus(a: Node, b: Node) -> Node {
    Node::MathExpression { name: name("sub"), children: vec![a, b] }
}

fn cond(a: Node, op: Node, b: Node) -> Node {
    Node::ConditionalExpression { children: vec![a, op, b] }
}

fn define(var: &str, value: Node) -> Node {
    Node::VariableDefine { children: vec![ident(var), expr(value)] }
}

fn ret(value: Node) -> Node {
    Node::FunctionReturn { children: vec![expr(value)] }
}

fn call(f: &str, args: Vec<Node>) -> Node {
    Node::FunctionCall {
        name: name(f),
        children: vec![Node::FunctionArguments { children: args.into_iter().map(expr).collect() }],
    }
}

fn function(f: &str, params: &[&str], body: Vec<Node>) -> Node {
    Node::FunctionDefine {
        name: name(f),
        children: vec![
            Node::FunctionArguments { children: params.iter().map(|p| expr(ident(p))).collect() },
            Node::FunctionStatements { children: body },
        ],
    }
}

fn if_chain(case: Node, statements: Vec<Node>, else_statements: Vec<Node>) -> Node {
    Node::IfStatement { case: vec![case], statements, else_statements }
}

fn else_if(case: Node, statements: Vec<Node>) -> Node {
    Node::ElseIfStatement { case: vec![case], statements }
}

fn otherwise(statements: Vec<Node>) -> Node {
    Node::ElseStatement { statements }
}

fn program(children: Vec<Node>) -> Node {
    Node::Program { children }
}

fn run_fragment(children: Vec<Node>) -> Result<Value, AsaErrorKind> {
    let mut interpreter = Interpreter::new();
    interpreter.exec(&program(children))
}

fn run_program(functions: Vec<Node>) -> Result<Value, AsaErrorKind> {
    let mut interpreter = Interpreter::new();
    assert!(interpreter.exec(&program(functions)).is_ok());
    interpreter.start_main(vec![])
}

fn generic(msg: &str) -> AsaErrorKind {
    AsaErrorKind::Generic(msg.to_string())
}

#[test]
fn interpreter_numeric() {
    assert_eq!(run_fragment(vec![expr(num(123))]), Ok(Value::Number(123)));
}

#[test]
fn interpreter_string() {
    assert_eq!(run_fragment(vec![expr(text("helloworld"))]), Ok(Value::String("helloworld".to_string())));
}

#[test]
fn interpreter_bool_true() {
    assert_eq!(run_fragment(vec![expr(boolean(true))]), Ok(Value::Bool(true)));
}

#[test]
fn interpreter_bool_false() {
    assert_eq!(run_fragment(vec![expr(boolean(false))]), Ok(Value::Bool(false)));
}

#[test]
fn interpreter_identifier() {
    assert_eq!(run_fragment(vec![expr(ident("x"))]), Err(AsaErrorKind::UndefinedFunction));
}

#[test]
fn interpreter_function_call() {
    assert_eq!(run_fragment(vec![call("foo", vec![])]), Err(AsaErrorKind::UndefinedFunction));
}

#[test]
fn interpreter_function_call_one_arg() {
    assert_eq!(run_fragment(vec![call("foo", vec![ident("a")])]), Err(AsaErrorKind::UndefinedFunction));
}

#[test]
fn interpreter_function_call_more_args() {
    let c = call("foo", vec![ident("a"), ident("b"), ident("c")]);
    assert_eq!(run_fragment(vec![c]), Err(AsaErrorKind::UndefinedFunction));
}

#[test]
fn interpreter_variable_define() {
    assert_eq!(run_fragment(vec![define("x", num(123))]), Ok(Value::Number(123)));
}

#[test]
fn interpreter_variable_init() {
    assert_eq!(run_fragment(vec![define("x", num(1))]), Ok(Value::Number(1)));
}

#[test]
fn interpreter_variable_bool() {
    assert_eq!(run_fragment(vec![define("bool", boolean(true))]), Ok(Value::Bool(true)));
}

#[test]
fn interpreter_variable_string() {
    let r = run_fragment(vec![define("string", text("HelloWorld"))]);
    assert_eq!(r, Ok(Value::String("HelloWorld".to_string())));
}

#[test]
fn interpreter_math() {
    assert_eq!(run_fragment(vec![expr(plus(num(1), num(1)))]), Ok(Value::Number(2)));
}

#[test]
fn interpreter_math_no_space() {
    assert_eq!(run_fragment(vec![expr(minus(num(1), num(1)))]), Ok(Value::Number(0)));
}

#[test]
fn interpreter_math_multiply() {
    assert_eq!(run_fragment(vec![expr(plus(num(2), num(4)))]), Ok(Value::Number(6)));
}

#[test]
fn interpreter_assign_math() {
    assert_eq!(run_fragment(vec![define("x", plus(num(1), num(1)))]), Ok(Value::Number(2)));
}

#[test]
fn interpreter_assign_function() {
    assert_eq!(run_fragment(vec![define("x", call("foo", vec![]))]), Err(AsaErrorKind::UndefinedFunction));
}

#[test]
fn interpreter_assign_function_arguments() {
    let c = call("foo", vec![ident("a"), ident("b"), ident("c")]);
    assert_eq!(run_fragment(vec![define("x", c)]), Err(AsaErrorKind::UndefinedFunction));
}

#[test]
fn interpreter_define_function() {
    let r = run_program(vec![
        function("main", &[], vec![ret(call("foo", vec![]))]),
        function("foo", &[], vec![ret(num(5))]),
    ]);
    assert_eq!(r, Ok(Value::Number(5)));
}

#[test]
fn interpreter_define_function_args() {
    let r = run_program(vec![
        function("main", &[], vec![ret(call("foo", vec![num(1), num(2)]))]),
        function("foo", &["a", "b"], vec![ret(plus(ident("a"), ident("b")))]),
    ]);
    assert_eq!(r, Ok(Value::Number(3)));
}

#[test]
fn interpreter_define_function_more_statement() {
    let r = run_program(vec![
        function("main", &[], vec![ret(call("foo", vec![]))]),
        function("foo", &[], vec![define("x", num(5)), ret(ident("x"))]),
    ]);
    assert_eq!(r, Ok(Value::Number(5)));
}

#[test]
fn interpreter_define_full_program() {
    let r = run_program(vec![
        function("foo", &["a", "b", "c"], vec![
            define("x", plus(ident("a"), num(1))),
            define("y", call("bar", vec![plus(ident("c"), ident("b"))])),
            ret(plus(ident("x"), ident("y"))),
        ]),
        function("bar", &["a"], vec![ret(plus(ident("a"), num(3)))]),
        function("main", &[], vec![ret(call("foo", vec![num(1), num(2), num(3)]))]),
    ]);
    assert_eq!(r, Ok(Value::Number(10)));
}

#[test]
fn hw5_test_1() {
    let r = run_program(vec![function("main", &[], vec![ret(plus(num(10), num(5)))])]);
    assert_eq!(r, Ok(Value::Number(15)));
}

#[test]
fn hw5_test_2() {
    let r = run_program(vec![function("main", &[], vec![ret(minus(num(20), num(7)))])]);
    assert_eq!(r, Ok(Value::Number(13)));
}

#[test]
fn hw5_test_3() {
    let r = run_program(vec![function("main", &[], vec![
        define("x", num(30)),
        define("y", num(15)),
        ret(minus(ident("x"), ident("y"))),
    ])]);
    assert_eq!(r, Ok(Value::Number(15)));
}

#[test]
fn hw5_test_4() {
    let r = run_program(vec![function("main", &[], vec![
        define("x", num(100)),
        define("y", num(50)),
        define("z", plus(ident("x"), ident("y"))),
        ret(ident("z")),
    ])]);
    assert_eq!(r, Ok(Value::Number(150)));
}

#[test]
fn hw5_test_5() {
    let r = run_program(vec![function("main", &[], vec![
        define("x", num(50)),
        define("y", num(20)),
        define("z", num(10)),
        ret(num(65)),
    ])]);
    assert_eq!(r, Ok(Value::Number(65)));
}

#[test]
fn hw5_test_6() {
    let r = run_program(vec![function("main", &[], vec![define("x", num(50)), ret(ident("x"))])]);
    assert_eq!(r, Ok(Value::Number(50)));
}

#[test]
fn final_test_1() {
    let r = run_program(vec![function("main", &[], vec![
        ret(cond(num(1), Node::GreaterThan {}, num(2))),
    ])]);
    assert_eq!(r, Ok(Value::Bool(false)));
}

#[test]
fn final_test_2() {
    let r = run_program(vec![
        function("main", &[], vec![ret(call("a", vec![]))]),
        function("a", &[], vec![
            define("x", cond(boolean(true), Node::And {}, boolean(false))),
            ret(ident("x")),
        ]),
    ]);
    assert_eq!(r, Ok(Value::Bool(false)));
}

#[test]
fn final_test_3() {
    let r = run_program(vec![
        function("main", &[], vec![
            define("x", num(2)),
            define("y", num(3)),
            define("z", cond(ident("x"), Node::LessThanOrEqualTo {}, ident("y"))),
            define("ab", call("a", vec![])),
            define("zz", cond(ident("z"), Node::Or {}, ident("ab"))),
            ret(ident("zz")),
        ]),
        function("a", &[], vec![
            define("c", cond(boolean(true), Node::And {}, boolean(false))),
            ret(ident("c")),
        ]),
    ]);
    assert_eq!(r, Ok(Value::Bool(true)));
}

#[test]
fn final_test_4() {
    let r = run_program(vec![function("main", &[], vec![
        ret(cond(boolean(true), Node::GreaterThan {}, num(2))),
    ])]);
    assert_eq!(r, Err(AsaErrorKind::TypeMismatch));
}

#[test]
fn final_test_5() {
    let r = run_program(vec![function("main", &[], vec![
        ret(cond(num(1), Node::Or {}, num(2))),
    ])]);
    assert_eq!(r, Err(AsaErrorKind::TypeMismatch));
}

#[test]
fn final_test_6() {
    let r = run_program(vec![function("main", &[], vec![if_chain(
        cond(num(1), Node::LessThan {}, num(2)),
        vec![ret(num(3))],
        vec![otherwise(vec![ret(num(5))])],
    )])]);
    assert_eq!(r, Ok(Value::Number(3)));
}

#[test]
fn final_test_7() {
    let r = run_program(vec![function("main", &[], vec![if_chain(
        cond(num(1), Node::LessThan {}, num(2)),
        vec![define("x", num(1)), ret(ident("x"))],
        vec![otherwise(vec![ret(num(5))])],
    )])]);
    assert_eq!(r, Ok(Value::Number(1)));
}

#[test]
fn final_test_8() {
    let r = run_program(vec![function("main", &[], vec![if_chain(
        cond(num(1), Node::GreaterThan {}, num(2)),
        vec![ret(num(3))],
        vec![otherwise(vec![ret(num(5))])],
    )])]);
    assert_eq!(r, Ok(Value::Number(5)));
}

#[test]
fn final_test_9() {
    let r = run_program(vec![function("main", &[], vec![if_chain(
        cond(num(1), Node::GreaterThan {}, num(2)),
        vec![ret(num(3))],
        vec![
            else_if(cond(num(1), Node::LessThan {}, num(2)), vec![ret(num(6))]),
            otherwise(vec![ret(num(5))]),
        ],
    )])]);
    assert_eq!(r, Ok(Value::Number(6)));
}

#[test]
fn final_test_10() {
    let r = run_program(vec![function("main", &[], vec![if_chain(
        cond(num(1), Node::GreaterThan {}, num(2)),
        vec![ret(num(3))],
        vec![
            else_if(cond(num(1), Node::EqualTo {}, num(2)), vec![ret(num(2))]),
            else_if(cond(num(1), Node::LessThan {}, num(2)), vec![ret(num(6))]),
            otherwise(vec![ret(num(5))]),
        ],
    )])]);
    assert_eq!(r, Ok(Value::Number(6)));
}
