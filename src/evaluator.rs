use vstd::prelude::*;
use crate::ast::{copy_bytes, lemma_view_nodes, view_nodes, Ast, Node};
use crate::error::{generic, AsaErrorKind, Fault};
use crate::interpreter::{outcome_of, Interpreter};
use crate::semantics::{
    add_name, bind_params, call_arguments, condition_outcome, eval, eval_block, eval_branch,
    eval_call, eval_else, evaluate, main_name, math_outcome, sub_name, MAX_DEPTH,
};
use crate::table::Table;
use crate::value::{Val, Value};

verus! {

broadcast use lemma_view_nodes;

/// Whether `name` is the three bytes `a`, `b`, `c`.
fn is_name(name: &Vec<u8>, a: u8, b: u8, c: u8) -> (r: bool)
    ensures
        r == (name@ == seq![a, b, c]),
{
    let r = name.len() == 3 && name[0] == a && name[1] == b && name[2] == c;
    proof {
        if r {
            assert(name@ =~= seq![a, b, c]);
        } else if name@ == seq![a, b, c] {
            assert(name@[0] == a && name@[1] == b && name@[2] == c);
        }
    }
    r
}

/// Adds or subtracts two operand values, with overflow checked.
pub fn math_value(name: &Vec<u8>, a: Value, b: Value) -> (r: Result<Value, AsaErrorKind>)
    requires
        name@ == add_name() || name@ == sub_name(),
    ensures
        outcome_of(r) == math_outcome(name@, a@, b@),
{
    match (a, b) {
        (Value::Number(x), Value::Number(y)) => {
            let s: i64 = if is_name(name, 97, 100, 100) {
                x as i64 + y as i64
            } else {
                x as i64 - y as i64
            };
            if s > i32::MAX as i64 {
                Err(AsaErrorKind::NumberOverflow)
            } else if s < i32::MIN as i64 {
                Err(AsaErrorKind::NumberUnderflow)
            } else {
                Ok(Value::Number(s as i32))
            }
        },
        _ => Err(generic("Cannot solve mathematical expression: operands must be numbers")),
    }
}

/// Applies the conditional operator `op` to two operand values.
pub fn condition_value(op: &Node, a: Value, b: Value) -> (r: Result<Value, AsaErrorKind>)
    ensures
        outcome_of(r) == condition_outcome(op@, a@, b@),
{
    match op {
        Node::EqualTo {  }
        | Node::NotEqualTo {  }
        | Node::LessThan {  }
        | Node::GreaterThan {  }
        | Node::LessThanOrEqualTo {  }
        | Node::GreaterThanOrEqualTo {  } => {
            match (a, b) {
                (Value::Number(x), Value::Number(y)) => {
                    let c = match op {
                        Node::EqualTo {  } => x > y,
                        Node::NotEqualTo {  } => x != y,
                        Node::LessThan {  } => x < y,
                        Node::GreaterThan {  } => x > y,
                        Node::LessThanOrEqualTo {  } => x <= y,
                        _ => x >= y,
                    };
                    Ok(Value::Bool(c))
                },
                _ => Err(AsaErrorKind::TypeMismatch),
            }
        },
        Node::And {  } | Node::Or {  } => {
            match (a, b) {
                (Value::Bool(x), Value::Bool(y)) => {
                    let c = match op {
                        Node::And {  } => x && y,
                        _ => x || y,
                    };
                    Ok(Value::Bool(c))
                },
                _ => Err(AsaErrorKind::TypeMismatch),
            }
        },
        _ => Err(generic("Unsupported conditional operator")),
    }
}

/// What a frame built by binding arguments stands for.
pub open spec fn frame_outcome(r: Result<Table<Value>, AsaErrorKind>) -> Result<
    Map<Seq<u8>, Val>,
    Fault,
> {
    match r {
        Ok(t) => Ok(t@),
        Err(e) => Err(e@),
    }
}

impl Interpreter {
    /// Evaluates the statements `stmts` in order in the current frame. The
    /// result is that of the last statement, or `init` when there is none; the
    /// first failure ends the sequence.
    fn run_block(&mut self, stmts: &Vec<Node>, init: Result<Value, AsaErrorKind>, fuel: u64) -> (r:
        Result<Value, AsaErrorKind>)
        ensures
            (outcome_of(r), final(self)@) == eval_block(
                fuel as nat,
                old(self)@,
                view_nodes(stmts@),
                0,
                outcome_of(init),
            ),
        decreases fuel, 2int, 0int,
    {
        let ghost s = view_nodes(stmts@);
        let ghost goal = eval_block(fuel as nat, self@, s, 0, outcome_of(init));
        let mut acc = init;
        let mut i: usize = 0;
        while i < stmts.len()
            invariant
                i <= stmts@.len(),
                s == view_nodes(stmts@),
                goal == eval_block(fuel as nat, old(self)@, s, 0, outcome_of(init)),
                goal == eval_block(fuel as nat, self@, s, i as int, outcome_of(acc)),
            decreases stmts.len() - i,
        {
            proof {
                assert(s[i as int] == stmts@[i as int]@);
            }
            let r = self.eval_node(&stmts[i], fuel);
            match r {
                Err(e) => {
                    return Err(e);
                },
                Ok(v) => {
                    acc = Ok(v);
                },
            }
            i += 1;
        }
        acc
    }

    /// Runs a branch of an `if` chain in a fresh frame, which is dropped after.
    fn run_branch(&mut self, stmts: &Vec<Node>, fuel: u64) -> (r: Result<Value, AsaErrorKind>)
        ensures
            (outcome_of(r), final(self)@) == eval_branch(fuel as nat, old(self)@, view_nodes(stmts@)),
        decreases fuel, 3int, 0int,
    {
        self.push_new_frame();
        let r = self.run_block(stmts, Ok(Value::Undefined), fuel);
        self.pop_frame();
        r
    }

    /// Tries, in order, the clauses that follow a false `if` condition.
    fn run_else(&mut self, clauses: &Vec<Node>, fuel: u64) -> (r: Result<Value, AsaErrorKind>)
        ensures
            (outcome_of(r), final(self)@) == eval_else(fuel as nat, old(self)@, view_nodes(clauses@), 0),
        decreases fuel, 4int, 0int,
    {
        let ghost s = view_nodes(clauses@);
        let ghost goal = eval_else(fuel as nat, self@, s, 0);
        let mut i: usize = 0;
        while i < clauses.len()
            invariant
                i <= clauses@.len(),
                s == view_nodes(clauses@),
                goal == eval_else(fuel as nat, old(self)@, s, 0),
                goal == eval_else(fuel as nat, self@, s, i as int),
            decreases clauses.len() - i,
        {
            proof {
                assert(s[i as int] == clauses@[i as int]@);
            }
            match &clauses[i] {
                Node::ElseIfStatement { case, statements } => {
                    proof {
                        assert(view_nodes(case@).len() == case@.len());
                    }
                    if case.len() == 0 {
                        return Err(generic("Malformed syntax tree"));
                    }
                    proof {
                        assert(view_nodes(case@)[0] == case@[0]@);
                    }
                    match self.eval_node(&case[0], fuel) {
                        Err(e) => {
                            return Err(e);
                        },
                        Ok(Value::Bool(b)) => {
                            if b {
                                return self.run_branch(statements, fuel);
                            }
                        },
                        Ok(_) => {
                            return Err(AsaErrorKind::TypeMismatch);
                        },
                    }
                },
                Node::ElseStatement { statements } => {
                    return self.run_branch(statements, fuel);
                },
                _ => {
                    return Err(AsaErrorKind::UndefinedFunction);
                },
            }
            i += 1;
        }
        Ok(Value::Undefined)
    }

    /// Binds each parameter in `params` to the value of the argument at the
    /// same place in `args`, evaluated in the caller's frame.
    fn bind_args(&mut self, params: &Vec<Node>, args: &Vec<Node>, fuel: u64) -> (r: Result<
        Table<Value>,
        AsaErrorKind,
    >)
        requires
            params@.len() == args@.len(),
        ensures
            (frame_outcome(r), final(self)@) == bind_params(
                fuel as nat,
                old(self)@,
                view_nodes(params@),
                view_nodes(args@),
                0,
                Map::empty(),
            ),
        decreases fuel, 2int, 0int,
    {
        let ghost ps = view_nodes(params@);
        let ghost xs = view_nodes(args@);
        let ghost goal = bind_params(fuel as nat, self@, ps, xs, 0, Map::empty());
        let mut frame: Table<Value> = Table::new();
        let mut i: usize = 0;
        while i < params.len()
            invariant
                i <= params@.len(),
                params@.len() == args@.len(),
                ps == view_nodes(params@),
                xs == view_nodes(args@),
                goal == bind_params(fuel as nat, old(self)@, ps, xs, 0, Map::empty()),
                goal == bind_params(fuel as nat, self@, ps, xs, i as int, frame@),
            decreases params.len() - i,
        {
            proof {
                lemma_view_nodes(params@);
                lemma_view_nodes(args@);
                assert(ps[i as int] == params@[i as int]@);
                assert(xs[i as int] == args@[i as int]@);
            }
            match &params[i] {
                Node::Expression { children } => {
                    proof {
                        assert(view_nodes(children@).len() == children@.len());
                    }
                    if children.len() == 0 {
                        return Err(generic("Syntax Error"));
                    }
                    proof {
                        assert(view_nodes(children@)[0] == children@[0]@);
                    }
                    match &children[0] {
                        Node::Identifier { value } => {
                            match self.eval_node(&args[i], fuel) {
                                Err(e) => {
                                    return Err(e);
                                },
                                Ok(v) => {
                                    frame.set(copy_bytes(value), v);
                                },
                            }
                        },
                        _ => {
                            return Err(generic("Syntax Error"));
                        },
                    }
                },
                _ => {
                    return Err(
                        generic("Expected argument to be an identifier within an expression"),
                    );
                },
            }
            i += 1;
        }
        Ok(frame)
    }

    /// Calls the function `name` with the argument nodes `children`.
    fn run_call(&mut self, name: &Vec<u8>, children: &Vec<Node>, fuel: u64) -> (r: Result<
        Value,
        AsaErrorKind,
    >)
        ensures
            (outcome_of(r), final(self)@) == eval_call(
                fuel as nat,
                old(self)@,
                name@,
                view_nodes(children@),
            ),
        decreases fuel, 5int, 0int,
    {
        let (params, body) = match self.lookup_function(name) {
            None => {
                return Err(AsaErrorKind::UndefinedFunction);
            },
            Some(entry) => entry,
        };
        let frame = match &params {
            Node::FunctionArguments { children: ps } => {
                proof {
                    lemma_view_nodes(children@);
                }
                let actual: &Vec<Node> = if children.len() > 0 {
                    proof {
                        assert(view_nodes(children@)[0] == children@[0]@);
                    }
                    match &children[0] {
                        Node::FunctionArguments { children: inner } => inner,
                        _ => children,
                    }
                } else {
                    children
                };
                proof {
                    lemma_view_nodes(actual@);
                    lemma_view_nodes(ps@);
                    assert(view_nodes(actual@) == call_arguments(view_nodes(children@)));
                }
                if ps.len() != actual.len() {
                    return Err(generic("Number of arguments does not match expected"));
                }
                match self.bind_args(ps, actual, fuel) {
                    Err(e) => {
                        return Err(e);
                    },
                    Ok(t) => t,
                }
            },
            _ => {
                if children.len() > 0 {
                    return Err(generic("No Arguments Expected"));
                }
                Table::new()
            },
        };
        match &body {
            Node::FunctionStatements { children: stmts } => {
                self.push_frame(frame);
                let r = self.run_block(stmts, Err(AsaErrorKind::UndefinedFunction), fuel);
                self.pop_frame();
                r
            },
            _ => Err(generic("Expected a list of function statements")),
        }
    }

    /// Evaluates `node` with `fuel` levels of nesting left.
    fn eval_node(&mut self, node: &Node, fuel: u64) -> (r: Result<Value, AsaErrorKind>)
        ensures
            (outcome_of(r), final(self)@) == eval(fuel as nat, old(self)@, node@),
        decreases fuel, 1int, 0int,
    {
        if fuel == 0 {
            return Err(generic("Call depth limit reached"));
        }
        let f = fuel - 1;
        match node {
            Node::Program { children } => {
                proof {
                    lemma_view_nodes(children@);
                }
                let r = self.run_block(children, Ok(Value::Bool(true)), f);
                self.pop_frame();
                r
            },
            Node::MathExpression { name, children } => {
                proof {
                    lemma_view_nodes(children@);
                }
                if !is_name(name, 97, 100, 100) && !is_name(name, 115, 117, 98) {
                    return Err(
                        generic("Cannot solve mathematical expression: unknown operator"),
                    );
                }
                if children.len() != 2 {
                    return Err(
                        generic("Cannot solve mathematical expression: expected two operands"),
                    );
                }
                let a = match self.eval_node(&children[0], f) {
                    Err(e) => {
                        return Err(e);
                    },
                    Ok(v) => v,
                };
                let b = match self.eval_node(&children[1], f) {
                    Err(e) => {
                        return Err(e);
                    },
                    Ok(v) => v,
                };
                math_value(name, a, b)
            },
            Node::ConditionalExpression { children } => {
                proof {
                    lemma_view_nodes(children@);
                }
                if children.len() != 3 {
                    return Err(generic("Malformed syntax tree"));
                }
                let a = match self.eval_node(&children[0], f) {
                    Err(e) => {
                        return Err(e);
                    },
                    Ok(v) => v,
                };
                let b = match self.eval_node(&children[2], f) {
                    Err(e) => {
                        return Err(e);
                    },
                    Ok(v) => v,
                };
                condition_value(&children[1], a, b)
            },
            Node::IfStatement { case, statements, else_statements } => {
                proof {
                    lemma_view_nodes(case@);
                }
                if case.len() == 0 {
                    return Err(generic("Malformed syntax tree"));
                }
                match self.eval_node(&case[0], f) {
                    Err(e) => Err(e),
                    Ok(Value::Bool(b)) => {
                        if b {
                            self.run_branch(statements, f)
                        } else {
                            self.run_else(else_statements, f)
                        }
                    },
                    Ok(_) => Err(AsaErrorKind::TypeMismatch),
                }
            },
            Node::FunctionCall { name, children } => self.run_call(name, children, f),
            Node::FunctionDefine { name, children } => {
                proof {
                    lemma_view_nodes(children@);
                }
                if children.len() < 2 {
                    return Err(generic("Malformed syntax tree"));
                }
                self.define_function(copy_bytes(name), children[0].copy(), children[1].copy());
                Ok(Value::Bool(true))
            },
            Node::FunctionReturn { children } => {
                proof {
                    lemma_view_nodes(children@);
                }
                if children.len() == 0 {
                    return Err(generic("Malformed syntax tree"));
                }
                self.eval_node(&children[0], f)
            },
            Node::Identifier { value } => {
                match self.read_variable(value) {
                    Some(v) => Ok(v),
                    None => Err(AsaErrorKind::UndefinedFunction),
                }
            },
            Node::Statement { children } => {
                proof {
                    lemma_view_nodes(children@);
                }
                if children.len() == 0 {
                    return Err(generic("Malformed syntax tree"));
                }
                match &children[0] {
                    Node::VariableDefine { .. } | Node::FunctionReturn { .. } => {
                        self.eval_node(&children[0], f)
                    },
                    _ => Err(generic("Not a defined statement")),
                }
            },
            Node::VariableDefine { children } => {
                proof {
                    lemma_view_nodes(children@);
                }
                if children.len() < 2 {
                    return Err(generic("Malformed syntax tree"));
                }
                let name = match &children[0] {
                    Node::Identifier { value } => copy_bytes(value),
                    _ => Vec::new(),
                };
                proof {
                    assert(view_nodes(children@)[0] == children@[0]@);
                    assert(name@ == (if view_nodes(children@)[0] is Identifier {
                        view_nodes(children@)[0]->Identifier_0
                    } else {
                        Seq::<u8>::empty()
                    }));
                }
                let v = match self.eval_node(&children[1], f) {
                    Err(e) => {
                        return Err(e);
                    },
                    Ok(v) => v,
                };
                if self.depth() == 0 {
                    return Err(generic("No frame to define the variable in"));
                }
                self.define_variable(name, v.copy());
                Ok(v)
            },
            Node::Expression { children } => {
                proof {
                    lemma_view_nodes(children@);
                }
                if children.len() == 0 {
                    return Err(generic("Malformed syntax tree"));
                }
                self.eval_node(&children[0], f)
            },
            Node::Number { value } => Ok(Value::Number(*value)),
            Node::String { value } => Ok(Value::String(value.clone())),
            Node::Bool { value } => Ok(Value::Bool(*value)),
            _ => Err(generic("Node cannot be evaluated")),
        }
    }

    /// Evaluates `node`: a program registers its functions and then drops the
    /// frame it ran in; any other node is evaluated in the topmost frame.
    pub fn exec(&mut self, node: &Node) -> (r: Result<Value, AsaErrorKind>)
        ensures
            (outcome_of(r), final(self)@) == evaluate(old(self)@, node@),
    {
        self.eval_node(node, MAX_DEPTH)
    }

    /// Calls the entry point `main` with the argument nodes `arguments`, as
    /// the source text `main()` would.
    pub fn start_main(&mut self, arguments: Vec<Node>) -> (r: Result<Value, AsaErrorKind>)
        ensures
            (outcome_of(r), final(self)@) == evaluate(
                old(self)@,
                Ast::FunctionCall(main_name(), view_nodes(arguments@)),
            ),
    {
        let name: Vec<u8> = vec![109u8, 97u8, 105u8, 110u8];
        let node = Node::FunctionCall { name, children: arguments };
        proof {
            assert(name@ =~= main_name());
        }
        self.exec(&node)
    }
}

} // verus!
