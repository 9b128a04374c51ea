use vstd::prelude::*;

verus! {

broadcast use {vstd::std_specs::vec::group_vec_axioms, vstd::seq::group_seq_axioms};

/// A node of the syntax tree that the evaluator walks.
///
/// Names (of functions, of variables, of math operators) are kept as the raw
/// bytes of the identifier they were written with.
#[derive(Debug, PartialEq)]
#[allow(inconsistent_fields)]
pub enum Node {
    Program { children: Vec<Node> },
    MathExpression { name: Vec<u8>, children: Vec<Node> },
    ConditionalExpression { children: Vec<Node> },
    EqualTo {},
    NotEqualTo {},
    LessThan {},
    GreaterThan {},
    LessThanOrEqualTo {},
    GreaterThanOrEqualTo {},
    And {},
    Or {},
    IfStatement { case: Vec<Node>, statements: Vec<Node>, else_statements: Vec<Node> },
    ElseIfStatement { case: Vec<Node>, statements: Vec<Node> },
    ElseStatement { statements: Vec<Node> },
    FunctionCall { name: Vec<u8>, children: Vec<Node> },
    FunctionArguments { children: Vec<Node> },
    FunctionStatements { children: Vec<Node> },
    FunctionDefine { name: Vec<u8>, children: Vec<Node> },
    FunctionReturn { children: Vec<Node> },
    Identifier { value: Vec<u8> },
    Statement { children: Vec<Node> },
    VariableDefine { children: Vec<Node> },
    Expression { children: Vec<Node> },
    Number { value: i32 },
    String { value: String },
    Bool { value: bool },
}

/// The mathematical shape of a [`Node`]: the same tree with every vector and
/// string replaced by its sequence.
pub enum Ast {
    Program(Seq<Ast>),
    MathExpression(Seq<u8>, Seq<Ast>),
    ConditionalExpression(Seq<Ast>),
    EqualTo,
    NotEqualTo,
    LessThan,
    GreaterThan,
    LessThanOrEqualTo,
    GreaterThanOrEqualTo,
    And,
    Or,
    IfStatement(Seq<Ast>, Seq<Ast>, Seq<Ast>),
    ElseIfStatement(Seq<Ast>, Seq<Ast>),
    ElseStatement(Seq<Ast>),
    FunctionCall(Seq<u8>, Seq<Ast>),
    FunctionArguments(Seq<Ast>),
    FunctionStatements(Seq<Ast>),
    FunctionDefine(Seq<u8>, Seq<Ast>),
    FunctionReturn(Seq<Ast>),
    Identifier(Seq<u8>),
    Statement(Seq<Ast>),
    VariableDefine(Seq<Ast>),
    Expression(Seq<Ast>),
    Number(i32),
    Text(Seq<char>),
    Bool(bool),
}

/// The shapes of a sequence of nodes, element by element.
pub open spec fn view_nodes(s: Seq<Node>) -> Seq<Ast>
    decreases s,
{
    if s.len() == 0 {
        Seq::empty()
    } else {
        view_nodes(s.drop_last()).push(s.last().view_ast())
    }
}

impl Node {
    pub open spec fn view_ast(&self) -> Ast
        decreases self,
    {
        match self {
            Node::Program { children } => Ast::Program(view_nodes(children@)),
            Node::MathExpression { name, children } => Ast::MathExpression(
                name@,
                view_nodes(children@),
            ),
            Node::ConditionalExpression { children } => Ast::ConditionalExpression(
                view_nodes(children@),
            ),
            Node::EqualTo {  } => Ast::EqualTo,
            Node::NotEqualTo {  } => Ast::NotEqualTo,
            Node::LessThan {  } => Ast::LessThan,
            Node::GreaterThan {  } => Ast::GreaterThan,
            Node::LessThanOrEqualTo {  } => Ast::LessThanOrEqualTo,
            Node::GreaterThanOrEqualTo {  } => Ast::GreaterThanOrEqualTo,
            Node::And {  } => Ast::And,
            Node::Or {  } => Ast::Or,
            Node::IfStatement { case, statements, else_statements } => Ast::IfStatement(
                view_nodes(case@),
                view_nodes(statements@),
                view_nodes(else_statements@),
            ),
            Node::ElseIfStatement { case, statements } => Ast::ElseIfStatement(
                view_nodes(case@),
                view_nodes(statements@),
            ),
            Node::ElseStatement { statements } => Ast::ElseStatement(view_nodes(statements@)),
            Node::FunctionCall { name, children } => Ast::FunctionCall(
                name@,
                view_nodes(children@),
            ),
            Node::FunctionArguments { children } => Ast::FunctionArguments(view_nodes(children@)),
            Node::FunctionStatements { children } => Ast::FunctionStatements(
                view_nodes(children@),
            ),
            Node::FunctionDefine { name, children } => Ast::FunctionDefine(
                name@,
                view_nodes(children@),
            ),
            Node::FunctionReturn { children } => Ast::FunctionReturn(view_nodes(children@)),
            Node::Identifier { value } => Ast::Identifier(value@),
            Node::Statement { children } => Ast::Statement(view_nodes(children@)),
            Node::VariableDefine { children } => Ast::VariableDefine(view_nodes(children@)),
            Node::Expression { children } => Ast::Expression(view_nodes(children@)),
            Node::Number { value } => Ast::Number(*value),
            Node::String { value } => Ast::Text(value@),
            Node::Bool { value } => Ast::Bool(*value),
        }
    }
}

impl View for Node {
    type V = Ast;

    open spec fn view(&self) -> Ast {
        self.view_ast()
    }
}

/// Each element of `view_nodes(s)` is the shape of the matching node.
pub broadcast proof fn lemma_view_nodes(s: Seq<Node>)
    ensures
        #[trigger] view_nodes(s).len() == s.len(),
        forall|i: int| 0 <= i < s.len() ==> #[trigger] view_nodes(s)[i] == s[i]@,
    decreases s.len(),
{
    if s.len() > 0 {
        let t = s.drop_last();
        lemma_view_nodes(t);
        assert forall|i: int| 0 <= i < s.len() implies #[trigger] view_nodes(s)[i] == s[i]@ by {
            if i < t.len() {
                assert(t[i] == s[i]);
            }
        }
    }
}

/// Copies a sequence of nodes, keeping every shape.
pub fn copy_nodes(v: &Vec<Node>) -> (r: Vec<Node>)
    ensures
        view_nodes(r@) == view_nodes(v@),
    decreases v,
{
    broadcast use lemma_view_nodes;

    let mut r: Vec<Node> = Vec::new();
    let mut i: usize = 0;
    while i < v.len()
        invariant
            i <= v.len(),
            r@.len() == i,
            forall|j: int| 0 <= j < i ==> #[trigger] r@[j].view_ast() == v@[j].view_ast(),
        decreases v.len() - i,
    {
        proof {
            vstd::std_specs::vec::axiom_vec_index_decreases(*v, i as int);
        }
        let c = v[i].copy();
        r.push(c);
        i += 1;
    }
    proof {
        lemma_view_nodes(r@);
        lemma_view_nodes(v@);
        assert forall|j: int| 0 <= j < r@.len() implies view_nodes(r@)[j] == view_nodes(v@)[j] by {
            assert(r@[j].view_ast() == v@[j].view_ast());
        }
        assert(view_nodes(r@) =~= view_nodes(v@));
    }
    r
}

/// Copies a byte string.
pub fn copy_bytes(v: &Vec<u8>) -> (r: Vec<u8>)
    ensures
        r@ == v@,
{
    let r = v.clone();
    assert(r@ =~= v@);
    r
}

impl Node {
    /// A deep copy of the node: the copy has the same shape.
    pub fn copy(&self) -> (r: Node)
        ensures
            r@ == self@,
        decreases self,
    {
        match self {
            Node::Program { children } => Node::Program { children: copy_nodes(children) },
            Node::MathExpression { name, children } => Node::MathExpression {
                name: copy_bytes(name),
                children: copy_nodes(children),
            },
            Node::ConditionalExpression { children } => Node::ConditionalExpression {
                children: copy_nodes(children),
            },
            Node::EqualTo {  } => Node::EqualTo {  },
            Node::NotEqualTo {  } => Node::NotEqualTo {  },
            Node::LessThan {  } => Node::LessThan {  },
            Node::GreaterThan {  } => Node::GreaterThan {  },
            Node::LessThanOrEqualTo {  } => Node::LessThanOrEqualTo {  },
            Node::GreaterThanOrEqualTo {  } => Node::GreaterThanOrEqualTo {  },
            Node::And {  } => Node::And {  },
            Node::Or {  } => Node::Or {  },
            Node::IfStatement { case, statements, else_statements } => Node::IfStatement {
                case: copy_nodes(case),
                statements: copy_nodes(statements),
                else_statements: copy_nodes(else_statements),
            },
            Node::ElseIfStatement { case, statements } => Node::ElseIfStatement {
                case: copy_nodes(case),
                statements: copy_nodes(statements),
            },
            Node::ElseStatement { statements } => Node::ElseStatement {
                statements: copy_nodes(statements),
            },
            Node::FunctionCall { name, children } => Node::FunctionCall {
                name: copy_bytes(name),
                children: copy_nodes(children),
            },
            Node::FunctionArguments { children } => Node::FunctionArguments {
                children: copy_nodes(children),
            },
            Node::FunctionStatements { children } => Node::FunctionStatements {
                children: copy_nodes(children),
            },
            Node::FunctionDefine { name, children } => Node::FunctionDefine {
                name: copy_bytes(name),
                children: copy_nodes(children),
            },
            Node::FunctionReturn { children } => Node::FunctionReturn {
                children: copy_nodes(children),
            },
            Node::Identifier { value } => Node::Identifier { value: copy_bytes(value) },
            Node::Statement { children } => Node::Statement { children: copy_nodes(children) },
            Node::VariableDefine { children } => Node::VariableDefine {
                children: copy_nodes(children),
            },
            Node::Expression { children } => Node::Expression { children: copy_nodes(children) },
            Node::Number { value } => Node::Number { value: *value },
            Node::String { value } => Node::String { value: value.clone() },
            Node::Bool { value } => Node::Bool { value: *value },
        }
    }
}

} // verus!
