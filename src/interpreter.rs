use vstd::prelude::*;
use crate::ast::{Ast, Node};
use crate::error::AsaErrorKind;
use crate::semantics::{Env, Outcome};
use crate::table::Table;
use crate::value::{Val, Value};

verus! {

/// What a result of the evaluator stands for.
pub open spec fn outcome_of(r: Result<Value, AsaErrorKind>) -> Outcome {
    match r {
        Ok(v) => Ok(v@),
        Err(e) => Err(e@),
    }
}

/// A tree-walking evaluator: a table of functions and a stack of frames.
pub struct Interpreter {
    functions: Table<(Node, Node)>,
    stack: Vec<Table<Value>>,
}

/// The maps that a stack of frames stands for.
pub open spec fn frames_of(s: Seq<Table<Value>>) -> Seq<Map<Seq<u8>, Val>> {
    s.map_values(|t: Table<Value>| t@)
}

impl View for Interpreter {
    type V = Env;

    closed spec fn view(&self) -> Env {
        Env { functions: self.functions@, frames: frames_of(self.stack@) }
    }
}

impl Interpreter {
    /// An interpreter with no functions and one empty frame.
    pub fn new() -> (r: Interpreter)
        ensures
            r@.functions == Map::<Seq<u8>, (Ast, Ast)>::empty(),
            r@.frames == seq![Map::<Seq<u8>, Val>::empty()],
    {
        let mut interpreter = Interpreter { functions: Table::new(), stack: Vec::new() };
        interpreter.push_new_frame();
        proof {
            assert(interpreter@.frames =~= seq![Map::<Seq<u8>, Val>::empty()]);
        }
        interpreter
    }

    /// Pushes an empty frame.
    pub fn push_new_frame(&mut self)
        ensures
            final(self)@ == old(self)@.push_frame(Map::empty()),
    {
        self.push_frame(Table::new());
    }

    /// Pushes `frame` as the new topmost frame.
    pub fn push_frame(&mut self, frame: Table<Value>)
        ensures
            final(self)@ == old(self)@.push_frame(frame@),
    {
        self.stack.push(frame);
        proof {
            assert(frames_of(self.stack@) =~= frames_of(old(self).stack@).push(frame@));
        }
    }

    /// Drops the topmost frame, if there is one.
    pub fn pop_frame(&mut self)
        ensures
            final(self)@ == old(self)@.pop_frame(),
    {
        let _ = self.stack.pop();
        proof {
            if old(self).stack@.len() > 0 {
                assert(frames_of(self.stack@) =~= frames_of(old(self).stack@).drop_last());
            }
        }
    }

    /// The number of frames on the stack.
    pub fn depth(&self) -> (r: usize)
        ensures
            r == self@.frames.len(),
    {
        self.stack.len()
    }

    /// Binds `name` to `value` in the topmost frame.
    pub fn define_variable(&mut self, name: Vec<u8>, value: Value)
        requires
            old(self)@.frames.len() > 0,
        ensures
            final(self)@ == old(self)@.set_var(name@, value@),
    {
        let mut top = self.stack.pop().unwrap();
        top.set(name, value);
        self.stack.push(top);
        proof {
            assert(frames_of(self.stack@) =~= old(self)@.set_var(name@, value@).frames);
        }
    }

    /// The value of `name` in the topmost frame.
    pub fn read_variable(&self, name: &Vec<u8>) -> (r: Option<Value>)
        ensures
            r.is_some() == self@.lookup(name@).is_some(),
            r.is_some() ==> r.unwrap()@ == self@.lookup(name@).unwrap(),
    {
        let n = self.stack.len();
        if n == 0 {
            return None;
        }
        match self.stack[n - 1].get(name) {
            Some(v) => Some(v.copy()),
            None => None,
        }
    }

    /// Registers the function `name`, replacing any earlier definition.
    pub fn define_function(&mut self, name: Vec<u8>, params: Node, body: Node)
        ensures
            final(self)@ == old(self)@.define_function(name@, params@, body@),
    {
        self.functions.set(name, (params, body));
    }

    /// A copy of the parameter list and the body of the function `name`.
    pub fn lookup_function(&self, name: &Vec<u8>) -> (r: Option<(Node, Node)>)
        ensures
            r.is_some() == self@.functions.contains_key(name@),
            r.is_some() ==> (r.unwrap().0@, r.unwrap().1@) == self@.functions[name@],
    {
        match self.functions.get(name) {
            Some(entry) => Some((entry.0.copy(), entry.1.copy())),
            None => None,
        }
    }
}

} // verus!
