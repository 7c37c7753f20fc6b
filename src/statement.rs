//! The syntax tree of a script, as a parser hands it over.
use vstd::prelude::*;

verus! {

/// A lexical token: its text and the line and column where it starts.
#[derive(Clone, Debug, PartialEq, Eq)]
pub struct Token {
    pub text: String,
    pub line: usize,
    pub column: usize,
}

/// A failure of the parser, with the token where it was found, if any.
#[derive(Clone, Debug, PartialEq, Eq)]
pub struct SyntaxError {
    pub message: String,
    pub token: Option<Token>,
}

impl SyntaxError {
    /// The token where the failure was found.
    pub fn as_token(&self) -> (r: Option<&Token>)
        ensures
            match self.token {
                Some(t) => r matches Some(x) && *x == t,
                None => r is None,
            },
    {
        match &self.token {
            Some(t) => Some(t),
            None => None,
        }
    }
}

/// One node of a parsed script. The tree is acyclic and immutable.
#[derive(Debug)]
pub enum Statement {
    /// A literal value.
    Primitive(Token),
    /// A category tag such as `ACT_SCANNER`.
    AttackCategory(Token),
    /// A bare variable reference.
    Variable(Token),
    /// An array literal, with its optional initialiser.
    Array(Token, Option<Box<Statement>>),
    /// `exit(...)`.
    Exit(Box<Statement>),
    /// `return ...`.
    Return(Box<Statement>),
    /// `include(...)`.
    Include(Box<Statement>),
    /// A named argument of a call.
    NamedParameter(Token, Box<Statement>),
    /// An unnamed argument list of a call.
    Parameter(Vec<Statement>),
    /// A function call: its name, its arguments, and its canonical text
    /// as rendered by the parser that built the tree.
    Call(Token, Vec<Statement>, String),
    /// A `local_var` / `global_var` declaration.
    Declare(Token, Vec<Statement>),
    /// An operator applied to its operands.
    Operator(Token, Vec<Statement>),
    /// A block of statements.
    Block(Vec<Statement>),
    /// A statement that does nothing, such as a lone `;`.
    NoOp(Option<Token>),
    /// The end of the input.
    EoF,
    /// `break`.
    Break,
    /// `continue`.
    Continue,
    /// `while (condition) body`.
    While(Box<Statement>, Box<Statement>),
    /// `repeat body until condition`.
    Repeat(Box<Statement>, Box<Statement>),
    /// `foreach variable(subject) body`.
    ForEach(Token, Box<Statement>, Box<Statement>),
    /// An assignment: its operator, target and value.
    Assign(Token, Box<Statement>, Box<Statement>),
    /// `if (condition) then else otherwise`.
    If(Box<Statement>, Box<Statement>, Option<Box<Statement>>),
    /// `for (init; condition; step) body`.
    For(Box<Statement>, Box<Statement>, Box<Statement>, Box<Statement>),
    /// A function declaration: its name, its parameters and its body.
    FunctionDeclaration(Token, Vec<Statement>, Box<Statement>),
}

/// The call nodes reachable from `s`, depth first and left to right.
/// A call is collected whole: its own arguments are not searched.
pub open spec fn calls_of(s: Statement) -> Seq<Statement>
    decreases s,
{
    match s {
        Statement::Call(_, _, _) => seq![s],
        Statement::Declare(_, v) => calls_of_all(v@),
        Statement::Operator(_, v) => calls_of_all(v@),
        Statement::Block(v) => calls_of_all(v@),
        Statement::Array(_, Some(a)) => calls_of(*a),
        Statement::Exit(a) => calls_of(*a),
        Statement::Return(a) => calls_of(*a),
        Statement::Include(a) => calls_of(*a),
        Statement::While(a, b) => calls_of(*a) + calls_of(*b),
        Statement::Repeat(a, b) => calls_of(*a) + calls_of(*b),
        Statement::ForEach(_, a, b) => calls_of(*a) + calls_of(*b),
        Statement::Assign(_, a, b) => calls_of(*a) + calls_of(*b),
        Statement::If(a, b, None) => calls_of(*a) + calls_of(*b),
        Statement::If(a, b, Some(c)) => calls_of(*a) + calls_of(*b) + calls_of(*c),
        Statement::For(a, b, c, d) => calls_of(*a) + calls_of(*b) + calls_of(*c) + calls_of(*d),
        Statement::FunctionDeclaration(_, v, body) => calls_of(*body) + calls_of_all(v@),
        _ => Seq::empty(),
    }
}

/// The statements that the references of `r` point to.
pub open spec fn targets(r: Seq<&Statement>) -> Seq<Statement> {
    r.map_values(|x: &Statement| *x)
}

/// The calls reachable from each statement of `v`, concatenated in order.
pub open spec fn calls_of_all(v: Seq<Statement>) -> Seq<Statement>
    decreases v,
{
    if v.len() == 0 {
        Seq::empty()
    } else {
        calls_of_all(v.drop_last()) + calls_of(v.last())
    }
}

/// Whether `s` is a node that can hold no call: a literal, a variable, a
/// category tag, a no-op, the end of input, `break`, `continue`, or an
/// array literal without initialiser.
pub open spec fn is_leaf(s: Statement) -> bool {
    ||| s is Primitive
    ||| s is Variable
    ||| s is AttackCategory
    ||| s is NoOp
    ||| s is EoF
    ||| s is Break
    ||| s is Continue
    ||| s matches Statement::Array(_, None)
}

/// A node that can hold no call has no calls.
pub proof fn lemma_leaf_has_no_calls(s: Statement)
    requires
        is_leaf(s),
    ensures
        calls_of(s) == Seq::<Statement>::empty(),
{
}

/// A call is found whole, and its arguments are not searched: whatever
/// calls they hold, the only call found in a call node is the node itself.
pub proof fn lemma_call_is_terminal(s: Statement)
    requires
        s is Call,
    ensures
        calls_of(s) == seq![s],
{
}

/// Every node found is a call node.
pub proof fn lemma_found_are_calls(s: Statement)
    ensures
        forall|i: int| 0 <= i < calls_of(s).len() ==> (#[trigger] calls_of(s)[i]) is Call,
    decreases s,
{
    match s {
        Statement::Declare(_, v) => lemma_all_found_are_calls(v@),
        Statement::Operator(_, v) => lemma_all_found_are_calls(v@),
        Statement::Block(v) => lemma_all_found_are_calls(v@),
        Statement::Array(_, Some(a)) => lemma_found_are_calls(*a),
        Statement::Exit(a) => lemma_found_are_calls(*a),
        Statement::Return(a) => lemma_found_are_calls(*a),
        Statement::Include(a) => lemma_found_are_calls(*a),
        Statement::While(a, b) => {
            lemma_found_are_calls(*a);
            lemma_found_are_calls(*b);
        },
        Statement::Repeat(a, b) => {
            lemma_found_are_calls(*a);
            lemma_found_are_calls(*b);
        },
        Statement::ForEach(_, a, b) => {
            lemma_found_are_calls(*a);
            lemma_found_are_calls(*b);
        },
        Statement::Assign(_, a, b) => {
            lemma_found_are_calls(*a);
            lemma_found_are_calls(*b);
        },
        Statement::If(a, b, c) => {
            lemma_found_are_calls(*a);
            lemma_found_are_calls(*b);
            if let Some(c) = c {
                lemma_found_are_calls(*c);
            }
        },
        Statement::For(a, b, c, d) => {
            lemma_found_are_calls(*a);
            lemma_found_are_calls(*b);
            lemma_found_are_calls(*c);
            lemma_found_are_calls(*d);
        },
        Statement::FunctionDeclaration(_, v, body) => {
            lemma_found_are_calls(*body);
            lemma_all_found_are_calls(v@);
        },
        _ => {},
    }
}

/// Every node found in a sequence of statements is a call node.
pub proof fn lemma_all_found_are_calls(v: Seq<Statement>)
    ensures
        forall|i: int| 0 <= i < calls_of_all(v).len() ==> (#[trigger] calls_of_all(v)[i]) is Call,
    decreases v,
{
    if v.len() > 0 {
        lemma_all_found_are_calls(v.drop_last());
        lemma_found_are_calls(v.last());
    }
}

/// The search keeps the order of the statements: the calls of `a`
/// followed by `b` are those of `a`, then those of `b`.
pub proof fn lemma_calls_keep_order(a: Seq<Statement>, b: Seq<Statement>)
    ensures
        calls_of_all(a + b) == calls_of_all(a) + calls_of_all(b),
    decreases b.len(),
{
    if b.len() == 0 {
        assert(a + b =~= a);
        assert(calls_of_all(a) + calls_of_all(b) =~= calls_of_all(a));
    } else {
        lemma_calls_keep_order(a, b.drop_last());
        assert((a + b).drop_last() =~= a + b.drop_last());
        assert(calls_of_all(a + b) =~= calls_of_all(a) + calls_of_all(b));
    }
}

} // verus!
