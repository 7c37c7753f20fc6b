//! Finding the calls of a script and rebuilding the script from them.
use vstd::prelude::*;
use crate::statement::{Statement, SyntaxError, calls_of, calls_of_all, targets};

verus! {

/// The canonical text of a call node; nothing for any other node.
pub open spec fn call_text(s: Statement) -> Seq<char> {
    match s {
        Statement::Call(_, _, text) => text@,
        _ => Seq::empty(),
    }
}

/// The texts of the calls in `c`, concatenated in order.
pub open spec fn texts(c: Seq<Statement>) -> Seq<char>
    decreases c.len(),
{
    if c.len() == 0 {
        Seq::empty()
    } else {
        texts(c.drop_last()) + call_text(c.last())
    }
}

/// What a script rebuilt from its parse results holds: the texts of the
/// calls of every statement in order, or the first parse failure.
pub open spec fn corrected(parsed: Seq<Result<Statement, SyntaxError>>) -> Result<Seq<char>, SyntaxError>
    decreases parsed.len(),
{
    if parsed.len() == 0 {
        Ok(Seq::empty())
    } else {
        match corrected(parsed.drop_last()) {
            Err(e) => Err(e),
            Ok(t) => match parsed.last() {
                Err(e) => Err(e),
                Ok(s) => Ok(t + texts(calls_of(s))),
            },
        }
    }
}

/// Once a prefix of the parse results holds a failure, every longer prefix
/// ends in that same failure.
proof fn lemma_failure_stays(all: Seq<Result<Statement, SyntaxError>>, i: int, j: int)
    requires
        0 <= i <= j <= all.len(),
        corrected(all.subrange(0, i)) is Err,
    ensures
        corrected(all.subrange(0, j)) == corrected(all.subrange(0, i)),
    decreases j - i,
{
    if j > i {
        lemma_failure_stays(all, i, j - 1);
        assert(all.subrange(0, j).drop_last() =~= all.subrange(0, j - 1));
    }
}

/// Parse results that hold no failure rebuild to some text.
proof fn lemma_no_failure_succeeds(ok: Seq<Result<Statement, SyntaxError>>)
    requires
        forall|i: int| 0 <= i < ok.len() ==> ok[i] is Ok,
    ensures
        corrected(ok) is Ok,
    decreases ok.len(),
{
    if ok.len() > 0 {
        lemma_no_failure_succeeds(ok.drop_last());
        assert(ok[ok.len() - 1] is Ok);
    }
}

/// A parse failure after any number of well-parsed statements makes the
/// rebuild fail with that very failure, whatever follows it: no text that
/// was gathered before it is returned.
pub proof fn lemma_fails_fast(
    ok: Seq<Result<Statement, SyntaxError>>,
    e: SyntaxError,
    rest: Seq<Result<Statement, SyntaxError>>,
)
    requires
        forall|i: int| 0 <= i < ok.len() ==> ok[i] is Ok,
    ensures
        corrected(ok + seq![Err(e)] + rest) == Err::<Seq<char>, SyntaxError>(e),
{
    let all = ok + seq![Err(e)] + rest;
    let n = ok.len() as int;
    lemma_no_failure_succeeds(ok);
    assert(all.subrange(0, n + 1).drop_last() =~= ok);
    assert(all.subrange(0, n + 1).last() == Err::<Statement, SyntaxError>(e));
    lemma_failure_stays(all, n + 1, all.len() as int);
    assert(all.subrange(0, all.len() as int) =~= all);
}

/// Rewrites a script so that it holds only the calls that it makes.
pub struct Replacer {}

impl Replacer {
    /// The call nodes reachable from `s`, depth first and left to right.
    pub fn find_calls<'a>(s: &'a Statement) -> (r: Vec<&'a Statement>)
        ensures
            targets(r@) == calls_of(*s),
        decreases s,
    {
        match s {
            Statement::Declare(_, v) | Statement::Operator(_, v) | Statement::Block(v) => {
                Self::find_calls_all(v)
            },
            Statement::Exit(a) | Statement::Return(a) | Statement::Include(a)
            | Statement::Array(_, Some(a)) => Self::find_calls(a),
            Statement::While(a, b) | Statement::Repeat(a, b) | Statement::ForEach(_, a, b)
            | Statement::Assign(_, a, b) => {
                let mut results = Self::find_calls(a);
                let mut more = Self::find_calls(b);
                results.append(&mut more);
                results
            },
            Statement::If(a, b, c) => {
                let mut results = Self::find_calls(a);
                let mut more = Self::find_calls(b);
                results.append(&mut more);
                if let Some(c) = c {
                    let mut last = Self::find_calls(c);
                    results.append(&mut last);
                }
                results
            },
            Statement::For(a, b, c, d) => {
                let mut results = Self::find_calls(a);
                let mut more = Self::find_calls(b);
                results.append(&mut more);
                let mut more = Self::find_calls(c);
                results.append(&mut more);
                let mut more = Self::find_calls(d);
                results.append(&mut more);
                results
            },
            Statement::FunctionDeclaration(_, params, body) => {
                let mut results = Self::find_calls(body);
                let mut more = Self::find_calls_all(params);
                results.append(&mut more);
                results
            },
            Statement::Call(_, _, _) => vec![s],
            Statement::Primitive(_) | Statement::AttackCategory(_) | Statement::Variable(_)
            | Statement::NoOp(_) | Statement::EoF | Statement::Break | Statement::Continue
            | Statement::Array(_, None) | Statement::Parameter(_)
            | Statement::NamedParameter(_, _) => Vec::new(),
        }
    }

    /// Rebuilds a script from the results of parsing it, statement by
    /// statement: the texts of all its calls in order, with no separator.
    /// The first parse failure is returned instead, and no text with it.
    pub fn correct_functions(&self, parsed: Vec<Result<Statement, SyntaxError>>) -> (r: Result<
        String,
        SyntaxError,
    >)
        ensures
            match corrected(parsed@) {
                Ok(t) => r matches Ok(out) && out@ == t,
                Err(e) => r == Err::<String, SyntaxError>(e),
            },
    {
        let ghost all = parsed@;
        let mut pending = parsed;
        assert(all.len() <= usize::MAX) by { assert(all.len() == pending.len()); }
        let mut stack: Vec<Result<Statement, SyntaxError>> = Vec::new();
        while pending.len() > 0
            invariant
                all.len() <= usize::MAX,
                parsed@ == all,
                pending@.len() + stack@.len() == all.len(),
                pending@ == all.subrange(0, pending@.len() as int),
                forall|j: int| 0 <= j < stack@.len() ==> stack@[j] == all[all.len() - 1 - j],
            decreases pending.len(),
        {
            let item = pending.pop().unwrap();
            stack.push(item);
        }
        let mut result = String::new();
        let mut done: usize = 0;
        while stack.len() > 0
            invariant
                all.len() <= usize::MAX,
                parsed@ == all,
                done + stack@.len() == all.len(),
                forall|j: int| 0 <= j < stack@.len() ==> stack@[j] == all[all.len() - 1 - j],
                corrected(all.subrange(0, done as int)) == Ok::<Seq<char>, SyntaxError>(result@),
            decreases stack.len(),
        {
            let item = stack.pop().unwrap();
            proof {
                let p = all.subrange(0, done as int + 1);
                assert(p.drop_last() =~= all.subrange(0, done as int));
                assert(item == all[done as int]);
            }
            match item {
                Err(e) => {
                    proof {
                        assert(corrected(all.subrange(0, done as int + 1)) == Err::<Seq<char>, SyntaxError>(e));
                        lemma_failure_stays(all, done as int + 1, all.len() as int);
                        assert(all.subrange(0, all.len() as int) =~= all);
                    }
                    return Err(e);
                },
                Ok(s) => {
                    let calls = Self::find_calls(&s);
                    let ghost before = result@;
                    let mut k: usize = 0;
                    while k < calls.len()
                        invariant
                            k <= calls@.len(),
                            targets(calls@) == calls_of(s),
                            result@ == before + texts(targets(calls@).subrange(0, k as int)),
                        decreases calls.len() - k,
                    {
                        let c: &Statement = calls[k];
                        if let Statement::Call(_, _, text) = c {
                            result.append(text.as_str());
                        }
                        proof {
                            let t = targets(calls@);
                            assert(t.subrange(0, k as int + 1).drop_last() =~= t.subrange(0, k as int));
                            assert(t[k as int] == *c);
                            assert(result@ =~= before + texts(t.subrange(0, k as int + 1)));
                        }
                        k += 1;
                    }
                    proof {
                        assert(targets(calls@).subrange(0, k as int) =~= calls_of(s));
                        assert(result@ =~= before + texts(calls_of(s)));
                    }
                },
            }
            done += 1;
        }
        assert(all.subrange(0, done as int) =~= all);
        Ok(result)
    }

    /// The calls reachable from each statement of `v`, concatenated in order.
    fn find_calls_all<'a>(v: &'a Vec<Statement>) -> (r: Vec<&'a Statement>)
        ensures
            targets(r@) == calls_of_all(v@),
        decreases v,
    {
        let mut results: Vec<&'a Statement> = Vec::new();
        let mut i: usize = 0;
        while i < v.len()
            invariant
                i <= v.len(),
                targets(results@) == calls_of_all(v@.subrange(0, i as int)),
            decreases v.len() - i,
        {
            let mut more = Self::find_calls(&v[i]);
            proof {
                let p = v@.subrange(0, i as int + 1);
                assert(p.drop_last() =~= v@.subrange(0, i as int));
            }
            results.append(&mut more);
            i += 1;
        }
        assert(v@.subrange(0, v.len() as int) =~= v@);
        results
    }
}

} // verus!
