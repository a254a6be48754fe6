//! The meaning of a translated program, as a mathematical model.
//!
//! A `State` is the ghost image of one execution context: the variable
//! slots, the sparse memory, and the trace of host escape blocks reached.
//! `run_stmts` gives every recognized statement form its meaning as a
//! total function of the state and a step budget: one unit of the budget
//! is spent per completed loop iteration, so a program that loops too long
//! comes out as `Outcome::OutOfFuel` rather than being undefined. The
//! executable interpreter is proved to return exactly what these
//! functions say.
use vstd::prelude::*;

use crate::arith::{flag_bit, two_to_64};
use crate::lang::{CarryExpr, Decl, FlagOperand, MemRef, Operand, Stmt, Target, TupleItem, VarTy,
    WordExpr};

verus! {

/// The ghost value of one variable slot.
#[verifier::ext_equal]
pub ghost enum AbsVal {
    Word(u64),
    Flag(bool),
    Arr(Seq<u64>),
}

/// The ghost state of one execution context: variable slots, sparse memory
/// keyed by address index, and the tags of host escape blocks executed so
/// far, in source order.
#[verifier::ext_equal]
pub ghost struct State {
    pub vars: Seq<AbsVal>,
    pub mem: Map<usize, u64>,
    pub events: Seq<u64>,
}

/// The runtime failures. A running program treats every one as fatal.
/// Reading an address never stored and indexing outside an array's bounds
/// are programmer errors; a composite address that is not word-aligned or
/// does not fit the machine word has no defined behavior, so execution
/// stops on those too rather than guessing one.
#[derive(Clone, Copy, Debug, PartialEq, Eq, Structural)]
pub enum RunError {
    UninitializedMemoryAccess,
    IndexOutOfBounds,
    MisalignedAccess,
    AddressOverflow,
}

/// What running part of a program yields: a final state, a fatal runtime
/// error, or exhaustion of the step budget.
#[verifier::ext_equal]
pub ghost enum Outcome {
    Done(State),
    Fail(RunError),
    OutOfFuel,
}

/// The word a 64-bit slot holds.
pub open spec fn word_of(st: State, i: usize) -> u64 {
    match st.vars[i as int] {
        AbsVal::Word(v) => v,
        _ => arbitrary(),
    }
}

/// The bit a flag slot holds.
pub open spec fn flag_of(st: State, i: usize) -> bool {
    match st.vars[i as int] {
        AbsVal::Flag(b) => b,
        _ => arbitrary(),
    }
}

/// The contents of an array slot.
pub open spec fn arr_of(st: State, a: usize) -> Seq<u64> {
    match st.vars[a as int] {
        AbsVal::Arr(s) => s,
        _ => arbitrary(),
    }
}

/// The value of a word operand: a variable's word, or a lifted literal.
pub open spec fn operand_val(o: Operand, st: State) -> u64 {
    match o {
        Operand::Var(i) => word_of(st, i),
        Operand::Lit(n) => n,
    }
}

/// The value of a flag operand: a variable's bit, or a lifted literal.
pub open spec fn flag_val(c: FlagOperand, st: State) -> bool {
    match c {
        FlagOperand::Var(i) => flag_of(st, i),
        FlagOperand::Lit(b) => b,
    }
}

/// An integer re-normalized modulo 2^64, as hardware arithmetic leaves it.
pub open spec fn wrap64(x: int) -> u64 {
    (x % two_to_64()) as u64
}

pub open spec fn set_word(st: State, i: usize, v: u64) -> State {
    State { vars: st.vars.update(i as int, AbsVal::Word(v)), ..st }
}

pub open spec fn set_flag(st: State, i: usize, b: bool) -> State {
    State { vars: st.vars.update(i as int, AbsVal::Flag(b)), ..st }
}

pub open spec fn set_arr(st: State, a: usize, s: Seq<u64>) -> State {
    State { vars: st.vars.update(a as int, AbsVal::Arr(s)), ..st }
}

/// The value of a word expression, or the fatal error evaluating it hits.
pub open spec fn eval_word_expr(e: WordExpr, st: State) -> Result<u64, RunError> {
    match e {
        WordExpr::Val(o) => Ok(operand_val(o, st)),
        WordExpr::Get(a, idx) => {
            let s = arr_of(st, a);
            let i = operand_val(idx, st);
            if i < s.len() {
                Ok(s[i as int])
            } else {
                Err(RunError::IndexOutOfBounds)
            }
        },
        WordExpr::AddV(x, y) => Ok(wrap64(operand_val(x, st) + operand_val(y, st))),
        WordExpr::AdcV(x, y, c) => Ok(
            wrap64(operand_val(x, st) + operand_val(y, st) + flag_bit(flag_val(c, st))),
        ),
        WordExpr::SubV(x, y) => Ok(wrap64(operand_val(x, st) - operand_val(y, st))),
        WordExpr::SbbV(x, y, c) => Ok(
            wrap64(operand_val(x, st) - operand_val(y, st) - flag_bit(flag_val(c, st))),
        ),
        WordExpr::MulLow(x, y) => Ok(wrap64(operand_val(x, st) * operand_val(y, st))),
        WordExpr::Xor(x, y) => Ok(operand_val(x, st) ^ operand_val(y, st)),
        WordExpr::Land(x, y) => Ok(operand_val(x, st) & operand_val(y, st)),
        WordExpr::Lor(x, y) => Ok(operand_val(x, st) | operand_val(y, st)),
        WordExpr::Shr(x, sh) => Ok(operand_val(x, st) >> sh),
        WordExpr::Shl(x, sh) => Ok(operand_val(x, st) << sh),
    }
}

/// The flag and value of a carry-flagged operation, per the exact hardware
/// semantics the arithmetic library is proved to implement.
pub open spec fn eval_carry_expr(e: CarryExpr, st: State) -> (bool, u64) {
    match e {
        CarryExpr::AddC(x, y) => {
            let s = operand_val(x, st) + operand_val(y, st);
            (s >= two_to_64(), wrap64(s))
        },
        CarryExpr::AdcC(x, y, c) => {
            let s = operand_val(x, st) + operand_val(y, st) + flag_bit(flag_val(c, st));
            (s >= two_to_64(), wrap64(s))
        },
        CarryExpr::SubC(x, y) => {
            let d = operand_val(x, st) - operand_val(y, st);
            (d < 0, wrap64(d))
        },
        CarryExpr::SbbC(x, y, c) => {
            let d = operand_val(x, st) - operand_val(y, st) - flag_bit(flag_val(c, st));
            (d < 0, wrap64(d))
        },
    }
}

/// Writing a word to an assignment target: a word variable, or one
/// bounds-checked array element.
pub open spec fn write_target_spec(t: Target, v: u64, st: State) -> Result<State, RunError> {
    match t {
        Target::Word(i) => Ok(set_word(st, i, v)),
        Target::Elem(a, idx) => {
            let s = arr_of(st, a);
            let i = operand_val(idx, st);
            if i < s.len() {
                Ok(set_arr(st, a, s.update(i as int, v)))
            } else {
                Err(RunError::IndexOutOfBounds)
            }
        },
    }
}

/// The address index a memory expression selects, or the fatal error it
/// hits: the composite address must fit the machine word and be an exact
/// multiple of 8.
pub open spec fn mem_access(m: MemRef, st: State) -> Result<usize, RunError> {
    let a = operand_val(m.base, st) + operand_val(m.off, st);
    if a > usize::MAX {
        Err(RunError::AddressOverflow)
    } else if a % 8 != 0 {
        Err(RunError::MisalignedAccess)
    } else {
        Ok((a / 8) as usize)
    }
}

/// The sequential writes of a tuple-destructuring assignment: every source
/// was read in `st0`, before any write; the targets are bound in order.
pub open spec fn run_tuple(items: Seq<TupleItem>, st0: State, st: State) -> State
    decreases items,
{
    if items.len() == 0 {
        st
    } else {
        let st1 = match items[0] {
            TupleItem::WordItem(i, o) => set_word(st, i, operand_val(o, st0)),
            TupleItem::FlagItem(i, c) => set_flag(st, i, flag_val(c, st0)),
        };
        run_tuple(items.drop_first(), st0, st1)
    }
}

/// A structural size of one statement, the measure the interpreter's
/// termination argument uses beside the step budget.
pub open spec fn stmt_size(s: Stmt) -> nat
    decreases s,
{
    match s {
        Stmt::For(_, _, _, body) => 2 + stmts_size(body@),
        Stmt::DoWhile(body, _, _) => 2 + stmts_size(body@),
        Stmt::IfElse(_, tb, eb) => 1 + stmts_size(tb@) + stmts_size(eb@),
        _ => 1,
    }
}

pub open spec fn stmts_size(ss: Seq<Stmt>) -> nat
    decreases ss,
{
    if ss.len() == 0 {
        0
    } else {
        1 + stmt_size(ss[0]) + stmts_size(ss.drop_first())
    }
}

/// Every statement of a sequence weighs less than the whole sequence.
pub proof fn lemma_stmt_size_lt(ss: Seq<Stmt>, k: int)
    requires
        0 <= k < ss.len(),
    ensures
        stmt_size(ss[k]) < stmts_size(ss),
    decreases ss,
{
    if k > 0 {
        lemma_stmt_size_lt(ss.drop_first(), k - 1);
    }
}

/// The meaning of one statement: its outcome from state `st` with step
/// budget `fuel`.
pub open spec fn run_stmt(s: Stmt, st: State, fuel: nat) -> Outcome
    decreases fuel, stmt_size(s),
{
    match s {
        Stmt::Assign(t, e) => match eval_word_expr(e, st) {
            Ok(v) => match write_target_spec(t, v, st) {
                Ok(st1) => Outcome::Done(st1),
                Err(err) => Outcome::Fail(err),
            },
            Err(err) => Outcome::Fail(err),
        },
        Stmt::FlagAssign(i, c) => Outcome::Done(set_flag(st, i, flag_val(c, st))),
        Stmt::ArrFill(a, o, n) => Outcome::Done(
            set_arr(st, a, Seq::new(n as nat, |k: int| operand_val(o, st))),
        ),
        Stmt::ArrList(a, os) => Outcome::Done(
            set_arr(st, a, Seq::new(os@.len(), |k: int| operand_val(os@[k], st))),
        ),
        Stmt::CarryAssign(f, t, ce) => {
            let (b, v) = eval_carry_expr(ce, st);
            let st1 = set_flag(st, f, b);
            match write_target_spec(t, v, st1) {
                Ok(st2) => Outcome::Done(st2),
                Err(err) => Outcome::Fail(err),
            }
        },
        Stmt::MulAssign(t1, t2, x, y) => {
            let z = operand_val(x, st) * operand_val(y, st);
            match write_target_spec(t1, (z / two_to_64()) as u64, st) {
                Ok(st1) => match write_target_spec(t2, wrap64(z), st1) {
                    Ok(st2) => Outcome::Done(st2),
                    Err(err) => Outcome::Fail(err),
                },
                Err(err) => Outcome::Fail(err),
            }
        },
        Stmt::TupleAssign(items) => Outcome::Done(run_tuple(items@, st, st)),
        Stmt::Load(t, mr) => match mem_access(mr, st) {
            Ok(idx) => if st.mem.contains_key(idx) {
                match write_target_spec(t, st.mem[idx], st) {
                    Ok(st1) => Outcome::Done(st1),
                    Err(err) => Outcome::Fail(err),
                }
            } else {
                Outcome::Fail(RunError::UninitializedMemoryAccess)
            },
            Err(err) => Outcome::Fail(err),
        },
        Stmt::Store(mr, o) => match mem_access(mr, st) {
            Ok(idx) => Outcome::Done(
                State { mem: st.mem.insert(idx, operand_val(o, st)), ..st },
            ),
            Err(err) => Outcome::Fail(err),
        },
        Stmt::CMove(c, neg, t, e) => {
            if flag_of(st, c) != neg {
                match eval_word_expr(e, st) {
                    Ok(v) => match write_target_spec(t, v, st) {
                        Ok(st1) => Outcome::Done(st1),
                        Err(err) => Outcome::Fail(err),
                    },
                    Err(err) => Outcome::Fail(err),
                }
            } else {
                Outcome::Done(st)
            }
        },
        Stmt::For(v, lo, hi, body) => run_for(
            v,
            operand_val(lo, st),
            operand_val(hi, st),
            body@,
            st,
            fuel,
        ),
        Stmt::DoWhile(body, c, neg) => run_dowhile(body@, c, neg, st, fuel),
        Stmt::IfElse(c, tb, eb) => if flag_val(c, st) {
            run_stmts(tb@, st, fuel)
        } else {
            run_stmts(eb@, st, fuel)
        },
        Stmt::Host(tag) => Outcome::Done(State { events: st.events.push(tag), ..st }),
        Stmt::Eval(e) => match eval_word_expr(e, st) {
            Ok(_) => Outcome::Done(st),
            Err(err) => Outcome::Fail(err),
        },
    }
}

/// Range iteration: one completed pass of the body per integer in
/// `[i, hi)`, ascending, the loop variable bound before each pass; one
/// unit of the step budget is spent per completed iteration.
pub open spec fn run_for(v: usize, i: u64, hi: u64, body: Seq<Stmt>, st: State, fuel: nat) -> Outcome
    decreases fuel, 1 + stmts_size(body),
{
    if i >= hi {
        Outcome::Done(st)
    } else {
        match run_stmts(body, set_word(st, v, i), fuel) {
            Outcome::Done(st1) => if fuel == 0 {
                Outcome::OutOfFuel
            } else {
                run_for(v, (i + 1) as u64, hi, body, st1, (fuel - 1) as nat)
            },
            other => other,
        }
    }
}

/// Post-tested loop: the body executes once, whatever the guard flag held,
/// and the guard (negated when `neg` is set) is re-evaluated after each
/// pass; one unit of the step budget is spent per repeated iteration.
pub open spec fn run_dowhile(
    body: Seq<Stmt>,
    c: usize,
    neg: bool,
    st: State,
    fuel: nat,
) -> Outcome
    decreases fuel, 1 + stmts_size(body),
{
    match run_stmts(body, st, fuel) {
        Outcome::Done(st1) => if flag_of(st1, c) == neg {
            Outcome::Done(st1)
        } else if fuel == 0 {
            Outcome::OutOfFuel
        } else {
            run_dowhile(body, c, neg, st1, (fuel - 1) as nat)
        },
        other => other,
    }
}

/// The meaning of a statement sequence: statement order in source equals
/// execution order.
pub open spec fn run_stmts(ss: Seq<Stmt>, st: State, fuel: nat) -> Outcome
    decreases fuel, stmts_size(ss),
{
    if ss.len() == 0 {
        Outcome::Done(st)
    } else {
        match run_stmt(ss[0], st, fuel) {
            Outcome::Done(st1) => run_stmts(ss.drop_first(), st1, fuel),
            other => other,
        }
    }
}

/// Whether one slot's ghost value has the declared shape.
pub open spec fn val_matches(v: AbsVal, d: Decl) -> bool {
    match d.ty {
        VarTy::Word => v is Word,
        VarTy::Flag => v is Flag,
        VarTy::Arr(n) => match v {
            AbsVal::Arr(s) => s.len() == n,
            _ => false,
        },
    }
}

/// Whether a state conforms to a declaration list: one slot per
/// declaration, each of the declared shape.
pub open spec fn state_wf(st: State, decls: Seq<Decl>) -> bool {
    &&& st.vars.len() == decls.len()
    &&& forall|i: int| 0 <= i < decls.len() ==> val_matches(#[trigger] st.vars[i], decls[i])
}

/// The default ghost value of a declared slot: zeroed, of the declared
/// shape.
pub open spec fn default_val(d: Decl) -> AbsVal {
    match d.ty {
        VarTy::Word => AbsVal::Word(0),
        VarTy::Flag => AbsVal::Flag(false),
        VarTy::Arr(n) => AbsVal::Arr(Seq::new(n as nat, |k: int| 0u64)),
    }
}

/// The state a fresh execution context starts in: zeroed slots of the
/// declared shapes, empty memory, no host events.
pub open spec fn init_state(decls: Seq<Decl>) -> State {
    State {
        vars: Seq::new(decls.len(), |i: int| default_val(decls[i])),
        mem: Map::empty(),
        events: Seq::empty(),
    }
}

/// A post-tested loop executes its body at least once, whatever the guard
/// flag held before it: the loop's outcome is the outcome of one full pass
/// over the body, followed — only when that pass completed and the guard
/// asks for another round — by the rest of the loop.
pub proof fn lemma_dowhile_body_runs_first(
    body: Vec<Stmt>,
    c: usize,
    neg: bool,
    st: State,
    fuel: nat,
)
    ensures
        run_stmt(Stmt::DoWhile(body, c, neg), st, fuel) == match run_stmts(body@, st, fuel) {
            Outcome::Done(st1) => if flag_of(st1, c) == neg {
                Outcome::Done(st1)
            } else if fuel == 0 {
                Outcome::OutOfFuel
            } else {
                run_dowhile(body@, c, neg, st1, (fuel - 1) as nat)
            },
            other => other,
        },
{
}

/// Range iteration proceeds in ascending order: over an empty range the
/// body never runs, and otherwise the loop is one completed pass with the
/// loop variable bound to the lower bound, then the same loop over the
/// rest of the range, upwards.
pub proof fn lemma_for_iterates_ascending(
    v: usize,
    i: u64,
    hi: u64,
    body: Seq<Stmt>,
    st: State,
    fuel: nat,
)
    ensures
        i >= hi ==> run_for(v, i, hi, body, st, fuel) == Outcome::Done(st),
        i < hi ==> run_for(v, i, hi, body, st, fuel) == match run_stmts(
            body,
            set_word(st, v, i),
            fuel,
        ) {
            Outcome::Done(st1) => if fuel == 0 {
                Outcome::OutOfFuel
            } else {
                run_for(v, (i + 1) as u64, hi, body, st1, (fuel - 1) as nat)
            },
            other => other,
        },
{
}

} // verus!
