//! The executable evaluator for translated programs.
//!
//! A `Machine` is one execution context: the variable slots, its own
//! `MemoryStore`, and the trace of host escape blocks reached. Running a
//! statement is proved to return exactly the outcome the spec semantics in
//! `sem` give it: the final state on `Done`, the same fatal error on
//! `Fail`, and `OutOfFuel` exactly when the step budget runs out.
use vstd::prelude::*;

use crate::lang::{CarryExpr, Decl, FlagOperand, MemRef, Operand, Program, Stmt, Target, TupleItem,
    VarTy, WordExpr, is_flag_var, is_word_var, memref_wf, operand_wf, flag_operand_wf, stmt_wf,
    stmts_wf, target_wf, word_expr_wf, carry_expr_wf, tuple_item_wf};
use crate::mem::{addr_index, MemoryStore};
use crate::sem::{arr_of, default_val, eval_carry_expr, eval_word_expr, flag_of, flag_val,
    init_state, mem_access, operand_val, run_dowhile, run_for, run_stmt, run_stmts, run_tuple,
    set_arr, set_flag, set_word, state_wf, stmt_size, stmts_size, lemma_stmt_size_lt, val_matches,
    word_of, write_target_spec, AbsVal, Outcome, RunError, State};
use crate::word::{b1, b64, Jval};

verus! {

/// The runtime value of one variable slot.
#[derive(Debug)]
pub enum Value {
    Word(b64),
    Flag(b1),
    Arr(Vec<b64>),
}

impl View for Value {
    type V = AbsVal;

    open spec fn view(&self) -> AbsVal {
        match self {
            Value::Word(j) => AbsVal::Word(j.val),
            Value::Flag(j) => AbsVal::Flag(j.val),
            Value::Arr(a) => AbsVal::Arr(a@.map_values(|x: b64| x.val)),
        }
    }
}

/// One execution context: variable slots of the declared shapes, its own
/// sparse memory, and the tags of host escape blocks reached so far. Each
/// context owns an independent store, so concurrent contexts never observe
/// each other's memory.
pub struct Machine {
    pub vars: Vec<Value>,
    pub mem: MemoryStore,
    pub events: Vec<u64>,
    pub decls: Ghost<Seq<Decl>>,
}

impl View for Machine {
    type V = State;

    open spec fn view(&self) -> State {
        State {
            vars: self.vars@.map_values(|v: Value| v@),
            mem: self.mem@,
            events: self.events@,
        }
    }
}

/// What running a program yields at the machine level; on `Done` the
/// machine holds the final state, on `Fail` the program stopped at a fatal
/// runtime error, and `OutOfFuel` means the step budget ran out first.
#[derive(Clone, Copy, Debug, PartialEq, Eq, Structural)]
pub enum RunResult {
    Done,
    Fail(RunError),
    OutOfFuel,
}

impl Machine {
    /// The machine's slots conform to the declarations it was created for.
    pub open spec fn wf(&self) -> bool {
        state_wf(self@, self.decls@)
    }

    /// A fresh execution context for the given declarations: zeroed slots
    /// of the declared shapes, empty memory, no host events.
    pub fn new(decls: &Vec<Decl>) -> (m: Machine)
        ensures
            m.decls@ == decls@,
            m@ == init_state(decls@),
            m.wf(),
    {
        let mut vars: Vec<Value> = Vec::new();
        let mut k: usize = 0;
        while k < decls.len()
            invariant
                k <= decls@.len(),
                vars@.len() == k,
                forall|j: int| 0 <= j < k ==> (#[trigger] vars@[j])@ == default_val(decls@[j]),
            decreases decls@.len() - k,
        {
            let v: Value = match decls[k].ty {
                VarTy::Word => Value::Word(Jval { val: 0u64 }),
                VarTy::Flag => Value::Flag(Jval { val: false }),
                VarTy::Arr(n) => {
                    let mut arr: Vec<b64> = Vec::new();
                    let mut j: usize = 0;
                    while j < n
                        invariant
                            j <= n,
                            arr@.len() == j,
                            forall|t: int| 0 <= t < j ==> arr@[t] == (Jval { val: 0u64 }),
                        decreases n - j,
                    {
                        arr.push(Jval { val: 0u64 });
                        j += 1;
                    }
                    proof {
                        assert(arr@.map_values(|x: b64| x.val) =~= Seq::new(n as nat, |t: int| 0u64));
                    }
                    Value::Arr(arr)
                },
            };
            proof {
                assert(v@ =~= default_val(decls@[k as int]));
            }
            vars.push(v);
            k += 1;
        }
        let m = Machine {
            vars,
            mem: MemoryStore::new(),
            events: Vec::new(),
            decls: Ghost(decls@),
        };
        proof {
            assert(m@.vars =~= init_state(decls@).vars);
            assert(m@ =~= init_state(decls@));
            assert forall|i: int| 0 <= i < decls@.len() implies val_matches(
                #[trigger] m@.vars[i],
                decls@[i],
            ) by {
                assert(m@.vars[i] == default_val(decls@[i]));
            };
        }
        m
    }

    /// The word a 64-bit slot holds, if slot `i` is one.
    pub fn read_word(&self, i: usize) -> (r: Option<u64>)
        ensures
            match r {
                Some(v) => i < self@.vars.len() && self@.vars[i as int] == AbsVal::Word(v),
                None => i >= self@.vars.len() || !(self@.vars[i as int] is Word),
            },
    {
        if i < self.vars.len() {
            match &self.vars[i] {
                Value::Word(j) => Some(j.val),
                _ => None,
            }
        } else {
            None
        }
    }

    /// The bit a flag slot holds, if slot `i` is one.
    pub fn read_flag(&self, i: usize) -> (r: Option<bool>)
        ensures
            match r {
                Some(b) => i < self@.vars.len() && self@.vars[i as int] == AbsVal::Flag(b),
                None => i >= self@.vars.len() || !(self@.vars[i as int] is Flag),
            },
    {
        if i < self.vars.len() {
            match &self.vars[i] {
                Value::Flag(j) => Some(j.val),
                _ => None,
            }
        } else {
            None
        }
    }

    /// Element `j` of the array in slot `a`, if that slot is an array and
    /// the index is within its bounds.
    pub fn read_arr_elem(&self, a: usize, j: usize) -> (r: Option<u64>)
        ensures
            match r {
                Some(v) => a < self@.vars.len() && match self@.vars[a as int] {
                    AbsVal::Arr(s) => j < s.len() && s[j as int] == v,
                    _ => false,
                },
                None => a >= self@.vars.len() || match self@.vars[a as int] {
                    AbsVal::Arr(s) => j >= s.len(),
                    _ => true,
                },
            },
    {
        if a < self.vars.len() {
            match &self.vars[a] {
                Value::Arr(arr) => {
                    if j < arr.len() {
                        Some(arr[j].val)
                    } else {
                        None
                    }
                },
                _ => None,
            }
        } else {
            None
        }
    }

    fn get_word(&self, i: usize) -> (r: u64)
        requires
            is_word_var(self.decls@, i),
            self.wf(),
        ensures
            r == word_of(self@, i),
    {
        match &self.vars[i] {
            Value::Word(j) => j.val,
            _ => {
                proof {
                    assert(val_matches(self@.vars[i as int], self.decls@[i as int]));
                    assert(false);
                }
                0
            },
        }
    }

    fn get_flag(&self, i: usize) -> (r: bool)
        requires
            is_flag_var(self.decls@, i),
            self.wf(),
        ensures
            r == flag_of(self@, i),
    {
        match &self.vars[i] {
            Value::Flag(j) => j.val,
            _ => {
                proof {
                    assert(val_matches(self@.vars[i as int], self.decls@[i as int]));
                    assert(false);
                }
                false
            },
        }
    }

    fn eval_operand(&self, o: &Operand) -> (r: u64)
        requires
            operand_wf(*o, self.decls@),
            self.wf(),
        ensures
            r == operand_val(*o, self@),
    {
        match o {
            Operand::Var(i) => self.get_word(*i),
            Operand::Lit(n) => *n,
        }
    }

    fn eval_flag_operand(&self, c: &FlagOperand) -> (r: bool)
        requires
            flag_operand_wf(*c, self.decls@),
            self.wf(),
        ensures
            r == flag_val(*c, self@),
    {
        match c {
            FlagOperand::Var(i) => self.get_flag(*i),
            FlagOperand::Lit(b) => *b,
        }
    }

    fn eval_word(&self, e: &WordExpr) -> (r: Result<u64, RunError>)
        requires
            word_expr_wf(*e, self.decls@),
            self.wf(),
        ensures
            r == eval_word_expr(*e, self@),
    {
        match e {
            WordExpr::Val(o) => Ok(self.eval_operand(o)),
            WordExpr::Get(a, idx) => {
                let i = self.eval_operand(idx);
                match &self.vars[*a] {
                    Value::Arr(arr) => {
                        proof {
                            assert(arr_of(self@, *a) == arr@.map_values(|x: b64| x.val));
                        }
                        if i < arr.len() as u64 {
                            Ok(arr[i as usize].val)
                        } else {
                            Err(RunError::IndexOutOfBounds)
                        }
                    },
                    _ => {
                        proof {
                            assert(val_matches(self@.vars[*a as int], self.decls@[*a as int]));
                            assert(false);
                        }
                        Err(RunError::IndexOutOfBounds)
                    },
                }
            },
            WordExpr::AddV(x, y) => Ok(
                crate::arith::add_v(self.eval_operand(x), self.eval_operand(y)).val,
            ),
            WordExpr::AdcV(x, y, c) => Ok(
                crate::arith::adc_v(
                    self.eval_operand(x),
                    self.eval_operand(y),
                    self.eval_flag_operand(c),
                ).val,
            ),
            WordExpr::SubV(x, y) => Ok(
                crate::arith::sub_v(self.eval_operand(x), self.eval_operand(y)).val,
            ),
            WordExpr::SbbV(x, y, c) => Ok(
                crate::arith::sbb_v(
                    self.eval_operand(x),
                    self.eval_operand(y),
                    self.eval_flag_operand(c),
                ).val,
            ),
            WordExpr::MulLow(x, y) => Ok(
                crate::arith::imul(self.eval_operand(x), self.eval_operand(y)).val,
            ),
            WordExpr::Xor(x, y) => Ok(
                crate::arith::xor(self.eval_operand(x), self.eval_operand(y)).val,
            ),
            WordExpr::Land(x, y) => Ok(
                crate::arith::land(self.eval_operand(x), self.eval_operand(y)).val,
            ),
            WordExpr::Lor(x, y) => Ok(
                crate::arith::lor(self.eval_operand(x), self.eval_operand(y)).val,
            ),
            WordExpr::Shr(x, sh) => Ok(crate::arith::shr(self.eval_operand(x), *sh).val),
            WordExpr::Shl(x, sh) => Ok(crate::arith::shl(self.eval_operand(x), *sh).val),
        }
    }

    fn eval_carry(&self, e: &CarryExpr) -> (r: (bool, u64))
        requires
            carry_expr_wf(*e, self.decls@),
            self.wf(),
        ensures
            (r.0, r.1) == eval_carry_expr(*e, self@),
    {
        match e {
            CarryExpr::AddC(x, y) => {
                let (cf, v) = crate::arith::add(self.eval_operand(x), self.eval_operand(y));
                (cf.val, v.val)
            },
            CarryExpr::AdcC(x, y, c) => {
                let (cf, v) = crate::arith::adc(
                    self.eval_operand(x),
                    self.eval_operand(y),
                    self.eval_flag_operand(c),
                );
                (cf.val, v.val)
            },
            CarryExpr::SubC(x, y) => {
                let (bf, v) = crate::arith::sub(self.eval_operand(x), self.eval_operand(y));
                (bf.val, v.val)
            },
            CarryExpr::SbbC(x, y, c) => {
                let (bf, v) = crate::arith::sbb(
                    self.eval_operand(x),
                    self.eval_operand(y),
                    self.eval_flag_operand(c),
                );
                (bf.val, v.val)
            },
        }
    }

    fn set_slot(&mut self, i: usize, v: Value)
        requires
            old(self).wf(),
            i < old(self).decls@.len(),
            val_matches(v@, old(self).decls@[i as int]),
        ensures
            final(self).decls == old(self).decls,
            final(self)@ == (State {
                vars: old(self)@.vars.update(i as int, v@),
                ..old(self)@
            }),
            final(self).wf(),
    {
        let ghost st0 = self@;
        let ghost vv = v@;
        self.vars[i] = v;
        proof {
            assert(self@.vars =~= st0.vars.update(i as int, vv));
            assert(self@ =~= (State { vars: st0.vars.update(i as int, vv), ..st0 }));
            assert forall|j: int| 0 <= j < self.decls@.len() implies val_matches(
                #[trigger] self@.vars[j],
                self.decls@[j],
            ) by {
                if j != i {
                    assert(self@.vars[j] == st0.vars[j]);
                }
            };
        }
    }

    fn write_target(&mut self, t: &Target, v: u64) -> (r: Result<(), RunError>)
        requires
            target_wf(*t, old(self).decls@),
            old(self).wf(),
        ensures
            final(self).decls == old(self).decls,
            match r {
                Ok(()) => write_target_spec(*t, v, old(self)@) == Ok::<State, RunError>(
                    final(self)@,
                ) && final(self).wf(),
                Err(e) => write_target_spec(*t, v, old(self)@) == Err::<State, RunError>(e)
                    && final(self)@ == old(self)@ && final(self).wf(),
            },
    {
        match t {
            Target::Word(i) => {
                self.set_slot(*i, Value::Word(Jval { val: v }));
                proof {
                    assert(write_target_spec(*t, v, old(self)@) == Ok::<State, RunError>(
                        set_word(old(self)@, *i, v),
                    ));
                }
                Ok(())
            },
            Target::Elem(a, idx) => {
                let i = self.eval_operand(idx);
                let ghost st0 = self@;
                let ghost aseq = arr_of(st0, *a);
                let mut taken = Value::Word(Jval { val: 0u64 });
                core::mem::swap(&mut taken, &mut self.vars[*a]);
                match taken {
                    Value::Arr(mut arr) => {
                        proof {
                            assert(val_matches(st0.vars[*a as int], self.decls@[*a as int]));
                            assert(aseq == arr@.map_values(|x: b64| x.val));
                        }
                        if i < arr.len() as u64 {
                            arr[i as usize] = Jval { val: v };
                            let ghost arr2 = arr@;
                            self.vars[*a] = Value::Arr(arr);
                            proof {
                                let stf = self@;
                                assert(arr2.map_values(|x: b64| x.val) =~= aseq.update(
                                    i as int,
                                    v,
                                ));
                                assert(stf.vars =~= st0.vars.update(
                                    *a as int,
                                    AbsVal::Arr(aseq.update(i as int, v)),
                                ));
                                assert(stf =~= set_arr(st0, *a, aseq.update(i as int, v)));
                                assert forall|j: int| 0 <= j < self.decls@.len() implies
                                    val_matches(#[trigger] stf.vars[j], self.decls@[j]) by {
                                    if j != *a {
                                        assert(stf.vars[j] == st0.vars[j]);
                                    }
                                };
                            }
                            Ok(())
                        } else {
                            self.vars[*a] = Value::Arr(arr);
                            proof {
                                assert(self@.vars =~= st0.vars);
                                assert(self@ =~= st0);
                            }
                            Err(RunError::IndexOutOfBounds)
                        }
                    },
                    _ => {
                        proof {
                            assert(val_matches(st0.vars[*a as int], self.decls@[*a as int]));
                            assert(false);
                        }
                        Err(RunError::IndexOutOfBounds)
                    },
                }
            },
        }
    }

    fn locate(&self, mr: &MemRef) -> (r: Result<(u64, usize), RunError>)
        requires
            memref_wf(*mr, self.decls@),
            self.wf(),
        ensures
            match r {
                Ok(po) => {
                    &&& po.0 == operand_val(mr.base, self@)
                    &&& po.1 == operand_val(mr.off, self@)
                    &&& po.0 + po.1 <= usize::MAX
                    &&& (po.0 + po.1) % 8 == 0
                    &&& mem_access(*mr, self@) == Ok::<usize, RunError>(addr_index(po.0, po.1))
                },
                Err(e) => mem_access(*mr, self@) == Err::<usize, RunError>(e),
            },
    {
        let p = self.eval_operand(&mr.base);
        let o = self.eval_operand(&mr.off);
        let sum: u128 = p as u128 + o as u128;
        if sum > usize::MAX as u128 {
            Err(RunError::AddressOverflow)
        } else if sum % 8 != 0 {
            Err(RunError::MisalignedAccess)
        } else {
            Ok((p, o as usize))
        }
    }
}

fn exec_tuple(items: &Vec<TupleItem>, m: &mut Machine)
    requires
        forall|k: int| 0 <= k < items@.len() ==> tuple_item_wf(#[trigger] items@[k], old(m).decls@),
        old(m).wf(),
    ensures
        final(m).decls == old(m).decls,
        final(m)@ == run_tuple(items@, old(m)@, old(m)@),
        final(m).wf(),
{
    let ghost st0 = m@;
    // read every source before any target is written
    let mut words: Vec<u64> = Vec::new();
    let mut flags: Vec<bool> = Vec::new();
    let mut k: usize = 0;
    while k < items.len()
        invariant
            k <= items@.len(),
            words@.len() == k,
            flags@.len() == k,
            m@ == st0,
            m.decls == old(m).decls,
            m.wf(),
            st0 == old(m)@,
            forall|j: int| 0 <= j < items@.len() ==> tuple_item_wf(#[trigger] items@[j], m.decls@),
            forall|j: int| 0 <= j < k ==> match #[trigger] items@[j] {
                TupleItem::WordItem(_, o) => words@[j] == operand_val(o, st0),
                TupleItem::FlagItem(_, c) => flags@[j] == flag_val(c, st0),
            },
        decreases items@.len() - k,
    {
        match &items[k] {
            TupleItem::WordItem(_, o) => {
                words.push(m.eval_operand(o));
                flags.push(false);
            },
            TupleItem::FlagItem(_, c) => {
                words.push(0);
                flags.push(m.eval_flag_operand(c));
            },
        }
        k += 1;
    }
    // bind the targets positionally, in order
    proof {
        assert(items@.subrange(0, items@.len() as int) =~= items@);
    }
    let mut k2: usize = 0;
    while k2 < items.len()
        invariant
            k2 <= items@.len(),
            words@.len() == items@.len(),
            flags@.len() == items@.len(),
            m.decls == old(m).decls,
            m.wf(),
            st0 == old(m)@,
            forall|j: int| 0 <= j < items@.len() ==> tuple_item_wf(#[trigger] items@[j], m.decls@),
            forall|j: int| 0 <= j < items@.len() ==> match #[trigger] items@[j] {
                TupleItem::WordItem(_, o) => words@[j] == operand_val(o, st0),
                TupleItem::FlagItem(_, c) => flags@[j] == flag_val(c, st0),
            },
            run_tuple(items@, st0, st0) == run_tuple(
                items@.subrange(k2 as int, items@.len() as int),
                st0,
                m@,
            ),
        decreases items@.len() - k2,
    {
        let ghost pre = m@;
        let ghost tail = items@.subrange(k2 as int, items@.len() as int);
        match &items[k2] {
            TupleItem::WordItem(i, _) => {
                m.set_slot(*i, Value::Word(Jval { val: words[k2] }));
                proof {
                    assert(m@ =~= set_word(pre, *i, words@[k2 as int]));
                }
            },
            TupleItem::FlagItem(i, _) => {
                m.set_slot(*i, Value::Flag(Jval { val: flags[k2] }));
                proof {
                    assert(m@ =~= set_flag(pre, *i, flags@[k2 as int]));
                }
            },
        }
        proof {
            assert(tail[0] == items@[k2 as int]);
            assert(tail.drop_first() =~= items@.subrange(k2 + 1, items@.len() as int));
        }
        k2 += 1;
    }
    proof {
        assert(items@.subrange(items@.len() as int, items@.len() as int).len() == 0);
    }
}

fn exec_for(v: usize, lo: u64, hi: u64, body: &Vec<Stmt>, m: &mut Machine, fuel: u64) -> (r:
    RunResult)
    requires
        is_word_var(old(m).decls@, v),
        stmts_wf(body@, old(m).decls@),
        old(m).wf(),
    ensures
        final(m).decls == old(m).decls,
        match r {
            RunResult::Done => run_for(v, lo, hi, body@, old(m)@, fuel as nat) == Outcome::Done(
                final(m)@,
            ) && final(m).wf(),
            RunResult::Fail(e) => run_for(v, lo, hi, body@, old(m)@, fuel as nat) == Outcome::Fail(
                e,
            ),
            RunResult::OutOfFuel => run_for(v, lo, hi, body@, old(m)@, fuel as nat)
                == Outcome::OutOfFuel,
        },
    decreases fuel, 1 + stmts_size(body@), 0nat,
{
    let mut i = lo;
    let mut f = fuel;
    loop
        invariant
            is_word_var(m.decls@, v),
            stmts_wf(body@, m.decls@),
            m.wf(),
            m.decls == old(m).decls,
            f <= fuel,
            run_for(v, lo, hi, body@, old(m)@, fuel as nat) == run_for(
                v,
                i,
                hi,
                body@,
                m@,
                f as nat,
            ),
        decreases f,
    {
        if i >= hi {
            return RunResult::Done;
        }
        let ghost pre = m@;
        m.set_slot(v, Value::Word(Jval { val: i }));
        proof {
            assert(m@ =~= set_word(pre, v, i));
        }
        let r = exec_stmts(body, m, f);
        match r {
            RunResult::Done => {
                if f == 0 {
                    return RunResult::OutOfFuel;
                }
                f = f - 1;
                i = i + 1;
            },
            RunResult::Fail(e) => {
                return RunResult::Fail(e);
            },
            RunResult::OutOfFuel => {
                return RunResult::OutOfFuel;
            },
        }
    }
}

fn exec_dowhile(body: &Vec<Stmt>, c: usize, neg: bool, m: &mut Machine, fuel: u64) -> (r:
    RunResult)
    requires
        stmts_wf(body@, old(m).decls@),
        is_flag_var(old(m).decls@, c),
        old(m).wf(),
    ensures
        final(m).decls == old(m).decls,
        match r {
            RunResult::Done => run_dowhile(body@, c, neg, old(m)@, fuel as nat) == Outcome::Done(
                final(m)@,
            ) && final(m).wf(),
            RunResult::Fail(e) => run_dowhile(body@, c, neg, old(m)@, fuel as nat)
                == Outcome::Fail(e),
            RunResult::OutOfFuel => run_dowhile(body@, c, neg, old(m)@, fuel as nat)
                == Outcome::OutOfFuel,
        },
    decreases fuel, 1 + stmts_size(body@), 0nat,
{
    let mut f = fuel;
    loop
        invariant
            stmts_wf(body@, m.decls@),
            is_flag_var(m.decls@, c),
            m.wf(),
            m.decls == old(m).decls,
            f <= fuel,
            run_dowhile(body@, c, neg, old(m)@, fuel as nat) == run_dowhile(
                body@,
                c,
                neg,
                m@,
                f as nat,
            ),
        decreases f,
    {
        let r = exec_stmts(body, m, f);
        match r {
            RunResult::Done => {
                let b = m.get_flag(c);
                if b == neg {
                    return RunResult::Done;
                }
                if f == 0 {
                    return RunResult::OutOfFuel;
                }
                f = f - 1;
            },
            RunResult::Fail(e) => {
                return RunResult::Fail(e);
            },
            RunResult::OutOfFuel => {
                return RunResult::OutOfFuel;
            },
        }
    }
}

#[verifier::rlimit(60)]
fn exec_stmt(s: &Stmt, m: &mut Machine, fuel: u64) -> (r: RunResult)
    requires
        stmt_wf(*s, old(m).decls@),
        old(m).wf(),
    ensures
        final(m).decls == old(m).decls,
        match r {
            RunResult::Done => run_stmt(*s, old(m)@, fuel as nat) == Outcome::Done(final(m)@)
                && final(m).wf(),
            RunResult::Fail(e) => run_stmt(*s, old(m)@, fuel as nat) == Outcome::Fail(e),
            RunResult::OutOfFuel => run_stmt(*s, old(m)@, fuel as nat) == Outcome::OutOfFuel,
        },
    decreases fuel, stmt_size(*s), 1nat,
{
    match s {
        Stmt::Assign(t, e) => {
            match m.eval_word(e) {
                Ok(v) => match m.write_target(t, v) {
                    Ok(()) => RunResult::Done,
                    Err(err) => RunResult::Fail(err),
                },
                Err(err) => RunResult::Fail(err),
            }
        },
        Stmt::FlagAssign(i, c) => {
            let b = m.eval_flag_operand(c);
            let ghost pre = m@;
            m.set_slot(*i, Value::Flag(Jval { val: b }));
            proof {
                assert(m@ =~= set_flag(pre, *i, b));
            }
            RunResult::Done
        },
        Stmt::ArrFill(a, o, n) => {
            let val = m.eval_operand(o);
            let mut arr: Vec<b64> = Vec::new();
            let mut k: usize = 0;
            while k < *n
                invariant
                    k <= *n,
                    arr@.len() == k,
                    forall|j: int| 0 <= j < k ==> arr@[j] == (Jval { val }),
                decreases *n - k,
            {
                arr.push(Jval { val });
                k += 1;
            }
            let ghost pre = m@;
            proof {
                assert(arr@.map_values(|x: b64| x.val) =~= Seq::new(
                    *n as nat,
                    |j: int| operand_val(*o, pre),
                ));
            }
            m.set_slot(*a, Value::Arr(arr));
            proof {
                assert(m@ =~= set_arr(pre, *a, Seq::new(*n as nat, |j: int| operand_val(*o, pre))));
            }
            RunResult::Done
        },
        Stmt::ArrList(a, os) => {
            let mut arr: Vec<b64> = Vec::new();
            let mut k: usize = 0;
            let ghost pre = m@;
            while k < os.len()
                invariant
                    k <= os@.len(),
                    arr@.len() == k,
                    m@ == pre,
                    pre == old(m)@,
                    m.decls == old(m).decls,
                    m.wf(),
                    forall|j: int| 0 <= j < os@.len() ==> operand_wf(#[trigger] os@[j], m.decls@),
                    forall|j: int| 0 <= j < k ==> arr@[j].val == operand_val(os@[j], pre),
                decreases os@.len() - k,
            {
                let val = m.eval_operand(&os[k]);
                arr.push(Jval { val });
                k += 1;
            }
            proof {
                assert(arr@.map_values(|x: b64| x.val) =~= Seq::new(
                    os@.len(),
                    |j: int| operand_val(os@[j], pre),
                ));
            }
            m.set_slot(*a, Value::Arr(arr));
            proof {
                assert(m@ =~= set_arr(
                    pre,
                    *a,
                    Seq::new(os@.len(), |j: int| operand_val(os@[j], pre)),
                ));
            }
            RunResult::Done
        },
        Stmt::CarryAssign(f, t, ce) => {
            let (b, v) = m.eval_carry(ce);
            let ghost pre = m@;
            m.set_slot(*f, Value::Flag(Jval { val: b }));
            proof {
                assert(m@ =~= set_flag(pre, *f, b));
            }
            match m.write_target(t, v) {
                Ok(()) => RunResult::Done,
                Err(err) => RunResult::Fail(err),
            }
        },
        Stmt::MulAssign(t1, t2, x, y) => {
            let xv = m.eval_operand(x);
            let yv = m.eval_operand(y);
            let (hi, lo) = crate::arith::mul(xv, yv);
            match m.write_target(t1, hi.val) {
                Ok(()) => match m.write_target(t2, lo.val) {
                    Ok(()) => RunResult::Done,
                    Err(err) => RunResult::Fail(err),
                },
                Err(err) => RunResult::Fail(err),
            }
        },
        Stmt::TupleAssign(items) => {
            exec_tuple(items, m);
            RunResult::Done
        },
        Stmt::Load(t, mr) => {
            match m.locate(mr) {
                Ok((p, off)) => match m.mem.try_load_mem(p, off) {
                    Some(x) => match m.write_target(t, x.val) {
                        Ok(()) => RunResult::Done,
                        Err(err) => RunResult::Fail(err),
                    },
                    None => RunResult::Fail(RunError::UninitializedMemoryAccess),
                },
                Err(err) => RunResult::Fail(err),
            }
        },
        Stmt::Store(mr, o) => {
            match m.locate(mr) {
                Ok((p, off)) => {
                    let xv = m.eval_operand(o);
                    let ghost pre = m@;
                    m.mem.store_mem(p, off, Jval { val: xv });
                    proof {
                        assert(m@ =~= (State {
                            mem: pre.mem.insert(addr_index(p, off), xv),
                            ..pre
                        }));
                    }
                    RunResult::Done
                },
                Err(err) => RunResult::Fail(err),
            }
        },
        Stmt::CMove(c, neg, t, e) => {
            let b = m.get_flag(*c);
            if b != *neg {
                match m.eval_word(e) {
                    Ok(v) => match m.write_target(t, v) {
                        Ok(()) => RunResult::Done,
                        Err(err) => RunResult::Fail(err),
                    },
                    Err(err) => RunResult::Fail(err),
                }
            } else {
                RunResult::Done
            }
        },
        Stmt::For(v, lo, hi, body) => {
            let lo_v = m.eval_operand(lo);
            let hi_v = m.eval_operand(hi);
            exec_for(*v, lo_v, hi_v, body, m, fuel)
        },
        Stmt::DoWhile(body, c, neg) => exec_dowhile(body, *c, *neg, m, fuel),
        Stmt::IfElse(c, tb, eb) => {
            let b = m.eval_flag_operand(c);
            if b {
                exec_stmts(tb, m, fuel)
            } else {
                exec_stmts(eb, m, fuel)
            }
        },
        Stmt::Host(tag) => {
            let ghost pre = m@;
            self_push_event(m, *tag);
            proof {
                assert(m@ =~= (State { events: pre.events.push(*tag), ..pre }));
            }
            RunResult::Done
        },
        Stmt::Eval(e) => {
            match m.eval_word(e) {
                Ok(_) => RunResult::Done,
                Err(err) => RunResult::Fail(err),
            }
        },
    }
}

fn self_push_event(m: &mut Machine, tag: u64)
    requires
        old(m).wf(),
    ensures
        final(m).decls == old(m).decls,
        final(m)@ == (State { events: old(m)@.events.push(tag), ..old(m)@ }),
        final(m).wf(),
{
    let ghost pre = m@;
    m.events.push(tag);
    proof {
        assert(m@ =~= (State { events: pre.events.push(tag), ..pre }));
    }
}

fn exec_stmts(ss: &Vec<Stmt>, m: &mut Machine, fuel: u64) -> (r: RunResult)
    requires
        stmts_wf(ss@, old(m).decls@),
        old(m).wf(),
    ensures
        final(m).decls == old(m).decls,
        match r {
            RunResult::Done => run_stmts(ss@, old(m)@, fuel as nat) == Outcome::Done(final(m)@)
                && final(m).wf(),
            RunResult::Fail(e) => run_stmts(ss@, old(m)@, fuel as nat) == Outcome::Fail(e),
            RunResult::OutOfFuel => run_stmts(ss@, old(m)@, fuel as nat) == Outcome::OutOfFuel,
        },
    decreases fuel, stmts_size(ss@), 0nat,
{
    proof {
        assert(ss@.subrange(0, ss@.len() as int) =~= ss@);
    }
    let mut k: usize = 0;
    while k < ss.len()
        invariant
            k <= ss@.len(),
            stmts_wf(ss@, m.decls@),
            m.wf(),
            m.decls == old(m).decls,
            run_stmts(ss@, old(m)@, fuel as nat) == run_stmts(
                ss@.subrange(k as int, ss@.len() as int),
                m@,
                fuel as nat,
            ),
        decreases ss@.len() - k,
    {
        let ghost tail = ss@.subrange(k as int, ss@.len() as int);
        proof {
            assert(tail[0] == ss@[k as int]);
            assert(tail.drop_first() =~= ss@.subrange(k + 1, ss@.len() as int));
            lemma_stmt_size_lt(ss@, k as int);
        }
        let r = exec_stmt(&ss[k], m, fuel);
        match r {
            RunResult::Done => {
                k += 1;
            },
            RunResult::Fail(e) => {
                return RunResult::Fail(e);
            },
            RunResult::OutOfFuel => {
                return RunResult::OutOfFuel;
            },
        }
    }
    proof {
        assert(ss@.subrange(k as int, ss@.len() as int).len() == 0);
    }
    RunResult::Done
}

/// Runs a translated program against an execution context, with a step
/// budget: one unit is spent per completed loop iteration, and a program
/// that needs more steps stops at `OutOfFuel` with nothing else promised.
/// On `Done` the machine holds exactly the final state the semantics give
/// the program; on `Fail` the program stopped at that fatal runtime error.
pub fn run_program(p: &Program, m: &mut Machine, fuel: u64) -> (r: RunResult)
    requires
        p.wf(),
        old(m).decls@ == p.decls@,
        old(m).wf(),
    ensures
        final(m).decls == old(m).decls,
        match r {
            RunResult::Done => run_stmts(p.stmts@, old(m)@, fuel as nat) == Outcome::Done(
                final(m)@,
            ) && final(m).wf(),
            RunResult::Fail(e) => run_stmts(p.stmts@, old(m)@, fuel as nat) == Outcome::Fail(e),
            RunResult::OutOfFuel => run_stmts(p.stmts@, old(m)@, fuel as nat)
                == Outcome::OutOfFuel,
        },
{
    exec_stmts(&p.stmts, m, fuel)
}

} // verus!
