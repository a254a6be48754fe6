//! The statement language and its syntax-directed translator.
//!
//! A program is a declaration list and a statement sequence. Each statement
//! must match one of the recognized grammar forms below; `translate` checks
//! every statement in one static pass and rejects the whole program with a
//! `SyntaxError` before anything executes if any statement is malformed —
//! there is no dynamic "unknown statement" error. Host-only escape blocks
//! are passed through untouched, in source order.
use vstd::prelude::*;

verus! {

/// Where a program variable notionally lives. The distinction is metadata
/// only: the simulation treats both kinds identically.
#[derive(Clone, Copy, Debug, PartialEq, Eq, Structural)]
pub enum Storage {
    Stack,
    Reg,
}

/// The shape of a program variable: a 64-bit word, a 1-bit flag, or a
/// fixed-length array of 64-bit words.
#[derive(Clone, Copy, Debug, PartialEq, Eq, Structural)]
pub enum VarTy {
    Word,
    Flag,
    Arr(usize),
}

/// The declaration of one program variable: a slot of a declared storage
/// kind and shape. Variables are referred to by their slot index.
#[derive(Clone, Copy, Debug, PartialEq, Eq, Structural)]
pub struct Decl {
    pub storage: Storage,
    pub ty: VarTy,
}

/// A 64-bit operand: a word variable, or a raw literal that is lifted to
/// width 64 before use.
#[derive(Clone, Copy, Debug, PartialEq, Eq, Structural)]
pub enum Operand {
    Var(usize),
    Lit(u64),
}

/// A 1-bit operand: a flag variable, or a raw boolean literal that is
/// lifted to width 1 before use.
#[derive(Clone, Copy, Debug, PartialEq, Eq, Structural)]
pub enum FlagOperand {
    Var(usize),
    Lit(bool),
}

/// A memory expression `base + off`. The recognized form requires the base
/// to be a word variable; anything else is a malformed memory expression
/// and is rejected at translation time.
#[derive(Clone, Copy, Debug, PartialEq, Eq, Structural)]
pub struct MemRef {
    pub base: Operand,
    pub off: Operand,
}

/// A word-valued expression: an operand, an array element, or one
/// application of the arithmetic library. Shift amounts are literals and
/// must be below the word width, checked statically.
#[derive(Clone, Copy, Debug, PartialEq, Eq, Structural)]
pub enum WordExpr {
    Val(Operand),
    Get(usize, Operand),
    AddV(Operand, Operand),
    AdcV(Operand, Operand, FlagOperand),
    SubV(Operand, Operand),
    SbbV(Operand, Operand, FlagOperand),
    MulLow(Operand, Operand),
    Xor(Operand, Operand),
    Land(Operand, Operand),
    Lor(Operand, Operand),
    Shr(Operand, u64),
    Shl(Operand, u64),
}

/// A flag-and-word valued expression: one application of an arithmetic
/// operation that returns a carry or borrow flag beside its value.
#[derive(Clone, Copy, Debug, PartialEq, Eq, Structural)]
pub enum CarryExpr {
    AddC(Operand, Operand),
    AdcC(Operand, Operand, FlagOperand),
    SubC(Operand, Operand),
    SbbC(Operand, Operand, FlagOperand),
}

/// The target of a word assignment: a word variable, or one element of an
/// array variable selected by a word operand.
#[derive(Clone, Copy, Debug, PartialEq, Eq, Structural)]
pub enum Target {
    Word(usize),
    Elem(usize, Operand),
}

/// One component of a tuple-destructuring assignment: a word variable
/// receiving a word operand, or a flag variable receiving a flag operand.
/// All sources are read before any target is written.
#[derive(Clone, Copy, Debug, PartialEq, Eq, Structural)]
pub enum TupleItem {
    WordItem(usize, Operand),
    FlagItem(usize, FlagOperand),
}

/// The recognized statement forms. Statement order in source equals
/// execution order; loops and conditionals nest structurally.
#[derive(Debug)]
pub enum Stmt {
    /// `v = e;`, `v = #lit;`, `v[i] = e;` or `v[i] = #lit;` — scalar or
    /// indexed assignment of a word expression, literals lifted.
    Assign(Target, WordExpr),
    /// `c = #lit;` or `c = c2;` — flag assignment.
    FlagAssign(usize, FlagOperand),
    /// `v = [e; n];` — repeat-fill array assignment; `n` must equal the
    /// declared length of `v`, and the element is lifted.
    ArrFill(usize, Operand, usize),
    /// `v = [e0, ..., ek];` — explicit element list; the list must have
    /// the declared length of `v`, and each element is lifted.
    ArrList(usize, Vec<Operand>),
    /// `(cf, v) = op(..);` — destructuring assignment of a carry-flagged
    /// operation: the flag first, then the word, to a scalar or indexed
    /// target.
    CarryAssign(usize, Target, CarryExpr),
    /// `(hi, lo) = mul(x, y);` — destructuring assignment of the full
    /// multiplication: high half first, then low half.
    MulAssign(Target, Target, Operand, Operand),
    /// `(a, b, ...) = (e0, e1, ...);` — tuple-destructuring assignment of
    /// 2 to 5 components: every source is evaluated once, before any
    /// target is bound, positionally in order.
    TupleAssign(Vec<TupleItem>),
    /// `v = MEM[p + off];` or `v[i] = MEM[p + off];` — 64-bit memory load,
    /// the result lifted into the target.
    Load(Target, MemRef),
    /// `MEM[p + off] = x;` — 64-bit memory store of the operand's raw
    /// value.
    Store(MemRef, Operand),
    /// `when c { t = e };` or `when !c { t = e };` — conditional
    /// (predicated) move to a scalar or indexed target. The flag (negated
    /// when the second field is set) guards an ordinary conditional
    /// update: a data-dependent branch, not a branchless select.
    CMove(usize, bool, Target, WordExpr),
    /// `for i in (lo..hi) { body }` — executes the body once per integer
    /// in `[lo, hi)`, ascending, binding the loop variable each iteration.
    For(usize, Operand, Operand, Vec<Stmt>),
    /// `do { body } while c;` or `do { body } while !c;` — post-tested
    /// loop: the body executes at least once, and the flag (negated when
    /// the last field is set) is re-evaluated after each iteration.
    DoWhile(Vec<Stmt>, usize, bool),
    /// `if (c) { body } else { ebody }` — structured branching; the
    /// else-less form has an empty else body.
    IfElse(FlagOperand, Vec<Stmt>, Vec<Stmt>),
    /// `rust! { ... }` — host-only escape block: an opaque statement the
    /// translator passes through untouched and execution records in
    /// source order, identified by its tag.
    Host(u64),
    /// `e;` — bare expression statement, evaluated for effect and
    /// discarded.
    Eval(WordExpr),
}

/// The static translation failure: the statement at index `stmt` (the
/// first offending one) matches no recognized grammar form. The whole
/// program is rejected before any action executes.
#[derive(Clone, Copy, Debug, PartialEq, Eq, Structural)]
pub struct SyntaxError {
    pub stmt: usize,
}

/// Whether slot `i` is declared as a word variable.
pub open spec fn is_word_var(decls: Seq<Decl>, i: usize) -> bool {
    i < decls.len() && decls[i as int].ty == VarTy::Word
}

/// Whether slot `i` is declared as a flag variable.
pub open spec fn is_flag_var(decls: Seq<Decl>, i: usize) -> bool {
    i < decls.len() && decls[i as int].ty == VarTy::Flag
}

/// Whether slot `i` is declared as an array variable of length `n`.
pub open spec fn is_arr_var(decls: Seq<Decl>, i: usize, n: usize) -> bool {
    i < decls.len() && decls[i as int].ty == VarTy::Arr(n)
}

pub open spec fn operand_wf(o: Operand, decls: Seq<Decl>) -> bool {
    match o {
        Operand::Var(i) => is_word_var(decls, i),
        Operand::Lit(_) => true,
    }
}

pub open spec fn flag_operand_wf(c: FlagOperand, decls: Seq<Decl>) -> bool {
    match c {
        FlagOperand::Var(i) => is_flag_var(decls, i),
        FlagOperand::Lit(_) => true,
    }
}

pub open spec fn memref_wf(m: MemRef, decls: Seq<Decl>) -> bool {
    &&& match m.base {
        Operand::Var(i) => is_word_var(decls, i),
        Operand::Lit(_) => false,
    }
    &&& operand_wf(m.off, decls)
}

pub open spec fn target_wf(t: Target, decls: Seq<Decl>) -> bool {
    match t {
        Target::Word(i) => is_word_var(decls, i),
        Target::Elem(a, idx) => {
            &&& a < decls.len()
            &&& decls[a as int].ty is Arr
            &&& operand_wf(idx, decls)
        },
    }
}

pub open spec fn word_expr_wf(e: WordExpr, decls: Seq<Decl>) -> bool {
    match e {
        WordExpr::Val(o) => operand_wf(o, decls),
        WordExpr::Get(a, idx) => {
            &&& a < decls.len()
            &&& decls[a as int].ty is Arr
            &&& operand_wf(idx, decls)
        },
        WordExpr::AddV(x, y) => operand_wf(x, decls) && operand_wf(y, decls),
        WordExpr::AdcV(x, y, c) => operand_wf(x, decls) && operand_wf(y, decls) && flag_operand_wf(
            c,
            decls,
        ),
        WordExpr::SubV(x, y) => operand_wf(x, decls) && operand_wf(y, decls),
        WordExpr::SbbV(x, y, c) => operand_wf(x, decls) && operand_wf(y, decls) && flag_operand_wf(
            c,
            decls,
        ),
        WordExpr::MulLow(x, y) => operand_wf(x, decls) && operand_wf(y, decls),
        WordExpr::Xor(x, y) => operand_wf(x, decls) && operand_wf(y, decls),
        WordExpr::Land(x, y) => operand_wf(x, decls) && operand_wf(y, decls),
        WordExpr::Lor(x, y) => operand_wf(x, decls) && operand_wf(y, decls),
        WordExpr::Shr(x, sh) => operand_wf(x, decls) && sh < 64,
        WordExpr::Shl(x, sh) => operand_wf(x, decls) && sh < 64,
    }
}

pub open spec fn carry_expr_wf(e: CarryExpr, decls: Seq<Decl>) -> bool {
    match e {
        CarryExpr::AddC(x, y) => operand_wf(x, decls) && operand_wf(y, decls),
        CarryExpr::AdcC(x, y, c) => operand_wf(x, decls) && operand_wf(y, decls)
            && flag_operand_wf(c, decls),
        CarryExpr::SubC(x, y) => operand_wf(x, decls) && operand_wf(y, decls),
        CarryExpr::SbbC(x, y, c) => operand_wf(x, decls) && operand_wf(y, decls)
            && flag_operand_wf(c, decls),
    }
}

pub open spec fn tuple_item_wf(it: TupleItem, decls: Seq<Decl>) -> bool {
    match it {
        TupleItem::WordItem(i, o) => is_word_var(decls, i) && operand_wf(o, decls),
        TupleItem::FlagItem(i, c) => is_flag_var(decls, i) && flag_operand_wf(c, decls),
    }
}

/// Whether one statement matches a recognized grammar form over the given
/// declarations. This is the grammar the translator enforces.
pub open spec fn stmt_wf(s: Stmt, decls: Seq<Decl>) -> bool
    decreases s,
{
    match s {
        Stmt::Assign(t, e) => target_wf(t, decls) && word_expr_wf(e, decls),
        Stmt::FlagAssign(i, c) => is_flag_var(decls, i) && flag_operand_wf(c, decls),
        Stmt::ArrFill(a, o, n) => is_arr_var(decls, a, n) && operand_wf(o, decls),
        Stmt::ArrList(a, os) => {
            &&& is_arr_var(decls, a, os.len())
            &&& forall|k: int| 0 <= k < os@.len() ==> operand_wf(#[trigger] os@[k], decls)
        },
        Stmt::CarryAssign(f, t, ce) => is_flag_var(decls, f) && target_wf(t, decls)
            && carry_expr_wf(ce, decls),
        Stmt::MulAssign(t1, t2, x, y) => target_wf(t1, decls) && target_wf(t2, decls)
            && operand_wf(x, decls) && operand_wf(y, decls),
        Stmt::TupleAssign(items) => {
            &&& 2 <= items@.len() <= 5
            &&& forall|k: int| 0 <= k < items@.len() ==> tuple_item_wf(#[trigger] items@[k], decls)
        },
        Stmt::Load(t, mr) => target_wf(t, decls) && memref_wf(mr, decls),
        Stmt::Store(mr, o) => memref_wf(mr, decls) && operand_wf(o, decls),
        Stmt::CMove(c, _neg, t, e) => is_flag_var(decls, c) && target_wf(t, decls) && word_expr_wf(
            e,
            decls,
        ),
        Stmt::For(v, lo, hi, body) => {
            &&& is_word_var(decls, v)
            &&& operand_wf(lo, decls)
            &&& operand_wf(hi, decls)
            &&& stmts_wf(body@, decls)
        },
        Stmt::DoWhile(body, c, _neg) => stmts_wf(body@, decls) && is_flag_var(decls, c),
        Stmt::IfElse(c, tb, eb) => {
            &&& flag_operand_wf(c, decls)
            &&& stmts_wf(tb@, decls)
            &&& stmts_wf(eb@, decls)
        },
        Stmt::Host(_) => true,
        Stmt::Eval(e) => word_expr_wf(e, decls),
    }
}

/// Whether every statement of a sequence matches a recognized form.
pub open spec fn stmts_wf(ss: Seq<Stmt>, decls: Seq<Decl>) -> bool
    decreases ss,
{
    forall|k: int| 0 <= k < ss.len() ==> stmt_wf(#[trigger] ss[k], decls)
}

/// A translated program: its declarations and its statement sequence,
/// every statement of which has been checked against the grammar.
#[derive(Debug)]
pub struct Program {
    pub decls: Vec<Decl>,
    pub stmts: Vec<Stmt>,
}

impl Program {
    /// Every statement matches a recognized grammar form; `translate`
    /// establishes this and execution requires it.
    pub open spec fn wf(&self) -> bool {
        stmts_wf(self.stmts@, self.decls@)
    }
}

fn check_operand(o: &Operand, decls: &Vec<Decl>) -> (b: bool)
    ensures
        b == operand_wf(*o, decls@),
{
    match o {
        Operand::Var(i) => *i < decls.len() && decls[*i].ty == VarTy::Word,
        Operand::Lit(_) => true,
    }
}

fn check_flag_operand(c: &FlagOperand, decls: &Vec<Decl>) -> (b: bool)
    ensures
        b == flag_operand_wf(*c, decls@),
{
    match c {
        FlagOperand::Var(i) => *i < decls.len() && decls[*i].ty == VarTy::Flag,
        FlagOperand::Lit(_) => true,
    }
}

fn check_memref(m: &MemRef, decls: &Vec<Decl>) -> (b: bool)
    ensures
        b == memref_wf(*m, decls@),
{
    let base_ok = match m.base {
        Operand::Var(i) => i < decls.len() && decls[i].ty == VarTy::Word,
        Operand::Lit(_) => false,
    };
    base_ok && check_operand(&m.off, decls)
}

fn check_arr_var(a: usize, decls: &Vec<Decl>) -> (b: bool)
    ensures
        b == (a < decls@.len() && decls@[a as int].ty is Arr),
{
    a < decls.len() && match decls[a].ty {
        VarTy::Arr(_) => true,
        _ => false,
    }
}

fn check_target(t: &Target, decls: &Vec<Decl>) -> (b: bool)
    ensures
        b == target_wf(*t, decls@),
{
    match t {
        Target::Word(i) => *i < decls.len() && decls[*i].ty == VarTy::Word,
        Target::Elem(a, idx) => check_arr_var(*a, decls) && check_operand(idx, decls),
    }
}

fn check_word_expr(e: &WordExpr, decls: &Vec<Decl>) -> (b: bool)
    ensures
        b == word_expr_wf(*e, decls@),
{
    match e {
        WordExpr::Val(o) => check_operand(o, decls),
        WordExpr::Get(a, idx) => check_arr_var(*a, decls) && check_operand(idx, decls),
        WordExpr::AddV(x, y) => check_operand(x, decls) && check_operand(y, decls),
        WordExpr::AdcV(x, y, c) => check_operand(x, decls) && check_operand(y, decls)
            && check_flag_operand(c, decls),
        WordExpr::SubV(x, y) => check_operand(x, decls) && check_operand(y, decls),
        WordExpr::SbbV(x, y, c) => check_operand(x, decls) && check_operand(y, decls)
            && check_flag_operand(c, decls),
        WordExpr::MulLow(x, y) => check_operand(x, decls) && check_operand(y, decls),
        WordExpr::Xor(x, y) => check_operand(x, decls) && check_operand(y, decls),
        WordExpr::Land(x, y) => check_operand(x, decls) && check_operand(y, decls),
        WordExpr::Lor(x, y) => check_operand(x, decls) && check_operand(y, decls),
        WordExpr::Shr(x, sh) => check_operand(x, decls) && *sh < 64,
        WordExpr::Shl(x, sh) => check_operand(x, decls) && *sh < 64,
    }
}

fn check_carry_expr(e: &CarryExpr, decls: &Vec<Decl>) -> (b: bool)
    ensures
        b == carry_expr_wf(*e, decls@),
{
    match e {
        CarryExpr::AddC(x, y) => check_operand(x, decls) && check_operand(y, decls),
        CarryExpr::AdcC(x, y, c) => check_operand(x, decls) && check_operand(y, decls)
            && check_flag_operand(c, decls),
        CarryExpr::SubC(x, y) => check_operand(x, decls) && check_operand(y, decls),
        CarryExpr::SbbC(x, y, c) => check_operand(x, decls) && check_operand(y, decls)
            && check_flag_operand(c, decls),
    }
}

fn check_operands(os: &Vec<Operand>, decls: &Vec<Decl>) -> (b: bool)
    ensures
        b == forall|j: int| 0 <= j < os@.len() ==> operand_wf(#[trigger] os@[j], decls@),
{
    let mut k: usize = 0;
    while k < os.len()
        invariant
            k <= os@.len(),
            forall|j: int| 0 <= j < k ==> operand_wf(#[trigger] os@[j], decls@),
        decreases os@.len() - k,
    {
        if !check_operand(&os[k], decls) {
            assert(!operand_wf(os@[k as int], decls@));
            return false;
        }
        k += 1;
    }
    true
}

fn check_tuple_items(items: &Vec<TupleItem>, decls: &Vec<Decl>) -> (b: bool)
    ensures
        b == forall|j: int| 0 <= j < items@.len() ==> tuple_item_wf(#[trigger] items@[j], decls@),
{
    let mut k: usize = 0;
    while k < items.len()
        invariant
            k <= items@.len(),
            forall|j: int| 0 <= j < k ==> tuple_item_wf(#[trigger] items@[j], decls@),
        decreases items@.len() - k,
    {
        let ok = match &items[k] {
            TupleItem::WordItem(i, o) => *i < decls.len() && decls[*i].ty == VarTy::Word
                && check_operand(o, decls),
            TupleItem::FlagItem(i, c) => *i < decls.len() && decls[*i].ty == VarTy::Flag
                && check_flag_operand(c, decls),
        };
        if !ok {
            assert(!tuple_item_wf(items@[k as int], decls@));
            return false;
        }
        k += 1;
    }
    true
}

fn check_stmt(s: &Stmt, decls: &Vec<Decl>) -> (b: bool)
    ensures
        b == stmt_wf(*s, decls@),
    decreases *s,
{
    match s {
        Stmt::Assign(t, e) => check_target(t, decls) && check_word_expr(e, decls),
        Stmt::FlagAssign(i, c) => *i < decls.len() && decls[*i].ty == VarTy::Flag
            && check_flag_operand(c, decls),
        Stmt::ArrFill(a, o, n) => *a < decls.len() && decls[*a].ty == VarTy::Arr(*n)
            && check_operand(o, decls),
        Stmt::ArrList(a, os) => *a < decls.len() && decls[*a].ty == VarTy::Arr(os.len())
            && check_operands(os, decls),
        Stmt::CarryAssign(f, t, ce) => *f < decls.len() && decls[*f].ty == VarTy::Flag
            && check_target(t, decls) && check_carry_expr(ce, decls),
        Stmt::MulAssign(t1, t2, x, y) => check_target(t1, decls) && check_target(t2, decls)
            && check_operand(x, decls) && check_operand(y, decls),
        Stmt::TupleAssign(items) => 2 <= items.len() && items.len() <= 5 && check_tuple_items(
            items,
            decls,
        ),
        Stmt::Load(t, mr) => check_target(t, decls) && check_memref(mr, decls),
        Stmt::Store(mr, o) => check_memref(mr, decls) && check_operand(o, decls),
        Stmt::CMove(c, _neg, t, e) => *c < decls.len() && decls[*c].ty == VarTy::Flag
            && check_target(t, decls) && check_word_expr(e, decls),
        Stmt::For(v, lo, hi, body) => *v < decls.len() && decls[*v].ty == VarTy::Word
            && check_operand(lo, decls) && check_operand(hi, decls) && check_stmts(body, decls),
        Stmt::DoWhile(body, c, _neg) => check_stmts(body, decls) && *c < decls.len() && decls[*c].ty
            == VarTy::Flag,
        Stmt::IfElse(c, tb, eb) => check_flag_operand(c, decls) && check_stmts(tb, decls)
            && check_stmts(eb, decls),
        Stmt::Host(_) => true,
        Stmt::Eval(e) => check_word_expr(e, decls),
    }
}

fn check_stmts(ss: &Vec<Stmt>, decls: &Vec<Decl>) -> (b: bool)
    ensures
        b == stmts_wf(ss@, decls@),
    decreases ss@,
{
    let mut k: usize = 0;
    while k < ss.len()
        invariant
            k <= ss@.len(),
            forall|j: int| 0 <= j < k ==> stmt_wf(#[trigger] ss@[j], decls@),
        decreases ss@.len() - k,
    {
        if !check_stmt(&ss[k], decls) {
            return false;
        }
        k += 1;
    }
    true
}

/// The syntax-directed translator: one static pass that checks every
/// statement of the program against the recognized grammar forms, in
/// source order. A program whose statements all match is accepted
/// unchanged; a program with any statement that matches no form is
/// rejected whole, before any action executes, naming the first offending
/// statement.
pub fn translate(decls: Vec<Decl>, stmts: Vec<Stmt>) -> (r: Result<Program, SyntaxError>)
    ensures
        match r {
            Ok(p) => {
                &&& p.decls@ == decls@
                &&& p.stmts@ == stmts@
                &&& p.wf()
            },
            Err(e) => {
                &&& e.stmt < stmts@.len()
                &&& !stmt_wf(stmts@[e.stmt as int], decls@)
                &&& forall|j: int| 0 <= j < e.stmt ==> stmt_wf(#[trigger] stmts@[j], decls@)
            },
        },
{
    let mut k: usize = 0;
    while k < stmts.len()
        invariant
            k <= stmts@.len(),
            forall|j: int| 0 <= j < k ==> stmt_wf(#[trigger] stmts@[j], decls@),
        decreases stmts@.len() - k,
    {
        if !check_stmt(&stmts[k], &decls) {
            return Err(SyntaxError { stmt: k });
        }
        k += 1;
    }
    Ok(Program { decls, stmts })
}

} // verus!
