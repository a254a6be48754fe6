use jasmin::lang::{translate, CarryExpr, Decl, FlagOperand, MemRef, Operand, Program, Stmt,
    Storage, Target, VarTy, WordExpr};
use jasmin::run::{run_program, Machine, RunResult};
use jasmin::sem::RunError;
use jasmin::lang::TupleItem;

fn reg(ty: VarTy) -> Decl {
    Decl { storage: Storage::Reg, ty }
}

fn stack(ty: VarTy) -> Decl {
    Decl { storage: Storage::Stack, ty }
}

fn build(decls: Vec<Decl>, stmts: Vec<Stmt>) -> Program {
    match translate(decls, stmts) {
        Ok(p) => p,
        Err(e) => panic!("program rejected at statement {}", e.stmt),
    }
}

#[test]
fn test_syntax() {
    // slots: 0 x, 1 y, 2 cf, 3 _cf, 4 arr1, 5 arr2, 6 i, 7 t
    let x: usize = 0;
    let y: usize = 1;
    let cf: usize = 2;
    let cf2: usize = 3;
    let arr1: usize = 4;
    let arr2: usize = 5;
    let iv: usize = 6;
    let t: usize = 7;
    let decls = vec![
        stack(VarTy::Word),
        reg(VarTy::Word),
        reg(VarTy::Flag),
        reg(VarTy::Flag),
        reg(VarTy::Arr(10)),
        reg(VarTy::Arr(10)),
        reg(VarTy::Word),
        reg(VarTy::Word),
    ];
    let first_body = vec![
        Stmt::ArrFill(arr1, Operand::Lit(0), 10),
        Stmt::ArrList(
            arr2,
            vec![
                Operand::Lit(0),
                Operand::Lit(1),
                Operand::Lit(2),
                Operand::Lit(3),
                Operand::Lit(4),
                Operand::Lit(5),
                Operand::Lit(6),
                Operand::Lit(7),
                Operand::Lit(8),
                Operand::Lit(9),
            ],
        ),
        Stmt::Assign(Target::Word(x), WordExpr::Val(Operand::Lit(16))),
        Stmt::Store(MemRef { base: Operand::Var(x), off: Operand::Lit(0) }, Operand::Var(x)),
        Stmt::Assign(Target::Word(y), WordExpr::Val(Operand::Lit(0))),
        Stmt::Assign(Target::Elem(arr1, Operand::Var(y)), WordExpr::Val(Operand::Lit(1))),
        Stmt::Assign(Target::Word(y), WordExpr::Get(arr1, Operand::Var(y))),
        Stmt::For(
            iv,
            Operand::Lit(0),
            Operand::Lit(4),
            vec![
                Stmt::Assign(Target::Word(t), WordExpr::Shl(Operand::Var(iv), 3)),
                Stmt::Store(
                    MemRef { base: Operand::Var(x), off: Operand::Var(t) },
                    Operand::Var(x),
                ),
            ],
        ),
        Stmt::For(
            iv,
            Operand::Lit(0),
            Operand::Lit(4),
            vec![
                Stmt::Assign(Target::Word(t), WordExpr::Shl(Operand::Var(iv), 3)),
                Stmt::Load(
                    Target::Word(x),
                    MemRef { base: Operand::Var(x), off: Operand::Var(t) },
                ),
            ],
        ),
        Stmt::Load(Target::Word(x), MemRef { base: Operand::Var(x), off: Operand::Lit(0) }),
        // host-only escapes, in place of the id_array / clear_array calls
        Stmt::Host(1),
        Stmt::Host(2),
        Stmt::FlagAssign(cf, FlagOperand::Lit(false)),
        Stmt::Assign(Target::Elem(arr1, Operand::Lit(0)), WordExpr::Val(Operand::Lit(0))),
        Stmt::Assign(Target::Word(y), WordExpr::Val(Operand::Var(x))),
        Stmt::FlagAssign(cf, FlagOperand::Var(cf)),
        Stmt::CarryAssign(
            cf,
            Target::Word(x),
            CarryExpr::AdcC(Operand::Var(x), Operand::Var(y), FlagOperand::Var(cf)),
        ),
        Stmt::CMove(
            cf,
            false,
            Target::Word(x),
            WordExpr::AdcV(Operand::Var(x), Operand::Var(y), FlagOperand::Var(cf)),
        ),
        Stmt::CMove(
            cf,
            true,
            Target::Word(x),
            WordExpr::AdcV(Operand::Var(x), Operand::Var(y), FlagOperand::Lit(false)),
        ),
        Stmt::CarryAssign(
            cf2,
            Target::Word(x),
            CarryExpr::AdcC(Operand::Var(x), Operand::Var(y), FlagOperand::Var(cf)),
        ),
        Stmt::CarryAssign(
            cf,
            Target::Word(x),
            CarryExpr::AddC(Operand::Var(x), Operand::Lit(0)),
        ),
        Stmt::CarryAssign(
            cf,
            Target::Word(y),
            CarryExpr::AdcC(Operand::Var(x), Operand::Var(y), FlagOperand::Var(cf)),
        ),
        Stmt::TupleAssign(vec![
            TupleItem::WordItem(x, Operand::Var(x)),
            TupleItem::WordItem(y, Operand::Var(y)),
            TupleItem::FlagItem(cf, FlagOperand::Var(cf)),
            TupleItem::FlagItem(cf2, FlagOperand::Var(cf2)),
        ]),
        Stmt::FlagAssign(cf2, FlagOperand::Var(cf)),
        Stmt::FlagAssign(cf, FlagOperand::Lit(false)),
    ];
    let second_body = vec![
        Stmt::CarryAssign(
            cf,
            Target::Word(x),
            CarryExpr::AddC(Operand::Var(x), Operand::Var(y)),
        ),
        Stmt::CarryAssign(
            cf2,
            Target::Word(x),
            CarryExpr::AdcC(Operand::Var(x), Operand::Var(y), FlagOperand::Var(cf)),
        ),
        Stmt::CarryAssign(
            cf,
            Target::Word(x),
            CarryExpr::AddC(Operand::Var(x), Operand::Var(y)),
        ),
        Stmt::CarryAssign(
            cf2,
            Target::Word(y),
            CarryExpr::AdcC(Operand::Var(x), Operand::Var(y), FlagOperand::Var(cf)),
        ),
        Stmt::FlagAssign(cf, FlagOperand::Lit(true)),
    ];
    let stmts = vec![
        Stmt::DoWhile(first_body, cf, false),
        Stmt::DoWhile(second_body, cf, true),
    ];
    let p = build(decls, stmts);
    let mut m = Machine::new(&p.decls);
    let r = run_program(&p, &mut m, 1000);
    assert_eq!(r, RunResult::Done);
    let xv = m.read_word(x).unwrap();
    let yv = m.read_word(y).unwrap();
    let cfv = m.read_flag(cf).unwrap();
    println!("x: {}, y: {}, cf: {}", xv, yv, cfv);
    assert_eq!(xv, 304);
    assert_eq!(yv, 384);
    assert_eq!(cfv, true);
    // the host escapes ran once each, in source order
    assert_eq!(m.events, vec![1, 2]);
}

#[test]
fn test_mem() {
    // slots: 0 x, 1 p, 2 i, 3 t
    let x: usize = 0;
    let pv: usize = 1;
    let iv: usize = 2;
    let t: usize = 3;
    let decls = vec![stack(VarTy::Word), stack(VarTy::Word), reg(VarTy::Word), reg(VarTy::Word)];
    println!("starting test");
    let stmts = vec![
        Stmt::Assign(Target::Word(pv), WordExpr::Val(Operand::Lit(8))),
        Stmt::For(
            iv,
            Operand::Lit(0),
            Operand::Lit(64),
            vec![
                Stmt::Assign(Target::Word(x), WordExpr::Val(Operand::Var(iv))),
                Stmt::Assign(Target::Word(t), WordExpr::Shl(Operand::Var(iv), 3)),
                Stmt::Store(
                    MemRef { base: Operand::Var(pv), off: Operand::Var(t) },
                    Operand::Var(x),
                ),
                Stmt::Host(1),
            ],
        ),
        Stmt::For(
            iv,
            Operand::Lit(0),
            Operand::Lit(64),
            vec![
                Stmt::Assign(Target::Word(t), WordExpr::Shl(Operand::Var(iv), 3)),
                Stmt::Load(
                    Target::Word(x),
                    MemRef { base: Operand::Var(pv), off: Operand::Var(t) },
                ),
                Stmt::Host(2),
            ],
        ),
    ];
    let p = build(decls, stmts);
    let mut m = Machine::new(&p.decls);
    let r = run_program(&p, &mut m, 1000);
    assert_eq!(r, RunResult::Done);
    for i in 0..64u64 {
        let loaded = m.mem.try_load_mem(8, (i * 8) as usize);
        println!("reading {:?} with i={}: ", loaded, i);
        assert_eq!(loaded, Some(jasmin::word::jv(i)));
    }
    // the last read left the final index in x
    assert_eq!(m.read_word(x), Some(63));
    assert_eq!(m.events.len(), 128);
}

#[test]
fn for_loop_runs_ascending() {
    // x = x * 10 + i over i in (0..4) distinguishes every visit order
    let x: usize = 0;
    let t: usize = 1;
    let iv: usize = 2;
    let decls = vec![reg(VarTy::Word), reg(VarTy::Word), reg(VarTy::Word)];
    let stmts = vec![Stmt::For(
        iv,
        Operand::Lit(0),
        Operand::Lit(4),
        vec![
            Stmt::Assign(Target::Word(t), WordExpr::MulLow(Operand::Var(x), Operand::Lit(10))),
            Stmt::Assign(Target::Word(x), WordExpr::AddV(Operand::Var(t), Operand::Var(iv))),
        ],
    )];
    let p = build(decls, stmts);
    let mut m = Machine::new(&p.decls);
    assert_eq!(run_program(&p, &mut m, 100), RunResult::Done);
    assert_eq!(m.read_word(x), Some(123));
}

#[test]
fn for_loop_empty_range_runs_never() {
    let x: usize = 0;
    let iv: usize = 1;
    let decls = vec![reg(VarTy::Word), reg(VarTy::Word)];
    let stmts = vec![Stmt::For(
        iv,
        Operand::Lit(4),
        Operand::Lit(4),
        vec![Stmt::Assign(Target::Word(x), WordExpr::AddV(Operand::Var(x), Operand::Lit(1)))],
    )];
    let p = build(decls, stmts);
    let mut m = Machine::new(&p.decls);
    assert_eq!(run_program(&p, &mut m, 100), RunResult::Done);
    assert_eq!(m.read_word(x), Some(0));
}

#[test]
fn dowhile_runs_body_at_least_once() {
    let x: usize = 0;
    let cf: usize = 1;
    // guard already false: the body still runs once
    let decls = vec![reg(VarTy::Word), reg(VarTy::Flag)];
    let stmts = vec![Stmt::DoWhile(
        vec![Stmt::Assign(Target::Word(x), WordExpr::AddV(Operand::Var(x), Operand::Lit(1)))],
        cf,
        false,
    )];
    let p = build(decls, stmts);
    let mut m = Machine::new(&p.decls);
    assert_eq!(run_program(&p, &mut m, 100), RunResult::Done);
    assert_eq!(m.read_word(x), Some(1));

    // negated guard that stops after the first pass: the body still runs once
    let decls2 = vec![reg(VarTy::Word), reg(VarTy::Flag)];
    let stmts2 = vec![Stmt::DoWhile(
        vec![
            Stmt::Assign(Target::Word(x), WordExpr::AddV(Operand::Var(x), Operand::Lit(1))),
            Stmt::FlagAssign(cf, FlagOperand::Lit(true)),
        ],
        cf,
        true,
    )];
    let p2 = build(decls2, stmts2);
    let mut m2 = Machine::new(&p2.decls);
    assert_eq!(run_program(&p2, &mut m2, 100), RunResult::Done);
    assert_eq!(m2.read_word(x), Some(1));
}

#[test]
fn dowhile_repeats_until_guard_clears() {
    // x counts down from 3; the guard holds while x != 0, via sub's borrow trick:
    // cf = (x < 1) is false until x reaches 0
    let x: usize = 0;
    let cf: usize = 1;
    let decls = vec![reg(VarTy::Word), reg(VarTy::Flag)];
    let stmts = vec![
        Stmt::Assign(Target::Word(x), WordExpr::Val(Operand::Lit(3))),
        Stmt::DoWhile(
            vec![Stmt::CarryAssign(
                cf,
                Target::Word(x),
                CarryExpr::SubC(Operand::Var(x), Operand::Lit(1)),
            )],
            cf,
            true,
        ),
    ];
    let p = build(decls, stmts);
    let mut m = Machine::new(&p.decls);
    assert_eq!(run_program(&p, &mut m, 100), RunResult::Done);
    // 3 -> 2 -> 1 -> 0 -> borrow: the loop left x wrapped around
    assert_eq!(m.read_word(x), Some(u64::MAX));
    assert_eq!(m.read_flag(cf), Some(true));
}

#[test]
fn array_update_keeps_other_elements() {
    let arr: usize = 0;
    let decls = vec![reg(VarTy::Arr(10))];
    let stmts = vec![
        Stmt::ArrList(
            arr,
            vec![
                Operand::Lit(0),
                Operand::Lit(1),
                Operand::Lit(2),
                Operand::Lit(3),
                Operand::Lit(4),
                Operand::Lit(5),
                Operand::Lit(6),
                Operand::Lit(7),
                Operand::Lit(8),
                Operand::Lit(9),
            ],
        ),
        Stmt::Assign(Target::Elem(arr, Operand::Lit(1)), WordExpr::Val(Operand::Lit(100))),
    ];
    let p = build(decls, stmts);
    let mut m = Machine::new(&p.decls);
    assert_eq!(run_program(&p, &mut m, 100), RunResult::Done);
    assert_eq!(m.read_arr_elem(arr, 1), Some(100));
    assert_eq!(m.read_arr_elem(arr, 0), Some(0));
    assert_eq!(m.read_arr_elem(arr, 9), Some(9));
}

#[test]
fn conditional_move_scalar_and_indexed() {
    let x: usize = 0;
    let cf: usize = 1;
    let arr: usize = 2;
    let decls = vec![reg(VarTy::Word), reg(VarTy::Flag), reg(VarTy::Arr(2))];
    let stmts = vec![
        Stmt::FlagAssign(cf, FlagOperand::Lit(true)),
        Stmt::CMove(cf, false, Target::Word(x), WordExpr::Val(Operand::Lit(5))),
        // negated guard on a true flag: no update
        Stmt::CMove(cf, true, Target::Word(x), WordExpr::Val(Operand::Lit(9))),
        Stmt::CMove(cf, false, Target::Elem(arr, Operand::Lit(1)), WordExpr::Val(Operand::Lit(7))),
    ];
    let p = build(decls, stmts);
    let mut m = Machine::new(&p.decls);
    assert_eq!(run_program(&p, &mut m, 100), RunResult::Done);
    assert_eq!(m.read_word(x), Some(5));
    assert_eq!(m.read_arr_elem(arr, 1), Some(7));
    assert_eq!(m.read_arr_elem(arr, 0), Some(0));
}

#[test]
fn if_else_branches() {
    let x: usize = 0;
    let decls = vec![reg(VarTy::Word)];
    let stmts = vec![Stmt::IfElse(
        FlagOperand::Lit(false),
        vec![Stmt::Assign(Target::Word(x), WordExpr::Val(Operand::Lit(1)))],
        vec![Stmt::Assign(Target::Word(x), WordExpr::Val(Operand::Lit(2)))],
    )];
    let p = build(decls, stmts);
    let mut m = Machine::new(&p.decls);
    assert_eq!(run_program(&p, &mut m, 100), RunResult::Done);
    assert_eq!(m.read_word(x), Some(2));
}

#[test]
fn translation_rejects_malformed_memory_expression() {
    // a literal base in MEM[..] matches no recognized form
    let x: usize = 0;
    let decls = vec![reg(VarTy::Word)];
    let stmts = vec![
        Stmt::Assign(Target::Word(x), WordExpr::Val(Operand::Lit(1))),
        Stmt::Load(Target::Word(x), MemRef { base: Operand::Lit(8), off: Operand::Lit(0) }),
    ];
    let r = translate(decls, stmts);
    match r {
        Err(e) => assert_eq!(e.stmt, 1),
        Ok(_) => panic!("malformed program accepted"),
    }
}

#[test]
fn translation_rejects_bad_tuple_and_shift_and_kinds() {
    let x: usize = 0;
    let cf: usize = 1;
    // a 1-element tuple assignment
    let decls = vec![reg(VarTy::Word), reg(VarTy::Flag)];
    let stmts = vec![Stmt::TupleAssign(vec![TupleItem::WordItem(x, Operand::Lit(1))])];
    assert!(translate(decls, stmts).is_err());
    // a shift amount at the word width
    let decls = vec![reg(VarTy::Word), reg(VarTy::Flag)];
    let stmts = vec![Stmt::Assign(Target::Word(x), WordExpr::Shl(Operand::Var(x), 64))];
    assert!(translate(decls, stmts).is_err());
    // a flag variable in a word operand position
    let decls = vec![reg(VarTy::Word), reg(VarTy::Flag)];
    let stmts = vec![Stmt::Assign(Target::Word(x), WordExpr::Val(Operand::Var(cf)))];
    assert!(translate(decls, stmts).is_err());
    // an array list of the wrong length
    let decls = vec![reg(VarTy::Arr(3)), reg(VarTy::Flag)];
    let stmts = vec![Stmt::ArrList(0, vec![Operand::Lit(1), Operand::Lit(2)])];
    assert!(translate(decls, stmts).is_err());
    // an undeclared slot
    let decls = vec![reg(VarTy::Word), reg(VarTy::Flag)];
    let stmts = vec![Stmt::Assign(Target::Word(9), WordExpr::Val(Operand::Lit(0)))];
    assert!(translate(decls, stmts).is_err());
}

#[test]
fn run_fails_on_index_out_of_bounds() {
    let arr: usize = 0;
    let decls = vec![reg(VarTy::Arr(2))];
    let stmts = vec![Stmt::Assign(
        Target::Elem(arr, Operand::Lit(5)),
        WordExpr::Val(Operand::Lit(1)),
    )];
    let p = build(decls, stmts);
    let mut m = Machine::new(&p.decls);
    assert_eq!(run_program(&p, &mut m, 100), RunResult::Fail(RunError::IndexOutOfBounds));
}

#[test]
fn run_fails_on_uninitialized_memory_read() {
    let x: usize = 0;
    let decls = vec![reg(VarTy::Word)];
    let stmts = vec![
        Stmt::Assign(Target::Word(x), WordExpr::Val(Operand::Lit(8))),
        Stmt::Load(Target::Word(x), MemRef { base: Operand::Var(x), off: Operand::Lit(0) }),
    ];
    let p = build(decls, stmts);
    let mut m = Machine::new(&p.decls);
    assert_eq!(
        run_program(&p, &mut m, 100),
        RunResult::Fail(RunError::UninitializedMemoryAccess)
    );
}

#[test]
fn run_fails_on_misaligned_and_overflowing_addresses() {
    let x: usize = 0;
    let decls = vec![reg(VarTy::Word)];
    let stmts = vec![
        Stmt::Assign(Target::Word(x), WordExpr::Val(Operand::Lit(3))),
        Stmt::Store(MemRef { base: Operand::Var(x), off: Operand::Lit(0) }, Operand::Var(x)),
    ];
    let p = build(decls, stmts);
    let mut m = Machine::new(&p.decls);
    assert_eq!(run_program(&p, &mut m, 100), RunResult::Fail(RunError::MisalignedAccess));

    let decls = vec![reg(VarTy::Word)];
    let stmts = vec![
        Stmt::Assign(Target::Word(x), WordExpr::Val(Operand::Lit(u64::MAX))),
        Stmt::Store(MemRef { base: Operand::Var(x), off: Operand::Lit(9) }, Operand::Var(x)),
    ];
    let p = build(decls, stmts);
    let mut m = Machine::new(&p.decls);
    assert_eq!(run_program(&p, &mut m, 100), RunResult::Fail(RunError::AddressOverflow));
}

#[test]
fn run_reports_exhausted_step_budget() {
    let cf: usize = 0;
    // do { cf = #true } while cf; never clears its guard
    let decls = vec![reg(VarTy::Flag)];
    let stmts = vec![Stmt::DoWhile(
        vec![Stmt::FlagAssign(cf, FlagOperand::Lit(true))],
        cf,
        false,
    )];
    let p = build(decls, stmts);
    let mut m = Machine::new(&p.decls);
    assert_eq!(run_program(&p, &mut m, 5), RunResult::OutOfFuel);
}

#[test]
fn tuple_assignment_reads_before_writing() {
    // (x, y) = (y, x) swaps
    let x: usize = 0;
    let y: usize = 1;
    let decls = vec![reg(VarTy::Word), reg(VarTy::Word)];
    let stmts = vec![
        Stmt::Assign(Target::Word(x), WordExpr::Val(Operand::Lit(1))),
        Stmt::Assign(Target::Word(y), WordExpr::Val(Operand::Lit(2))),
        Stmt::TupleAssign(vec![
            TupleItem::WordItem(x, Operand::Var(y)),
            TupleItem::WordItem(y, Operand::Var(x)),
        ]),
    ];
    let p = build(decls, stmts);
    let mut m = Machine::new(&p.decls);
    assert_eq!(run_program(&p, &mut m, 100), RunResult::Done);
    assert_eq!(m.read_word(x), Some(2));
    assert_eq!(m.read_word(y), Some(1));
}

#[test]
fn mul_assignment_binds_high_then_low() {
    let hi: usize = 0;
    let lo: usize = 1;
    let decls = vec![reg(VarTy::Word), reg(VarTy::Word)];
    let two32: u64 = 1 << 32;
    let stmts = vec![Stmt::MulAssign(
        Target::Word(hi),
        Target::Word(lo),
        Operand::Lit(two32),
        Operand::Lit(two32),
    )];
    let p = build(decls, stmts);
    let mut m = Machine::new(&p.decls);
    assert_eq!(run_program(&p, &mut m, 100), RunResult::Done);
    assert_eq!(m.read_word(hi), Some(1));
    assert_eq!(m.read_word(lo), Some(0));
}
