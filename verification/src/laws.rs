//! Laws of the compiler and evaluator, stated and proved once and for all
//! inputs: literal round-trips, sharing of field trees, conditional
//! selection, determinism of evaluation, and rejection of unknown symbols.
use vstd::prelude::*;

use crate::compile::{spec_lookup, spec_number, CompileError};
use crate::instr::{
    bool_value, num_fits, num_value, BoolInstr, ConstInstruction, EvalError, NumInstr,
    SampleContext,
};
use crate::num::{
    all_digits, lemma_digits_val_bound, lemma_pow10_18, lemma_pow10_mono, spec_literal_micros,
    zeros,
};
use crate::text::{find_char, lemma_find_char};

verus! {

use std::sync::Arc;

/// A literal denotes fewer than `pow10(18)` fixed-point units either way.
pub proof fn lemma_literal_in_range(text: Seq<char>)
    requires
        spec_literal_micros(text) is Some,
    ensures
        -1_000_000_000_000_000_000 < spec_literal_micros(text)->0 < 1_000_000_000_000_000_000,
{
    let neg = text.len() > 0 && text[0] == '-';
    let t = if neg {
        text.drop_first()
    } else {
        text
    };
    lemma_pow10_18();
    match find_char(t, '.') {
        None => {
            let ds = t + zeros(6);
            assert(all_digits(ds)) by {
                assert(forall|i: int|
                    0 <= i < ds.len() ==> #[trigger] ds[i] == (if i < t.len() {
                        t[i]
                    } else {
                        '0'
                    }));
            }
            lemma_digits_val_bound(ds);
            lemma_pow10_mono(ds.len() as nat, 18);
        },
        Some(k) => {
            lemma_find_char(t, '.');
            let ip = t.take(k);
            let fp = t.skip(k + 1);
            let ds = ip + fp + zeros((6 - fp.len()) as nat);
            assert(all_digits(ds)) by {
                assert(forall|i: int|
                    0 <= i < ds.len() ==> #[trigger] ds[i] == (if i < ip.len() {
                        ip[i]
                    } else if i < ip.len() + fp.len() {
                        fp[i - ip.len()]
                    } else {
                        '0'
                    }));
            }
            lemma_digits_val_bound(ds);
            lemma_pow10_mono(ds.len() as nat, 18);
        },
    }
}

/// Round trip of a literal: a formula text that is a numeric literal
/// compiles, fits in every context, and evaluates in every context to
/// exactly the units the literal denotes — whatever fields are declared.
pub proof fn lemma_literal_round_trip(
    text: Seq<char>,
    fields: Seq<(Seq<char>, NumInstr)>,
    ctx: SampleContext,
)
    requires
        spec_literal_micros(text) is Some,
    ensures
        spec_number(text, fields) matches Ok(e) && num_fits(e, ctx) && num_value(e, ctx)
            == spec_literal_micros(text)->0,
{
    lemma_literal_in_range(text);
}

/// Sharing of a declared field: a formula that is exactly the name of a
/// bound field compiles to the very tree bound to that name — the shared
/// sub-tree, not a recompilation.
pub proof fn lemma_field_sharing(text: Seq<char>, fields: Seq<(Seq<char>, NumInstr)>)
    requires
        spec_literal_micros(text) is None,
        spec_lookup(fields, text) is Some,
    ensures
        spec_number(text, fields) == Ok::<NumInstr, CompileError>(spec_lookup(fields, text)->0),
{
}

/// Two formulas that name the same field observe identical outputs in
/// every context, since both are the one shared tree.
pub proof fn lemma_shared_field_same_output(
    t1: Seq<char>,
    t2: Seq<char>,
    fields: Seq<(Seq<char>, NumInstr)>,
    ctx: SampleContext,
)
    requires
        spec_literal_micros(t1) is None,
        spec_literal_micros(t2) is None,
        spec_lookup(fields, t1) is Some,
        spec_lookup(fields, t1) == spec_lookup(fields, t2),
    ensures
        spec_number(t1, fields) == spec_number(t2, fields),
        num_value(spec_number(t1, fields)->Ok_0, ctx) == num_value(
            spec_number(t2, fields)->Ok_0,
            ctx,
        ),
{
}

/// A conditional selects exactly the branch its condition names: the value
/// of `If(c, a, b)` is the value of `a` when `c` holds and of `b` when it
/// does not, for arbitrary number trees `a` and `b`.
pub proof fn lemma_conditional_selects(
    cond: BoolInstr,
    a: NumInstr,
    b: NumInstr,
    ctx: SampleContext,
)
    ensures
        bool_value(cond, ctx) ==> num_value(
            NumInstr::If(Arc::new(cond), Arc::new(a), Arc::new(b)),
            ctx,
        ) == num_value(a, ctx),
        !bool_value(cond, ctx) ==> num_value(
            NumInstr::If(Arc::new(cond), Arc::new(a), Arc::new(b)),
            ctx,
        ) == num_value(b, ctx),
{
}

/// A conditional over a literal comparison: with constants `x < y` the
/// conditional is `a` in every respect — value and fitting alike — and
/// with `x >= y` it is `b`, for arbitrary number trees `a` and `b`.
pub proof fn lemma_if_less_consts(x: i64, y: i64, a: NumInstr, b: NumInstr, ctx: SampleContext)
    ensures
        ({
            let e = NumInstr::If(
                Arc::new(
                    BoolInstr::Less(
                        Arc::new(NumInstr::Const(ConstInstruction { val: x })),
                        Arc::new(NumInstr::Const(ConstInstruction { val: y })),
                    ),
                ),
                Arc::new(a),
                Arc::new(b),
            );
            &&& x < y ==> num_value(e, ctx) == num_value(a, ctx) && (num_fits(e, ctx) <==> num_fits(
                a,
                ctx,
            ))
            &&& x >= y ==> num_value(e, ctx) == num_value(b, ctx) && (num_fits(e, ctx)
                <==> num_fits(b, ctx))
        }),
{
    let c = BoolInstr::Less(
        Arc::new(NumInstr::Const(ConstInstruction { val: x })),
        Arc::new(NumInstr::Const(ConstInstruction { val: y })),
    );
    let e = NumInstr::If(Arc::new(c), Arc::new(a), Arc::new(b));
    assert(bool_value(c, ctx) == (x < y));
    assert(crate::instr::bool_fits(c, ctx));
    assert(num_value(e, ctx) == if x < y {
        num_value(a, ctx)
    } else {
        num_value(b, ctx)
    });
    assert(num_fits(e, ctx) == if x < y {
        num_fits(a, ctx)
    } else {
        num_fits(b, ctx)
    });
}

/// What the number evaluator's contract admits as a result for a tree and
/// a context: success exactly when every step fits, with the exact value.
pub open spec fn eval_outcome(e: NumInstr, ctx: SampleContext, r: Result<i64, EvalError>) -> bool {
    &&& r is Ok <==> num_fits(e, ctx)
    &&& r matches Ok(v) ==> v == num_value(e, ctx)
}

/// Determinism: the evaluator's contract pins its result down completely,
/// so two evaluations of one tree against one context return equal
/// results — there is no hidden state to differ on.
pub proof fn lemma_eval_deterministic(
    e: NumInstr,
    ctx: SampleContext,
    r1: Result<i64, EvalError>,
    r2: Result<i64, EvalError>,
)
    requires
        eval_outcome(e, ctx, r1),
        eval_outcome(e, ctx, r2),
    ensures
        r1 == r2,
{
    if num_fits(e, ctx) {
        assert(r1 == Ok::<i64, EvalError>(num_value(e, ctx) as i64));
        assert(r2 == Ok::<i64, EvalError>(num_value(e, ctx) as i64));
    } else {
        assert(r1->Err_0 == EvalError::Overflow);
        assert(r2->Err_0 == EvalError::Overflow);
    }
}

/// An unknown bare symbol — no literal, no declared field, no context
/// accessor — fails with the unresolved-symbol error, never a default.
pub proof fn lemma_unknown_symbol_fails(text: Seq<char>, fields: Seq<(Seq<char>, NumInstr)>)
    requires
        spec_literal_micros(text) is None,
        spec_lookup(fields, text) is None,
        find_char(text, '(') is None,
        text != "Depth"@,
        text != "Moisture"@,
        text != "Temperature"@,
        text != "Density"@,
    ensures
        spec_number(text, fields) == Err::<NumInstr, CompileError>(CompileError::UnresolvedSymbol),
{
}

} // verus!
