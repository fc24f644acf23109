//! Instruction trees and their evaluation.
//!
//! A compiled formula is a tree of instructions, one closed enum per result
//! type: numbers (`NumInstr`), booleans (`BoolInstr`), voxel-type ids
//! (`TypeInstr`) and voxel shapes (`ShapeInstr`).  Sub-trees are shared
//! through `Arc`, so a field compiled once may appear in many parents
//! without being copied.  Evaluation is a pure function of the tree and a
//! `SampleContext`; the only failure is numeric overflow, reported as an
//! `EvalError` rather than a wrapped result.
use vstd::prelude::*;

verus! {

use std::sync::Arc;

/// A 3D integer sample position.
#[derive(Clone, Copy, Debug, PartialEq, Eq, Structural)]
pub struct Position {
    pub x: i32,
    pub y: i32,
    pub z: i32,
}

/// The immutable per-sample inputs a tree is evaluated against.
///
/// All scalar signals are fixed-point units (see `num::SCALE`).  `noise`
/// is the noise sample at `position`: the noise primitive is an external
/// collaborator, so its value enters evaluation through the context, and
/// every noise leaf of a tree reads this one value — a deterministic
/// function of the position alone.
#[derive(Clone, Copy, Debug, PartialEq, Eq, Structural)]
pub struct SampleContext {
    pub position: Position,
    pub depth: i64,
    pub moisture: i64,
    pub temperature: i64,
    pub density: i64,
    pub noise: i64,
}

/// One of the fixed set of voxel shapes.
#[derive(Clone, Copy, Debug, PartialEq, Eq, Structural)]
pub enum VoxelShape {
    Cube,
    Slab,
}

/// The packaged result of sampling the voxel-type and shape trees.
#[derive(Clone, Copy, Debug, PartialEq, Eq, Structural)]
pub struct VoxelData {
    pub shape: VoxelShape,
    pub state: u16,
    pub id: u16,
}

/// Evaluation failed: an addition or subtraction left the `i64` range.
#[derive(Clone, Copy, Debug, PartialEq, Eq, Structural)]
pub enum EvalError {
    Overflow,
}

/// A constant of the tree's result type.
#[derive(Debug)]
pub struct ConstInstruction<T> {
    pub val: T,
}

/// Reads the depth signal of the context.
#[derive(Debug)]
pub struct DepthInstruction {}

/// Reads the moisture signal of the context.
#[derive(Debug)]
pub struct MoistureInstruction {}

/// Reads the temperature signal of the context.
#[derive(Debug)]
pub struct TemperatureInstruction {}

/// Reads the ambient-density signal of the context.
#[derive(Debug)]
pub struct DensityInstruction {}

/// A noise-sampler leaf.  Wavelength and amplitude are kept from the
/// declaration but not read by evaluation, which uses the context's noise
/// sample for the raw position.
#[derive(Debug)]
pub struct SimplexInstruction {
    pub wavelength: i64,
    pub amplitude: i64,
}

/// A number-typed instruction.
#[derive(Debug)]
pub enum NumInstr {
    Const(ConstInstruction<i64>),
    Add(Arc<NumInstr>, Arc<NumInstr>),
    Subtract(Arc<NumInstr>, Arc<NumInstr>),
    If(Arc<BoolInstr>, Arc<NumInstr>, Arc<NumInstr>),
    Simplex(SimplexInstruction),
    Depth(DepthInstruction),
    Moisture(MoistureInstruction),
    Temperature(TemperatureInstruction),
    Density(DensityInstruction),
}

/// A boolean-typed instruction.
#[derive(Debug)]
pub enum BoolInstr {
    Less(Arc<NumInstr>, Arc<NumInstr>),
}

/// A voxel-type-id-typed instruction.
#[derive(Debug)]
pub enum TypeInstr {
    Const(ConstInstruction<u16>),
    If(Arc<BoolInstr>, Arc<TypeInstr>, Arc<TypeInstr>),
}

/// A voxel-shape-typed instruction.
#[derive(Debug)]
pub enum ShapeInstr {
    Const(ConstInstruction<VoxelShape>),
    If(Arc<BoolInstr>, Arc<ShapeInstr>, Arc<ShapeInstr>),
}

/// The mathematical value of a number tree: exact integer arithmetic on
/// fixed-point units, with no overflow.
pub open spec fn num_value(e: NumInstr, ctx: SampleContext) -> int
    decreases e,
{
    match e {
        NumInstr::Const(c) => c.val as int,
        NumInstr::Add(a, b) => num_value(*a, ctx) + num_value(*b, ctx),
        NumInstr::Subtract(a, b) => num_value(*a, ctx) - num_value(*b, ctx),
        NumInstr::If(c, t, f) => if bool_value(*c, ctx) {
            num_value(*t, ctx)
        } else {
            num_value(*f, ctx)
        },
        NumInstr::Simplex(_) => ctx.noise as int,
        NumInstr::Depth(_) => ctx.depth as int,
        NumInstr::Moisture(_) => ctx.moisture as int,
        NumInstr::Temperature(_) => ctx.temperature as int,
        NumInstr::Density(_) => ctx.density as int,
    }
}

pub open spec fn bool_value(e: BoolInstr, ctx: SampleContext) -> bool
    decreases e,
{
    match e {
        BoolInstr::Less(a, b) => num_value(*a, ctx) < num_value(*b, ctx),
    }
}

/// Whether evaluating a number tree stays inside `i64` at every step it
/// actually takes; a conditional only evaluates the branch it selects.
pub open spec fn num_fits(e: NumInstr, ctx: SampleContext) -> bool
    decreases e,
{
    match e {
        NumInstr::Const(_) => true,
        NumInstr::Add(a, b) => num_fits(*a, ctx) && num_fits(*b, ctx) && i64::MIN <= num_value(
            *a,
            ctx,
        ) + num_value(*b, ctx) <= i64::MAX,
        NumInstr::Subtract(a, b) => num_fits(*a, ctx) && num_fits(*b, ctx) && i64::MIN
            <= num_value(*a, ctx) - num_value(*b, ctx) <= i64::MAX,
        NumInstr::If(c, t, f) => bool_fits(*c, ctx) && (if bool_value(*c, ctx) {
            num_fits(*t, ctx)
        } else {
            num_fits(*f, ctx)
        }),
        NumInstr::Simplex(_) => true,
        NumInstr::Depth(_) => true,
        NumInstr::Moisture(_) => true,
        NumInstr::Temperature(_) => true,
        NumInstr::Density(_) => true,
    }
}

pub open spec fn bool_fits(e: BoolInstr, ctx: SampleContext) -> bool
    decreases e,
{
    match e {
        BoolInstr::Less(a, b) => num_fits(*a, ctx) && num_fits(*b, ctx),
    }
}

pub open spec fn type_value(e: TypeInstr, ctx: SampleContext) -> u16
    decreases e,
{
    match e {
        TypeInstr::Const(c) => c.val,
        TypeInstr::If(c, t, f) => if bool_value(*c, ctx) {
            type_value(*t, ctx)
        } else {
            type_value(*f, ctx)
        },
    }
}

pub open spec fn type_fits(e: TypeInstr, ctx: SampleContext) -> bool
    decreases e,
{
    match e {
        TypeInstr::Const(_) => true,
        TypeInstr::If(c, t, f) => bool_fits(*c, ctx) && (if bool_value(*c, ctx) {
            type_fits(*t, ctx)
        } else {
            type_fits(*f, ctx)
        }),
    }
}

pub open spec fn shape_value(e: ShapeInstr, ctx: SampleContext) -> VoxelShape
    decreases e,
{
    match e {
        ShapeInstr::Const(c) => c.val,
        ShapeInstr::If(c, t, f) => if bool_value(*c, ctx) {
            shape_value(*t, ctx)
        } else {
            shape_value(*f, ctx)
        },
    }
}

pub open spec fn shape_fits(e: ShapeInstr, ctx: SampleContext) -> bool
    decreases e,
{
    match e {
        ShapeInstr::Const(_) => true,
        ShapeInstr::If(c, t, f) => bool_fits(*c, ctx) && (if bool_value(*c, ctx) {
            shape_fits(*t, ctx)
        } else {
            shape_fits(*f, ctx)
        }),
    }
}

impl<T: Copy> ConstInstruction<T> {
    /// A constant evaluates to its stored value.
    pub fn process(&self, context: &SampleContext) -> (r: T)
        ensures
            r == self.val,
    {
        self.val
    }
}

impl DepthInstruction {
    pub fn process(&self, context: &SampleContext) -> (r: i64)
        ensures
            r == context.depth,
    {
        context.depth
    }
}

impl MoistureInstruction {
    pub fn process(&self, context: &SampleContext) -> (r: i64)
        ensures
            r == context.moisture,
    {
        context.moisture
    }
}

impl TemperatureInstruction {
    pub fn process(&self, context: &SampleContext) -> (r: i64)
        ensures
            r == context.temperature,
    {
        context.temperature
    }
}

impl DensityInstruction {
    pub fn process(&self, context: &SampleContext) -> (r: i64)
        ensures
            r == context.density,
    {
        context.density
    }
}

impl SimplexInstruction {
    /// The noise sample depends on the position alone; wavelength and
    /// amplitude are not read.
    pub fn process(&self, context: &SampleContext) -> (r: i64)
        ensures
            r == context.noise,
    {
        context.noise
    }
}

impl NumInstr {
    /// Evaluates the tree against `context`: exactly `num_value` when every
    /// step fits in `i64`, and an overflow error otherwise.
    pub fn process(&self, context: &SampleContext) -> (r: Result<i64, EvalError>)
        ensures
            r is Ok <==> num_fits(*self, *context),
            r matches Ok(v) ==> v == num_value(*self, *context),
        decreases self,
    {
        match self {
            NumInstr::Const(c) => Ok(c.process(context)),
            NumInstr::Add(a, b) => {
                let x = a.process(context)?;
                let y = b.process(context)?;
                match x.checked_add(y) {
                    Some(s) => Ok(s),
                    None => Err(EvalError::Overflow),
                }
            },
            NumInstr::Subtract(a, b) => {
                let x = a.process(context)?;
                let y = b.process(context)?;
                match x.checked_sub(y) {
                    Some(s) => Ok(s),
                    None => Err(EvalError::Overflow),
                }
            },
            NumInstr::If(c, t, f) => {
                if c.process(context)? {
                    t.process(context)
                } else {
                    f.process(context)
                }
            },
            NumInstr::Simplex(s) => Ok(s.process(context)),
            NumInstr::Depth(d) => Ok(d.process(context)),
            NumInstr::Moisture(m) => Ok(m.process(context)),
            NumInstr::Temperature(t) => Ok(t.process(context)),
            NumInstr::Density(d) => Ok(d.process(context)),
        }
    }
}

impl BoolInstr {
    /// Evaluates the comparison against `context`.
    pub fn process(&self, context: &SampleContext) -> (r: Result<bool, EvalError>)
        ensures
            r is Ok <==> bool_fits(*self, *context),
            r matches Ok(v) ==> v == bool_value(*self, *context),
        decreases self,
    {
        match self {
            BoolInstr::Less(a, b) => {
                let x = a.process(context)?;
                let y = b.process(context)?;
                Ok(x < y)
            },
        }
    }
}

impl TypeInstr {
    /// Evaluates the voxel-type tree against `context`.
    pub fn process(&self, context: &SampleContext) -> (r: Result<u16, EvalError>)
        ensures
            r is Ok <==> type_fits(*self, *context),
            r matches Ok(v) ==> v == type_value(*self, *context),
        decreases self,
    {
        match self {
            TypeInstr::Const(c) => Ok(c.process(context)),
            TypeInstr::If(c, t, f) => {
                if c.process(context)? {
                    t.process(context)
                } else {
                    f.process(context)
                }
            },
        }
    }
}

impl ShapeInstr {
    /// Evaluates the shape tree against `context`.
    pub fn process(&self, context: &SampleContext) -> (r: Result<VoxelShape, EvalError>)
        ensures
            r is Ok <==> shape_fits(*self, *context),
            r matches Ok(v) ==> v == shape_value(*self, *context),
        decreases self,
    {
        match self {
            ShapeInstr::Const(c) => Ok(c.process(context)),
            ShapeInstr::If(c, t, f) => {
                if c.process(context)? {
                    t.process(context)
                } else {
                    f.process(context)
                }
            },
        }
    }
}

} // verus!
