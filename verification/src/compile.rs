//! The formula compiler: four mutually recursive builders, one per result
//! type, that parse formula text into instruction trees.
//!
//! Each builder has a specification mirror (`spec_number`, `spec_bool`,
//! `spec_voxel_type`, `spec_voxel_shape`) that states exactly which tree, or
//! which error, a formula text yields against a given field table and voxel
//! table; the executable builders are proved to return precisely that.
use vstd::prelude::*;

use crate::instr::{
    BoolInstr, ConstInstruction, DensityInstruction, DepthInstruction, MoistureInstruction,
    NumInstr, ShapeInstr, TemperatureInstruction, TypeInstr, VoxelShape,
};
use crate::num::{parse_literal, spec_literal_micros};
use crate::split::{get_instruction_params, lemma_params_shorter, seq_views, spec_params};
use crate::text::{chars_eq, find_char, find_char_index, lemma_find_char, slice_eq_str};

verus! {

use std::sync::Arc;

/// Why compiling a document or formula failed.
#[derive(Clone, Copy, Debug, PartialEq, Eq, Structural)]
pub enum CompileError {
    /// A bare identifier is neither a context accessor nor a declared field.
    UnresolvedSymbol,
    /// A call name is not recognized for the result type being built.
    UnsupportedInstruction,
    /// A recognized call has fewer arguments than it needs.
    MissingArgument,
    /// A voxel name is not in the voxel-type table.
    UnknownVoxel,
    /// A shape name is not one of the fixed shape constants.
    UnknownShape,
    /// A sampler declares a type other than Simplex or Formula.
    UnknownFieldType,
    /// A number in the document cannot be held as fixed-point units.
    InvalidNumber,
    /// The document lacks a required key or gives it the wrong kind of value.
    MissingKey,
    /// The document is not valid JSON at all.
    MalformedJson,
}

/// A named, already-compiled, number-typed tree available to later formulas.
pub struct FieldBinding {
    pub name: Vec<char>,
    pub tree: Arc<NumInstr>,
}

/// The specification view of a field table: names with their trees, in
/// declaration order.
pub open spec fn fields_view(fields: Seq<FieldBinding>) -> Seq<(Seq<char>, NumInstr)> {
    fields.map_values(|b: FieldBinding| (b.name@, *b.tree))
}

/// The tree bound to `name`, taking the latest binding when a name repeats.
pub open spec fn spec_lookup(fields: Seq<(Seq<char>, NumInstr)>, name: Seq<char>) -> Option<
    NumInstr,
>
    decreases fields.len(),
{
    if fields.len() == 0 {
        None
    } else if fields.last().0 == name {
        Some(fields.last().1)
    } else {
        spec_lookup(fields.drop_last(), name)
    }
}

/// Looks `name` up in the field table, sharing the bound tree.
fn lookup_field(fields: &Vec<FieldBinding>, name: &[char]) -> (r: Option<Arc<NumInstr>>)
    ensures
        match r {
            Some(t) => spec_lookup(fields_view(fields@), name@) == Some(*t),
            None => spec_lookup(fields_view(fields@), name@) is None,
        },
{
    let ghost fv = fields_view(fields@);
    let mut i: usize = fields.len();
    proof {
        assert(fv.take(fields@.len() as int) =~= fv);
    }
    while i > 0
        invariant
            i <= fields@.len(),
            fv == fields_view(fields@),
            spec_lookup(fv, name@) == spec_lookup(fv.take(i as int), name@),
        decreases i,
    {
        i = i - 1;
        proof {
            assert(fv[i as int] == (fields@[i as int].name@, *fields@[i as int].tree));
            assert(fv.take(i + 1).last() == fv[i as int]);
            assert(fv.take(i + 1).drop_last() =~= fv.take(i as int));
        }
        if chars_eq(fields[i].name.as_slice(), name) {
            return Some(Arc::clone(&fields[i].tree));
        }
    }
    proof {
        assert(fv.take(0) =~= Seq::<(Seq<char>, NumInstr)>::empty());
    }
    None
}

/// The external voxel-type registry, modelled as a name-to-id table that
/// the caller fills before compiling.
pub struct VoxelTypeTable {
    pub entries: Vec<(String, u16)>,
}

/// The id registered for `name`, taking the latest entry when a name repeats.
pub open spec fn spec_voxel_lookup(entries: Seq<(String, u16)>, name: Seq<char>) -> Option<u16>
    decreases entries.len(),
{
    if entries.len() == 0 {
        None
    } else if entries.last().0@ == name {
        Some(entries.last().1)
    } else {
        spec_voxel_lookup(entries.drop_last(), name)
    }
}

impl VoxelTypeTable {
    pub fn new() -> (r: VoxelTypeTable)
        ensures
            r.entries@.len() == 0,
    {
        VoxelTypeTable { entries: Vec::new() }
    }

    pub fn insert(&mut self, name: String, id: u16)
        ensures
            final(self).entries@ == old(self).entries@.push((name, id)),
    {
        self.entries.push((name, id));
    }

    /// The id registered for a voxel name, if any.
    pub fn get_voxel_by_name(&self, name: &[char]) -> (r: Option<u16>)
        ensures
            r == spec_voxel_lookup(self.entries@, name@),
    {
        let mut i: usize = self.entries.len();
        proof {
            assert(self.entries@.take(self.entries@.len() as int) =~= self.entries@);
        }
        while i > 0
            invariant
                i <= self.entries@.len(),
                spec_voxel_lookup(self.entries@, name@) == spec_voxel_lookup(
                    self.entries@.take(i as int),
                    name@,
                ),
            decreases i,
        {
            i = i - 1;
            proof {
                assert(self.entries@.take(i + 1).last() == self.entries@[i as int]);
                assert(self.entries@.take(i + 1).drop_last() =~= self.entries@.take(i as int));
            }
            if slice_eq_str(name, self.entries[i].0.as_str()) {
                return Some(self.entries[i].1);
            }
        }
        proof {
            assert(self.entries@.take(0) =~= Seq::<(String, u16)>::empty());
        }
        None
    }
}

/// The number tree that `text` compiles to: a literal becomes a constant; a
/// declared field name becomes the shared tree bound to it; a bare accessor
/// name reads its context signal; `Add`, `Subtract` and `If` build on their
/// arguments; anything else is an error.
pub open spec fn spec_number(text: Seq<char>, fields: Seq<(Seq<char>, NumInstr)>) -> Result<
    NumInstr,
    CompileError,
>
    decreases text.len(),
    via spec_number_dec
{
    if spec_literal_micros(text) is Some {
        Ok(NumInstr::Const(ConstInstruction { val: spec_literal_micros(text)->0 as i64 }))
    } else if spec_lookup(fields, text) is Some {
        Ok(spec_lookup(fields, text)->0)
    } else if find_char(text, '(') is None {
        if text == "Depth"@ {
            Ok(NumInstr::Depth(DepthInstruction {  }))
        } else if text == "Moisture"@ {
            Ok(NumInstr::Moisture(MoistureInstruction {  }))
        } else if text == "Temperature"@ {
            Ok(NumInstr::Temperature(TemperatureInstruction {  }))
        } else if text == "Density"@ {
            Ok(NumInstr::Density(DensityInstruction {  }))
        } else {
            Err(CompileError::UnresolvedSymbol)
        }
    } else {
        let j = find_char(text, '(')->0;
        let name = text.take(j);
        let ps = spec_params(text.skip(j + 1));
        if name == "If"@ {
            if ps.len() < 3 {
                Err(CompileError::MissingArgument)
            } else {
                match spec_bool(ps[0], fields) {
                    Err(e) => Err(e),
                    Ok(c) => match spec_number(ps[1], fields) {
                        Err(e) => Err(e),
                        Ok(a) => match spec_number(ps[2], fields) {
                            Err(e) => Err(e),
                            Ok(b) => Ok(NumInstr::If(Arc::new(c), Arc::new(a), Arc::new(b))),
                        },
                    },
                }
            }
        } else if name == "Add"@ {
            if ps.len() < 2 {
                Err(CompileError::MissingArgument)
            } else {
                match spec_number(ps[0], fields) {
                    Err(e) => Err(e),
                    Ok(a) => match spec_number(ps[1], fields) {
                        Err(e) => Err(e),
                        Ok(b) => Ok(NumInstr::Add(Arc::new(a), Arc::new(b))),
                    },
                }
            }
        } else if name == "Subtract"@ {
            if ps.len() < 2 {
                Err(CompileError::MissingArgument)
            } else {
                match spec_number(ps[0], fields) {
                    Err(e) => Err(e),
                    Ok(a) => match spec_number(ps[1], fields) {
                        Err(e) => Err(e),
                        Ok(b) => Ok(NumInstr::Subtract(Arc::new(a), Arc::new(b))),
                    },
                }
            }
        } else {
            Err(CompileError::UnsupportedInstruction)
        }
    }
}

/// The boolean tree that `text` compiles to: only a `Less` call of two
/// number arguments is recognized.
pub open spec fn spec_bool(text: Seq<char>, fields: Seq<(Seq<char>, NumInstr)>) -> Result<
    BoolInstr,
    CompileError,
>
    decreases text.len(),
    via spec_bool_dec
{
    match find_char(text, '(') {
        None => Err(CompileError::UnsupportedInstruction),
        Some(j) => {
            let name = text.take(j);
            let ps = spec_params(text.skip(j + 1));
            if name == "Less"@ {
                if ps.len() < 2 {
                    Err(CompileError::MissingArgument)
                } else {
                    match spec_number(ps[0], fields) {
                        Err(e) => Err(e),
                        Ok(a) => match spec_number(ps[1], fields) {
                            Err(e) => Err(e),
                            Ok(b) => Ok(BoolInstr::Less(Arc::new(a), Arc::new(b))),
                        },
                    }
                }
            } else {
                Err(CompileError::UnsupportedInstruction)
            }
        },
    }
}

/// The voxel-type tree that `text` compiles to: a `Voxel` call resolves its
/// name through the voxel table at compile time; `If` branches; this builder
/// assumes a call form, so bare text is an error.
pub open spec fn spec_voxel_type(
    text: Seq<char>,
    fields: Seq<(Seq<char>, NumInstr)>,
    voxels: Seq<(String, u16)>,
) -> Result<TypeInstr, CompileError>
    decreases text.len(),
    via spec_voxel_type_dec
{
    match find_char(text, '(') {
        None => Err(CompileError::UnsupportedInstruction),
        Some(j) => {
            let name = text.take(j);
            let ps = spec_params(text.skip(j + 1));
            if name == "If"@ {
                if ps.len() < 3 {
                    Err(CompileError::MissingArgument)
                } else {
                    match spec_bool(ps[0], fields) {
                        Err(e) => Err(e),
                        Ok(c) => match spec_voxel_type(ps[1], fields, voxels) {
                            Err(e) => Err(e),
                            Ok(a) => match spec_voxel_type(ps[2], fields, voxels) {
                                Err(e) => Err(e),
                                Ok(b) => Ok(TypeInstr::If(Arc::new(c), Arc::new(a), Arc::new(b))),
                            },
                        },
                    }
                }
            } else if name == "Voxel"@ {
                if ps.len() < 1 {
                    Err(CompileError::MissingArgument)
                } else {
                    match spec_voxel_lookup(voxels, ps[0]) {
                        None => Err(CompileError::UnknownVoxel),
                        Some(id) => Ok(TypeInstr::Const(ConstInstruction { val: id })),
                    }
                }
            } else {
                Err(CompileError::UnsupportedInstruction)
            }
        },
    }
}

/// The shape tree that `text` compiles to: bare text must be one of the
/// fixed shape names; `If` is the only call.
pub open spec fn spec_voxel_shape(text: Seq<char>, fields: Seq<(Seq<char>, NumInstr)>) -> Result<
    ShapeInstr,
    CompileError,
>
    decreases text.len(),
    via spec_voxel_shape_dec
{
    match find_char(text, '(') {
        None => if text == "CUBE"@ {
            Ok(ShapeInstr::Const(ConstInstruction { val: VoxelShape::Cube }))
        } else if text == "SLAB"@ {
            Ok(ShapeInstr::Const(ConstInstruction { val: VoxelShape::Slab }))
        } else {
            Err(CompileError::UnknownShape)
        },
        Some(j) => {
            let name = text.take(j);
            let ps = spec_params(text.skip(j + 1));
            if name == "If"@ {
                if ps.len() < 3 {
                    Err(CompileError::MissingArgument)
                } else {
                    match spec_bool(ps[0], fields) {
                        Err(e) => Err(e),
                        Ok(c) => match spec_voxel_shape(ps[1], fields) {
                            Err(e) => Err(e),
                            Ok(a) => match spec_voxel_shape(ps[2], fields) {
                                Err(e) => Err(e),
                                Ok(b) => Ok(ShapeInstr::If(Arc::new(c), Arc::new(a), Arc::new(b))),
                            },
                        },
                    }
                }
            } else {
                Err(CompileError::UnsupportedInstruction)
            }
        },
    }
}

#[via_fn]
proof fn spec_number_dec(text: Seq<char>, fields: Seq<(Seq<char>, NumInstr)>) {
    params_are_shorter(text);
}

#[via_fn]
proof fn spec_bool_dec(text: Seq<char>, fields: Seq<(Seq<char>, NumInstr)>) {
    params_are_shorter(text);
}

#[via_fn]
proof fn spec_voxel_type_dec(
    text: Seq<char>,
    fields: Seq<(Seq<char>, NumInstr)>,
    voxels: Seq<(String, u16)>,
) {
    params_are_shorter(text);
}

#[via_fn]
proof fn spec_voxel_shape_dec(text: Seq<char>, fields: Seq<(Seq<char>, NumInstr)>) {
    params_are_shorter(text);
}

proof fn params_are_shorter(text: Seq<char>)
    ensures
        find_char(text, '(') matches Some(j) ==> {
            &&& 0 <= j < text.len()
            &&& forall|i: int|
                0 <= i < spec_params(text.skip(j + 1)).len() ==> #[trigger] spec_params(
                    text.skip(j + 1),
                )[i].len() < text.len()
        },
{
    lemma_find_char(text, '(');
    if find_char(text, '(') is Some {
        let j = find_char(text, '(')->0;
        lemma_params_shorter(text.skip(j + 1));
    }
}

/// Compiles a number-typed formula, against the fields declared so far.
///
/// Returns exactly the tree `spec_number` gives: a fixed-point constant for
/// a literal, the shared field tree for a field name, a context accessor
/// for a known bare name, and `Add` / `Subtract` / `If` calls compiled
/// recursively; an unknown bare name is an unresolved-symbol error and an
/// unknown call name an unsupported-instruction error.
pub fn build_f32_instruction(text: &[char], fields: &Vec<FieldBinding>) -> (r: Result<
    Arc<NumInstr>,
    CompileError,
>)
    ensures
        match r {
            Ok(t) => spec_number(text@, fields_view(fields@)) == Ok::<NumInstr, CompileError>(*t),
            Err(e) => spec_number(text@, fields_view(fields@)) == Err::<NumInstr, CompileError>(e),
        },
    decreases text@.len(),
{
    let ghost fv = fields_view(fields@);
    match parse_literal(text) {
        Some(v) => {
            return Ok(Arc::new(NumInstr::Const(ConstInstruction { val: v })));
        },
        None => {},
    }
    match lookup_field(fields, text) {
        Some(t) => {
            return Ok(t);
        },
        None => {},
    }
    match find_char_index(text, '(') {
        None => {
            if slice_eq_str(text, "Depth") {
                Ok(Arc::new(NumInstr::Depth(DepthInstruction {  })))
            } else if slice_eq_str(text, "Moisture") {
                Ok(Arc::new(NumInstr::Moisture(MoistureInstruction {  })))
            } else if slice_eq_str(text, "Temperature") {
                Ok(Arc::new(NumInstr::Temperature(TemperatureInstruction {  })))
            } else if slice_eq_str(text, "Density") {
                Ok(Arc::new(NumInstr::Density(DensityInstruction {  })))
            } else {
                Err(CompileError::UnresolvedSymbol)
            }
        },
        Some(j) => {
            proof {
                lemma_find_char(text@, '(');
            }
            let n: usize = text.len();
            let name = vstd::slice::slice_subrange(text, 0, j);
            let data = vstd::slice::slice_subrange(text, j + 1, n);
            proof {
                assert(name@ =~= text@.take(j as int));
                assert(data@ =~= text@.skip(j + 1));
            }
            let params = get_instruction_params(data);
            let ghost ps = spec_params(text@.skip(j + 1));
            proof {
                assert(seq_views(params@) == ps);
            }
            if slice_eq_str(name, "If") {
                if params.len() < 3 {
                    return Err(CompileError::MissingArgument);
                }
                proof {
                    assert(params@[0]@ == ps[0] && params@[1]@ == ps[1] && params@[2]@ == ps[2]);
                }
                let c = build_bool_instruction(params[0].as_slice(), fields)?;
                let a = build_f32_instruction(params[1].as_slice(), fields)?;
                let b = build_f32_instruction(params[2].as_slice(), fields)?;
                Ok(Arc::new(NumInstr::If(c, a, b)))
            } else if slice_eq_str(name, "Add") {
                if params.len() < 2 {
                    return Err(CompileError::MissingArgument);
                }
                proof {
                    assert(params@[0]@ == ps[0] && params@[1]@ == ps[1]);
                }
                let a = build_f32_instruction(params[0].as_slice(), fields)?;
                let b = build_f32_instruction(params[1].as_slice(), fields)?;
                Ok(Arc::new(NumInstr::Add(a, b)))
            } else if slice_eq_str(name, "Subtract") {
                if params.len() < 2 {
                    return Err(CompileError::MissingArgument);
                }
                proof {
                    assert(params@[0]@ == ps[0] && params@[1]@ == ps[1]);
                }
                let a = build_f32_instruction(params[0].as_slice(), fields)?;
                let b = build_f32_instruction(params[1].as_slice(), fields)?;
                Ok(Arc::new(NumInstr::Subtract(a, b)))
            } else {
                Err(CompileError::UnsupportedInstruction)
            }
        },
    }
}

/// Compiles a boolean-typed formula: only `Less` of two numbers.
pub fn build_bool_instruction(text: &[char], fields: &Vec<FieldBinding>) -> (r: Result<
    Arc<BoolInstr>,
    CompileError,
>)
    ensures
        match r {
            Ok(t) => spec_bool(text@, fields_view(fields@)) == Ok::<BoolInstr, CompileError>(*t),
            Err(e) => spec_bool(text@, fields_view(fields@)) == Err::<BoolInstr, CompileError>(e),
        },
    decreases text@.len(),
{
    match find_char_index(text, '(') {
        None => Err(CompileError::UnsupportedInstruction),
        Some(j) => {
            proof {
                lemma_find_char(text@, '(');
            }
            let n: usize = text.len();
            let name = vstd::slice::slice_subrange(text, 0, j);
            let data = vstd::slice::slice_subrange(text, j + 1, n);
            proof {
                assert(name@ =~= text@.take(j as int));
                assert(data@ =~= text@.skip(j + 1));
            }
            let params = get_instruction_params(data);
            let ghost ps = spec_params(text@.skip(j + 1));
            if slice_eq_str(name, "Less") {
                if params.len() < 2 {
                    return Err(CompileError::MissingArgument);
                }
                proof {
                    assert(params@[0]@ == ps[0] && params@[1]@ == ps[1]);
                }
                let a = build_f32_instruction(params[0].as_slice(), fields)?;
                let b = build_f32_instruction(params[1].as_slice(), fields)?;
                Ok(Arc::new(BoolInstr::Less(a, b)))
            } else {
                Err(CompileError::UnsupportedInstruction)
            }
        },
    }
}

/// Compiles a voxel-type formula: `Voxel` resolves a name through the table
/// at compile time, `If` branches, and bare text is rejected.
pub fn build_voxel_type_instruction(
    text: &[char],
    fields: &Vec<FieldBinding>,
    voxels: &VoxelTypeTable,
) -> (r: Result<Arc<TypeInstr>, CompileError>)
    ensures
        match r {
            Ok(t) => spec_voxel_type(text@, fields_view(fields@), voxels.entries@) == Ok::<
                TypeInstr,
                CompileError,
            >(*t),
            Err(e) => spec_voxel_type(text@, fields_view(fields@), voxels.entries@) == Err::<
                TypeInstr,
                CompileError,
            >(e),
        },
    decreases text@.len(),
{
    match find_char_index(text, '(') {
        None => Err(CompileError::UnsupportedInstruction),
        Some(j) => {
            proof {
                lemma_find_char(text@, '(');
            }
            let n: usize = text.len();
            let name = vstd::slice::slice_subrange(text, 0, j);
            let data = vstd::slice::slice_subrange(text, j + 1, n);
            proof {
                assert(name@ =~= text@.take(j as int));
                assert(data@ =~= text@.skip(j + 1));
            }
            let params = get_instruction_params(data);
            let ghost ps = spec_params(text@.skip(j + 1));
            if slice_eq_str(name, "If") {
                if params.len() < 3 {
                    return Err(CompileError::MissingArgument);
                }
                proof {
                    assert(params@[0]@ == ps[0] && params@[1]@ == ps[1] && params@[2]@ == ps[2]);
                }
                let c = build_bool_instruction(params[0].as_slice(), fields)?;
                let a = build_voxel_type_instruction(params[1].as_slice(), fields, voxels)?;
                let b = build_voxel_type_instruction(params[2].as_slice(), fields, voxels)?;
                Ok(Arc::new(TypeInstr::If(c, a, b)))
            } else if slice_eq_str(name, "Voxel") {
                if params.len() < 1 {
                    return Err(CompileError::MissingArgument);
                }
                proof {
                    assert(params@[0]@ == ps[0]);
                }
                match voxels.get_voxel_by_name(params[0].as_slice()) {
                    Some(id) => Ok(Arc::new(TypeInstr::Const(ConstInstruction { val: id }))),
                    None => Err(CompileError::UnknownVoxel),
                }
            } else {
                Err(CompileError::UnsupportedInstruction)
            }
        },
    }
}

/// Compiles a shape formula: bare text must be a fixed shape name, and `If`
/// is the only call.
pub fn build_voxel_shape_instruction(text: &[char], fields: &Vec<FieldBinding>) -> (r: Result<
    Arc<ShapeInstr>,
    CompileError,
>)
    ensures
        match r {
            Ok(t) => spec_voxel_shape(text@, fields_view(fields@)) == Ok::<
                ShapeInstr,
                CompileError,
            >(*t),
            Err(e) => spec_voxel_shape(text@, fields_view(fields@)) == Err::<
                ShapeInstr,
                CompileError,
            >(e),
        },
    decreases text@.len(),
{
    match find_char_index(text, '(') {
        None => {
            if slice_eq_str(text, "CUBE") {
                Ok(Arc::new(ShapeInstr::Const(ConstInstruction { val: VoxelShape::Cube })))
            } else if slice_eq_str(text, "SLAB") {
                Ok(Arc::new(ShapeInstr::Const(ConstInstruction { val: VoxelShape::Slab })))
            } else {
                Err(CompileError::UnknownShape)
            }
        },
        Some(j) => {
            proof {
                lemma_find_char(text@, '(');
            }
            let n: usize = text.len();
            let name = vstd::slice::slice_subrange(text, 0, j);
            let data = vstd::slice::slice_subrange(text, j + 1, n);
            proof {
                assert(name@ =~= text@.take(j as int));
                assert(data@ =~= text@.skip(j + 1));
            }
            let params = get_instruction_params(data);
            let ghost ps = spec_params(text@.skip(j + 1));
            if slice_eq_str(name, "If") {
                if params.len() < 3 {
                    return Err(CompileError::MissingArgument);
                }
                proof {
                    assert(params@[0]@ == ps[0] && params@[1]@ == ps[1] && params@[2]@ == ps[2]);
                }
                let c = build_bool_instruction(params[0].as_slice(), fields)?;
                let a = build_voxel_shape_instruction(params[1].as_slice(), fields)?;
                let b = build_voxel_shape_instruction(params[2].as_slice(), fields)?;
                Ok(Arc::new(ShapeInstr::If(c, a, b)))
            } else {
                Err(CompileError::UnsupportedInstruction)
            }
        },
    }
}

} // verus!
