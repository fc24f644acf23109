//! Biome profiles: the compiled artifact of one configuration document.
//!
//! A `BiomeDocument` is the plain-value content of one document: the
//! sampler declarations in order and the three top-level formula texts.
//! `BiomeProfile::from_document` compiles it — building the field bindings
//! in declaration order, each formula seeing only the fields declared
//! before it — into three shared instruction trees, exactly as
//! `spec_compile_document` states.
use vstd::prelude::*;

use crate::compile::{
    build_f32_instruction, build_voxel_shape_instruction, build_voxel_type_instruction,
    fields_view, spec_number, spec_voxel_shape, spec_voxel_type, CompileError, FieldBinding,
    VoxelTypeTable,
};
use crate::instr::{
    num_fits, num_value, shape_fits, shape_value, type_fits, type_value, EvalError, NumInstr,
    SampleContext, ShapeInstr, SimplexInstruction, TypeInstr, VoxelData,
};
use crate::text::chars_of;

verus! {

use std::sync::Arc;

/// What one sampler field declares: a noise sampler with its wavelength and
/// amplitude (fixed-point units), or a formula over earlier fields.
pub enum SamplerKind {
    Simplex { wavelength: i64, amplitude: i64 },
    Formula(String),
}

/// One entry of a document's sampler list.
pub struct SamplerDecl {
    pub name: String,
    pub kind: SamplerKind,
}

/// The plain-value content of one biome configuration document.
pub struct BiomeDocument {
    pub samplers: Vec<SamplerDecl>,
    pub density: String,
    pub voxel_type: String,
    pub voxel_shape: String,
}

/// The tree one sampler declaration compiles to, against the fields
/// declared before it.
pub open spec fn spec_sampler_tree(decl: SamplerDecl, fields: Seq<(Seq<char>, NumInstr)>) -> Result<
    NumInstr,
    CompileError,
> {
    match decl.kind {
        SamplerKind::Simplex { wavelength, amplitude } => Ok(
            NumInstr::Simplex(SimplexInstruction { wavelength, amplitude }),
        ),
        SamplerKind::Formula(f) => spec_number(f@, fields),
    }
}

/// The field table that a sampler list builds, in declaration order; the
/// first declaration that fails to compile fails the whole table.
pub open spec fn spec_build_fields(samplers: Seq<SamplerDecl>) -> Result<
    Seq<(Seq<char>, NumInstr)>,
    CompileError,
>
    decreases samplers.len(),
{
    if samplers.len() == 0 {
        Ok(Seq::empty())
    } else {
        match spec_build_fields(samplers.drop_last()) {
            Err(e) => Err(e),
            Ok(fs) => match spec_sampler_tree(samplers.last(), fs) {
                Err(e) => Err(e),
                Ok(t) => Ok(fs.push((samplers.last().name@, t))),
            },
        }
    }
}

/// A failure while building a prefix of the field table is the failure of
/// the whole table.
pub proof fn lemma_build_fields_prefix_err(samplers: Seq<SamplerDecl>, k: int)
    requires
        0 <= k <= samplers.len(),
        spec_build_fields(samplers.take(k)) is Err,
    ensures
        spec_build_fields(samplers) == spec_build_fields(samplers.take(k)),
    decreases samplers.len(),
{
    if k < samplers.len() {
        assert(samplers.drop_last().take(k) =~= samplers.take(k));
        lemma_build_fields_prefix_err(samplers.drop_last(), k);
    } else {
        assert(samplers.take(k) =~= samplers);
    }
}

/// The three trees a document compiles to: density, voxel type, and shape.
pub open spec fn spec_compile_document(doc: BiomeDocument, voxels: Seq<(String, u16)>) -> Result<
    (NumInstr, TypeInstr, ShapeInstr),
    CompileError,
> {
    match spec_build_fields(doc.samplers@) {
        Err(e) => Err(e),
        Ok(fs) => match spec_number(doc.density@, fs) {
            Err(e) => Err(e),
            Ok(d) => match spec_voxel_type(doc.voxel_type@, fs, voxels) {
                Err(e) => Err(e),
                Ok(t) => match spec_voxel_shape(doc.voxel_shape@, fs) {
                    Err(e) => Err(e),
                    Ok(s) => Ok((d, t, s)),
                },
            },
        },
    }
}

/// The compiled artifact of one document: three shared instruction trees,
/// immutable after construction.
#[derive(Debug)]
pub struct BiomeProfile {
    pub density_formula: Arc<NumInstr>,
    pub id_formula: Arc<TypeInstr>,
    pub shape_formula: Arc<ShapeInstr>,
}

/// Whether a profile is the compiled form of some well-formed document:
/// its three trees are exactly what `spec_compile_document` yields for
/// that document against the given voxel table.
pub open spec fn compiled_from_some_document(p: BiomeProfile, voxels: Seq<(String, u16)>) -> bool {
    exists|doc: BiomeDocument|
        #[trigger] spec_compile_document(doc, voxels) == Ok::<
            (NumInstr, TypeInstr, ShapeInstr),
            CompileError,
        >((*p.density_formula, *p.id_formula, *p.shape_formula))
}

impl BiomeProfile {
    /// Compiles a document against a voxel-type table: precisely the three
    /// trees of `spec_compile_document`, or its error.
    pub fn from_document(doc: &BiomeDocument, voxels: &VoxelTypeTable) -> (r: Result<
        BiomeProfile,
        CompileError,
    >)
        ensures
            match r {
                Ok(p) => spec_compile_document(*doc, voxels.entries@) == Ok::<
                    (NumInstr, TypeInstr, ShapeInstr),
                    CompileError,
                >((*p.density_formula, *p.id_formula, *p.shape_formula)),
                Err(e) => spec_compile_document(*doc, voxels.entries@) == Err::<
                    (NumInstr, TypeInstr, ShapeInstr),
                    CompileError,
                >(e),
            },
    {
        let mut fields: Vec<FieldBinding> = Vec::new();
        let mut i: usize = 0;
        proof {
            assert(doc.samplers@.take(0) =~= Seq::<SamplerDecl>::empty());
            assert(fields_view(fields@) =~= Seq::<(Seq<char>, NumInstr)>::empty());
        }
        while i < doc.samplers.len()
            invariant
                i <= doc.samplers@.len(),
                spec_build_fields(doc.samplers@.take(i as int)) == Ok::<
                    Seq<(Seq<char>, NumInstr)>,
                    CompileError,
                >(fields_view(fields@)),
            decreases doc.samplers@.len() - i,
        {
            let ghost old_fields = fields@;
            proof {
                assert(doc.samplers@.take(i + 1).drop_last() =~= doc.samplers@.take(i as int));
                assert(doc.samplers@.take(i + 1).last() == doc.samplers@[i as int]);
            }
            let decl = &doc.samplers[i];
            let tree: Arc<NumInstr> = match &decl.kind {
                SamplerKind::Simplex { wavelength, amplitude } => Arc::new(
                    NumInstr::Simplex(
                        SimplexInstruction { wavelength: *wavelength, amplitude: *amplitude },
                    ),
                ),
                SamplerKind::Formula(f) => {
                    let formula = chars_of(f.as_str());
                    match build_f32_instruction(formula.as_slice(), &fields) {
                        Ok(t) => t,
                        Err(e) => {
                            proof {
                                lemma_build_fields_prefix_err(doc.samplers@, i + 1);
                            }
                            return Err(e);
                        },
                    }
                },
            };
            let name = chars_of(decl.name.as_str());
            fields.push(FieldBinding { name, tree });
            proof {
                assert(fields_view(fields@) =~= fields_view(old_fields).push(
                    (doc.samplers@[i as int].name@, *tree),
                ));
            }
            i = i + 1;
        }
        proof {
            assert(doc.samplers@.take(doc.samplers@.len() as int) =~= doc.samplers@);
        }
        let density_text = chars_of(doc.density.as_str());
        let density_formula = match build_f32_instruction(density_text.as_slice(), &fields) {
            Ok(t) => t,
            Err(e) => {
                return Err(e);
            },
        };
        let type_text = chars_of(doc.voxel_type.as_str());
        let id_formula = match build_voxel_type_instruction(type_text.as_slice(), &fields, voxels) {
            Ok(t) => t,
            Err(e) => {
                return Err(e);
            },
        };
        let shape_text = chars_of(doc.voxel_shape.as_str());
        let shape_formula = match build_voxel_shape_instruction(shape_text.as_slice(), &fields) {
            Ok(t) => t,
            Err(e) => {
                return Err(e);
            },
        };
        Ok(BiomeProfile { density_formula, id_formula, shape_formula })
    }

    /// Evaluates the density tree: its exact fixed-point value whenever
    /// every step fits in `i64`, and an overflow error otherwise.
    pub fn sample_density(&self, context: &SampleContext) -> (r: Result<i64, EvalError>)
        ensures
            r is Ok <==> num_fits(*self.density_formula, *context),
            r matches Ok(v) ==> v == num_value(*self.density_formula, *context),
    {
        self.density_formula.process(context)
    }

    /// Evaluates the voxel-type and shape trees and packages them with the
    /// fixed default state of zero.
    pub fn sample_voxel(&self, context: &SampleContext) -> (r: Result<VoxelData, EvalError>)
        ensures
            r is Ok <==> type_fits(*self.id_formula, *context) && shape_fits(
                *self.shape_formula,
                *context,
            ),
            r matches Ok(v) ==> v == (VoxelData {
                shape: shape_value(*self.shape_formula, *context),
                state: 0,
                id: type_value(*self.id_formula, *context),
            }),
    {
        let id = self.id_formula.process(context)?;
        let shape = self.shape_formula.process(context)?;
        Ok(VoxelData { shape, state: 0, id })
    }
}

} // verus!
