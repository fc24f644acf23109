//! The document boundary: reading a biome configuration out of its JSON
//! text.
//!
//! Parsing and the accessors on the parsed value tree are serde_json's
//! work, reached through the trusted items below; their results are opaque
//! here, so the functions of this module promise little of their own and
//! hand a plain `BiomeDocument` to `BiomeProfile::from_document`, whose
//! contract is exact.
use vstd::prelude::*;

use crate::compile::{CompileError, VoxelTypeTable};
use crate::instr::{NumInstr, ShapeInstr, TypeInstr};
use crate::num::parse_literal;
use crate::profile::{
    compiled_from_some_document, spec_compile_document, BiomeDocument, BiomeProfile, SamplerDecl,
    SamplerKind,
};
use crate::text::{chars_of, str_eq};

verus! {

#[verifier::external_type_specification]
#[verifier::external_body]
pub struct ExJsonValue(serde_json::Value);

#[verifier::external_type_specification]
#[verifier::external_body]
pub struct ExJsonError(serde_json::Error);

/// Relies on serde_json::from_str to parse a document's text; the value
/// tree it returns is opaque here and read only through the accessors
/// below.
#[verifier::external_body]
fn parse_json(data: &str) -> Result<serde_json::Value, serde_json::Error> {
    serde_json::from_str(data)
}

/// Relies on serde_json::Value::get to fetch an object's field by key.
#[verifier::external_body]
fn json_get<'a>(v: &'a serde_json::Value, key: &str) -> Option<&'a serde_json::Value> {
    v.get(key)
}

/// Relies on serde_json::Value::as_str to read a string value.
#[verifier::external_body]
fn json_as_str<'a>(v: &'a serde_json::Value) -> Option<&'a str> {
    v.as_str()
}

/// Relies on serde_json::Value::as_array to read an array value.
#[verifier::external_body]
fn json_as_array<'a>(v: &'a serde_json::Value) -> Option<&'a Vec<serde_json::Value>> {
    v.as_array()
}

/// Relies on the display form of serde_json::Number: the decimal text of a
/// numeric value, which the library's own verified literal reader then
/// turns into fixed-point units.
#[verifier::external_body]
fn json_number_text(v: &serde_json::Value) -> Option<String> {
    match v {
        serde_json::Value::Number(n) => Some(format!("{}", n)),
        _ => None,
    }
}

/// Reads the string under `key`, or reports the missing key.
fn string_key(v: &serde_json::Value, key: &str) -> Result<String, CompileError> {
    match json_get(v, key) {
        None => Err(CompileError::MissingKey),
        Some(field) => match json_as_str(field) {
            None => Err(CompileError::MissingKey),
            Some(s) => Ok(s.to_owned()),
        },
    }
}

/// Reads the number under `key` as fixed-point units, via its decimal
/// text; a number beyond the fixed-point range is rejected.
fn number_key(v: &serde_json::Value, key: &str) -> Result<i64, CompileError> {
    match json_get(v, key) {
        None => Err(CompileError::MissingKey),
        Some(field) => match json_number_text(field) {
            None => Err(CompileError::MissingKey),
            Some(text) => {
                let digits = chars_of(text.as_str());
                match parse_literal(digits.as_slice()) {
                    Some(units) => Ok(units),
                    None => Err(CompileError::InvalidNumber),
                }
            },
        },
    }
}

/// Reads one sampler declaration out of its array entry.
fn sampler_from_json(field: &serde_json::Value) -> Result<SamplerDecl, CompileError> {
    let name = string_key(field, "Name")?;
    let field_type = string_key(field, "Type")?;
    if str_eq(field_type.as_str(), "Simplex") {
        let wavelength = number_key(field, "Wavelength")?;
        let amplitude = number_key(field, "Amplitude")?;
        Ok(SamplerDecl { name, kind: SamplerKind::Simplex { wavelength, amplitude } })
    } else if str_eq(field_type.as_str(), "Formula") {
        let formula = string_key(field, "Formula")?;
        Ok(SamplerDecl { name, kind: SamplerKind::Formula(formula) })
    } else {
        Err(CompileError::UnknownFieldType)
    }
}

/// Extracts the plain document out of a JSON text.
fn document_from_json(data: &str) -> Result<BiomeDocument, CompileError> {
    let json = match parse_json(data) {
        Ok(v) => v,
        Err(_) => {
            return Err(CompileError::MalformedJson);
        },
    };
    let samplers_value = match json_get(&json, "Samplers") {
        Some(v) => v,
        None => {
            return Err(CompileError::MissingKey);
        },
    };
    let entries = match json_as_array(samplers_value) {
        Some(a) => a,
        None => {
            return Err(CompileError::MissingKey);
        },
    };
    let mut samplers: Vec<SamplerDecl> = Vec::new();
    let mut i: usize = 0;
    while i < entries.len()
        invariant
            i <= entries@.len(),
        decreases entries@.len() - i,
    {
        let decl = sampler_from_json(&entries[i])?;
        samplers.push(decl);
        i = i + 1;
    }
    let density = string_key(&json, "Voxel Density")?;
    let voxel_type = string_key(&json, "Voxel Type")?;
    let voxel_shape = string_key(&json, "Voxel Shape")?;
    Ok(BiomeDocument { samplers, density, voxel_type, voxel_shape })
}

impl BiomeProfile {
    /// Parses one configuration document and compiles it.
    ///
    /// The JSON reading is serde_json's, behind trusted accessors whose
    /// results are opaque, so all this contract can pin down is that a
    /// profile handed back compiles some well-formed document; the exact
    /// statement lives on `from_document`, which does the compiling.
    pub fn from_json(data: String, voxels: &VoxelTypeTable) -> (r: Result<
        BiomeProfile,
        CompileError,
    >)
        ensures
            r matches Ok(p) ==> compiled_from_some_document(p, voxels.entries@),
    {
        let doc = match document_from_json(data.as_str()) {
            Ok(d) => d,
            Err(e) => {
                return Err(e);
            },
        };
        let r = Self::from_document(&doc, voxels);
        proof {
            if r is Ok {
                let p = r->Ok_0;
                assert(spec_compile_document(doc, voxels.entries@) == Ok::<
                    (NumInstr, TypeInstr, ShapeInstr),
                    CompileError,
                >((*p.density_formula, *p.id_formula, *p.shape_formula)));
                assert(compiled_from_some_document(p, voxels.entries@));
            }
        }
        r
    }
}

} // verus!
