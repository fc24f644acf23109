use biome_profile::compile::{CompileError, VoxelTypeTable};
use biome_profile::instr::{Position, SampleContext, VoxelData, VoxelShape};
use biome_profile::profile::{BiomeDocument, BiomeProfile, SamplerDecl, SamplerKind};
use biome_profile::registry::{get_biome_by_name, load_biomes};

fn ctx() -> SampleContext {
    SampleContext {
        position: Position { x: 10, y: -4, z: 2 },
        depth: 150_000,
        moisture: 300_000,
        temperature: 450_000,
        density: 600_000,
        noise: 750_000,
    }
}

fn stone_table() -> VoxelTypeTable {
    let mut voxels = VoxelTypeTable::new();
    voxels.insert("Stone".to_string(), 7);
    voxels
}

fn end_to_end_text() -> &'static str {
    "{ \"Samplers\": [], \
       \"Voxel Density\": \"Add(1,2)\", \
       \"Voxel Type\": \"Voxel(Stone)\", \
       \"Voxel Shape\": \"CUBE\" }"
}

#[test]
fn end_to_end_document() {
    let voxels = stone_table();
    let profile = BiomeProfile::from_json(end_to_end_text().to_string(), &voxels).unwrap();
    for c in [ctx(), SampleContext {
        position: Position { x: 0, y: 0, z: 0 },
        depth: 0,
        moisture: 0,
        temperature: 0,
        density: 0,
        noise: 0,
    }] {
        assert_eq!(profile.sample_density(&c).unwrap(), 3_000_000);
        assert_eq!(
            profile.sample_voxel(&c).unwrap(),
            VoxelData { shape: VoxelShape::Cube, state: 0, id: 7 }
        );
    }
}

#[test]
fn field_sharing_gives_identical_outputs() {
    let voxels = stone_table();
    let doc = BiomeDocument {
        samplers: vec![
            SamplerDecl {
                name: "Base".to_string(),
                kind: SamplerKind::Formula("Add(Depth,0.1)".to_string()),
            },
            SamplerDecl {
                name: "Twice".to_string(),
                kind: SamplerKind::Formula("Add(Base,Base)".to_string()),
            },
        ],
        density: "Subtract(Add(Base,Base),Twice)".to_string(),
        voxel_type: "Voxel(Stone)".to_string(),
        voxel_shape: "CUBE".to_string(),
    };
    let profile = BiomeProfile::from_document(&doc, &voxels).unwrap();
    assert_eq!(profile.sample_density(&ctx()).unwrap(), 0);
}

#[test]
fn sampler_fields_compile_in_order() {
    let voxels = stone_table();
    let doc = BiomeDocument {
        samplers: vec![SamplerDecl {
            name: "Late".to_string(),
            kind: SamplerKind::Formula("Early".to_string()),
        }],
        density: "0".to_string(),
        voxel_type: "Voxel(Stone)".to_string(),
        voxel_shape: "CUBE".to_string(),
    };
    let r = BiomeProfile::from_document(&doc, &voxels);
    assert_eq!(r.unwrap_err(), CompileError::UnresolvedSymbol);
}

#[test]
fn a_field_cannot_reference_itself() {
    let voxels = stone_table();
    let doc = BiomeDocument {
        samplers: vec![SamplerDecl {
            name: "Loop".to_string(),
            kind: SamplerKind::Formula("Loop".to_string()),
        }],
        density: "0".to_string(),
        voxel_type: "Voxel(Stone)".to_string(),
        voxel_shape: "CUBE".to_string(),
    };
    let r = BiomeProfile::from_document(&doc, &voxels);
    assert_eq!(r.unwrap_err(), CompileError::UnresolvedSymbol);
}

#[test]
fn simplex_sampler_reads_the_context_noise() {
    let voxels = stone_table();
    let text = "{ \"Samplers\": [ { \"Name\": \"Height\", \"Type\": \"Simplex\", \
                  \"Wavelength\": 0.5, \"Amplitude\": 2 } ], \
                  \"Voxel Density\": \"Height\", \
                  \"Voxel Type\": \"Voxel(Stone)\", \
                  \"Voxel Shape\": \"CUBE\" }";
    let profile = BiomeProfile::from_json(text.to_string(), &voxels).unwrap();
    assert_eq!(profile.sample_density(&ctx()).unwrap(), 750_000);
}

#[test]
fn malformed_json_is_reported() {
    let voxels = stone_table();
    let r = BiomeProfile::from_json("not json at all".to_string(), &voxels);
    assert_eq!(r.unwrap_err(), CompileError::MalformedJson);
}

#[test]
fn missing_key_is_reported() {
    let voxels = stone_table();
    let r = BiomeProfile::from_json("{}".to_string(), &voxels);
    assert_eq!(r.unwrap_err(), CompileError::MissingKey);
}

#[test]
fn unknown_sampler_type_is_reported() {
    let voxels = stone_table();
    let text = "{ \"Samplers\": [ { \"Name\": \"X\", \"Type\": \"Ridged\" } ], \
                  \"Voxel Density\": \"0\", \
                  \"Voxel Type\": \"Voxel(Stone)\", \
                  \"Voxel Shape\": \"CUBE\" }";
    let r = BiomeProfile::from_json(text.to_string(), &voxels);
    assert_eq!(r.unwrap_err(), CompileError::UnknownFieldType);
}

#[test]
fn unrepresentable_number_is_reported() {
    let voxels = stone_table();
    let text = "{ \"Samplers\": [ { \"Name\": \"X\", \"Type\": \"Simplex\", \
                  \"Wavelength\": 1e30, \"Amplitude\": 1 } ], \
                  \"Voxel Density\": \"0\", \
                  \"Voxel Type\": \"Voxel(Stone)\", \
                  \"Voxel Shape\": \"CUBE\" }";
    let r = BiomeProfile::from_json(text.to_string(), &voxels);
    assert_eq!(r.unwrap_err(), CompileError::InvalidNumber);
}

#[test]
fn registry_keeps_good_profiles_and_records_failures() {
    let voxels = stone_table();
    let files = vec![
        ("plains".to_string(), end_to_end_text().to_string()),
        ("broken".to_string(), "{".to_string()),
    ];
    let registry = load_biomes(files, &voxels);
    assert_eq!(registry.entries.len(), 1);
    assert_eq!(registry.failures.len(), 1);
    assert_eq!(registry.failures[0].0, "broken");
    assert_eq!(registry.failures[0].1, CompileError::MalformedJson);
    let plains = get_biome_by_name(&registry, "plains").unwrap();
    assert_eq!(plains.sample_density(&ctx()).unwrap(), 3_000_000);
    assert!(get_biome_by_name(&registry, "mountains").is_none());
}

#[test]
fn registry_outcomes_keep_input_order_and_names() {
    let voxels = stone_table();
    let files = vec![
        ("alpha".to_string(), end_to_end_text().to_string()),
        ("beta".to_string(), "{".to_string()),
        ("gamma".to_string(), end_to_end_text().to_string()),
        ("delta".to_string(), "{}".to_string()),
    ];
    let registry = load_biomes(files, &voxels);
    let entry_names: Vec<&str> = registry.entries.iter().map(|e| e.0.as_str()).collect();
    let failure_names: Vec<&str> = registry.failures.iter().map(|e| e.0.as_str()).collect();
    assert_eq!(entry_names, vec!["alpha", "gamma"]);
    assert_eq!(failure_names, vec!["beta", "delta"]);
}
