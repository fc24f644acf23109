use biome_profile::compile::{
    build_bool_instruction, build_f32_instruction, build_voxel_shape_instruction,
    build_voxel_type_instruction, CompileError, FieldBinding, VoxelTypeTable,
};
use biome_profile::instr::{EvalError, Position, SampleContext, VoxelShape};
use biome_profile::num::SCALE;
use biome_profile::split::get_instruction_params;

fn chars(s: &str) -> Vec<char> {
    s.chars().collect()
}

fn ctx() -> SampleContext {
    SampleContext {
        position: Position { x: 1, y: 2, z: 3 },
        depth: 400_000,
        moisture: 500_000,
        temperature: 600_000,
        density: 700_000,
        noise: 800_000,
    }
}

fn no_fields() -> Vec<FieldBinding> {
    Vec::new()
}

#[test]
fn splits_flat_arguments() {
    let params = get_instruction_params(&chars("a,b,c)"));
    assert_eq!(params, vec![chars("a"), chars("b"), chars("c")]);
}

#[test]
fn splits_nested_arguments() {
    let params = get_instruction_params(&chars("f(a,b),c)"));
    assert_eq!(params, vec![chars("f(a,b)"), chars("c")]);
}

#[test]
fn splits_and_trims_whitespace() {
    let params = get_instruction_params(&chars(" a , b )"));
    assert_eq!(params, vec![chars("a"), chars("b")]);
}

#[test]
fn split_without_closing_paren_drops_last() {
    let params = get_instruction_params(&chars("a,b"));
    assert_eq!(params, vec![chars("a")]);
}

#[test]
fn split_of_empty_text_is_empty() {
    let params = get_instruction_params(&chars(""));
    assert_eq!(params, Vec::<Vec<char>>::new());
}

#[test]
fn literal_round_trip() {
    let tree = build_f32_instruction(&chars("0.2"), &no_fields()).unwrap();
    assert_eq!(tree.process(&ctx()).unwrap(), 200_000);
    let other = SampleContext {
        position: Position { x: -9, y: 0, z: 9 },
        depth: 0,
        moisture: 0,
        temperature: 0,
        density: 0,
        noise: 0,
    };
    assert_eq!(tree.process(&other).unwrap(), 200_000);
}

#[test]
fn negative_literal() {
    let tree = build_f32_instruction(&chars("-1.5"), &no_fields()).unwrap();
    assert_eq!(tree.process(&ctx()).unwrap(), -1_500_000);
}

#[test]
fn add_formula() {
    let tree = build_f32_instruction(&chars("Add(1,2)"), &no_fields()).unwrap();
    assert_eq!(tree.process(&ctx()).unwrap(), 3 * SCALE);
}

#[test]
fn add_formula_with_spaces() {
    let tree = build_f32_instruction(&chars("Add( 1 , 2 )"), &no_fields()).unwrap();
    assert_eq!(tree.process(&ctx()).unwrap(), 3_000_000);
}

#[test]
fn subtract_formula() {
    let tree = build_f32_instruction(&chars("Subtract(1,2)"), &no_fields()).unwrap();
    assert_eq!(tree.process(&ctx()).unwrap(), -SCALE);
}

#[test]
fn conditional_takes_first_branch_when_less() {
    let tree = build_f32_instruction(&chars("If(Less(1,2),10,20)"), &no_fields()).unwrap();
    assert_eq!(tree.process(&ctx()).unwrap(), 10_000_000);
}

#[test]
fn conditional_takes_second_branch_when_not_less() {
    let tree = build_f32_instruction(&chars("If(Less(2,1),10,20)"), &no_fields()).unwrap();
    assert_eq!(tree.process(&ctx()).unwrap(), 20_000_000);
}

#[test]
fn context_accessors_read_their_signals() {
    let c = ctx();
    for (text, expected) in [
        ("Depth", c.depth),
        ("Moisture", c.moisture),
        ("Temperature", c.temperature),
        ("Density", c.density),
    ] {
        let tree = build_f32_instruction(&chars(text), &no_fields()).unwrap();
        assert_eq!(tree.process(&c).unwrap(), expected);
    }
}

#[test]
fn evaluation_is_deterministic() {
    let tree = build_f32_instruction(
        &chars("If(Less(Depth,0.2),Add(Moisture,0.1),0.0)"),
        &no_fields(),
    )
    .unwrap();
    let c = ctx();
    let first = tree.process(&c);
    let second = tree.process(&c);
    assert_eq!(first, second);
    assert_eq!(first.unwrap(), 0);
}

#[test]
fn unknown_symbol_fails() {
    let r = build_f32_instruction(&chars("Foo"), &no_fields());
    assert_eq!(r.unwrap_err(), CompileError::UnresolvedSymbol);
}

#[test]
fn unknown_call_name_fails() {
    let r = build_f32_instruction(&chars("Mul(1,2)"), &no_fields());
    assert_eq!(r.unwrap_err(), CompileError::UnsupportedInstruction);
}

#[test]
fn missing_argument_fails() {
    let r = build_f32_instruction(&chars("Add(1)"), &no_fields());
    assert_eq!(r.unwrap_err(), CompileError::MissingArgument);
}

#[test]
fn bool_builder_accepts_only_less() {
    assert!(build_bool_instruction(&chars("Less(1,2)"), &no_fields()).is_ok());
    let r = build_bool_instruction(&chars("Greater(1,2)"), &no_fields());
    assert_eq!(r.unwrap_err(), CompileError::UnsupportedInstruction);
    let bare = build_bool_instruction(&chars("Depth"), &no_fields());
    assert_eq!(bare.unwrap_err(), CompileError::UnsupportedInstruction);
}

#[test]
fn voxel_builder_resolves_names_at_compile_time() {
    let mut voxels = VoxelTypeTable::new();
    voxels.insert("Stone".to_string(), 7);
    let tree = build_voxel_type_instruction(&chars("Voxel(Stone)"), &no_fields(), &voxels)
        .unwrap();
    assert_eq!(tree.process(&ctx()).unwrap(), 7);
}

#[test]
fn unknown_voxel_fails_at_compile_time() {
    let voxels = VoxelTypeTable::new();
    let r = build_voxel_type_instruction(&chars("Voxel(Stone)"), &no_fields(), &voxels);
    assert_eq!(r.unwrap_err(), CompileError::UnknownVoxel);
}

#[test]
fn voxel_builder_rejects_bare_text() {
    let voxels = VoxelTypeTable::new();
    let r = build_voxel_type_instruction(&chars("7"), &no_fields(), &voxels);
    assert_eq!(r.unwrap_err(), CompileError::UnsupportedInstruction);
}

#[test]
fn shape_builder_reads_constants() {
    let cube = build_voxel_shape_instruction(&chars("CUBE"), &no_fields()).unwrap();
    assert_eq!(cube.process(&ctx()).unwrap(), VoxelShape::Cube);
    let slab = build_voxel_shape_instruction(&chars("SLAB"), &no_fields()).unwrap();
    assert_eq!(slab.process(&ctx()).unwrap(), VoxelShape::Slab);
}

#[test]
fn unknown_shape_fails() {
    let r = build_voxel_shape_instruction(&chars("SPHERE"), &no_fields());
    assert_eq!(r.unwrap_err(), CompileError::UnknownShape);
}

#[test]
fn shape_conditional() {
    let tree = build_voxel_shape_instruction(&chars("If(Less(1,2),SLAB,CUBE)"), &no_fields())
        .unwrap();
    assert_eq!(tree.process(&ctx()).unwrap(), VoxelShape::Slab);
}

#[test]
fn addition_overflow_is_an_error() {
    let a = "999999999999";
    let s1 = format!("Add({a},{a})");
    let s2 = format!("Add({s1},{s1})");
    let s3 = format!("Add({s2},{s2})");
    let s4 = format!("Add({s3},{s3})");
    let tree = build_f32_instruction(&chars(&s4), &no_fields()).unwrap();
    assert_eq!(tree.process(&ctx()).unwrap_err(), EvalError::Overflow);
    let smaller = build_f32_instruction(&chars(&s3), &no_fields()).unwrap();
    assert!(smaller.process(&ctx()).is_ok());
}

#[test]
fn oversized_literal_is_not_a_literal() {
    let r = build_f32_instruction(&chars("1234567890123"), &no_fields());
    assert_eq!(r.unwrap_err(), CompileError::UnresolvedSymbol);
}
