pub mod compile;
pub mod instr;
pub mod json;
pub mod laws;
pub mod num;
pub mod profile;
pub mod registry;
pub mod split;
pub mod text;
