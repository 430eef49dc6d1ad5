//! Shader stages by name, and SPIR-V binaries as words.

use vstd::prelude::*;

verus! {

/// The pipeline stage a shader module is loaded for.
#[derive(Clone, Copy, Debug, PartialEq, Eq, Structural)]
pub enum ShaderStage {
    Vertex,
    Fragment,
    Compute,
}

/// The stage a stage name stands for: "vertex", "fragment" or "compute".
pub open spec fn stage_named(name: Seq<char>) -> Option<ShaderStage> {
    if name == "vertex"@ {
        Some(ShaderStage::Vertex)
    } else if name == "fragment"@ {
        Some(ShaderStage::Fragment)
    } else if name == "compute"@ {
        Some(ShaderStage::Compute)
    } else {
        None
    }
}

impl ShaderStage {
    pub fn from_name(name: &str) -> (r: Option<ShaderStage>)
        ensures
            r == stage_named(name@),
    {
        let name = name.to_owned();
        if name == "vertex".to_owned() {
            Some(ShaderStage::Vertex)
        } else if name == "fragment".to_owned() {
            Some(ShaderStage::Fragment)
        } else if name == "compute".to_owned() {
            Some(ShaderStage::Compute)
        } else {
            None
        }
    }
}

/// vulkano's error for a SPIR-V byte length that is not a multiple of four;
/// opaque here, and mapped to [`SpirvError`].
#[verifier::external_type_specification]
#[verifier::external_body]
pub struct ExSpirvBytesNotMultipleOf4(vulkano::shader::spirv::SpirvBytesNotMultipleOf4);

/// Why bytes are not a SPIR-V word stream.
#[derive(Clone, Copy, Debug, PartialEq, Eq, Structural)]
pub enum SpirvError {
    LengthNotMultipleOf4,
}

/// The little-endian 32-bit word at word index `i` of `bytes`.
pub open spec fn le_word(bytes: Seq<u8>, i: int) -> u32 {
    (bytes[4 * i] as int + bytes[4 * i + 1] as int * 0x100 + bytes[4 * i + 2] as int * 0x1_0000
        + bytes[4 * i + 3] as int * 0x100_0000) as u32
}

/// The bytes read as consecutive little-endian 32-bit words.
pub open spec fn le_words(bytes: Seq<u8>) -> Seq<u32> {
    Seq::new(bytes.len() / 4, |i: int| le_word(bytes, i))
}

/// Relies on vulkano::shader::spirv::bytes_to_words: it refuses a length that
/// is not a multiple of four, and otherwise reads the bytes as little-endian
/// words (borrowed in place on a little-endian target when aligned, decoded
/// with `u32::from_le_bytes` otherwise).
#[verifier::external_body]
fn bytes_to_words(bytes: &[u8]) -> (r: Result<Vec<u32>, vulkano::shader::spirv::SpirvBytesNotMultipleOf4>)
    ensures
        r is Err <==> bytes@.len() % 4 != 0,
        r matches Ok(words) ==> words@ == le_words(bytes@),
{
    vulkano::shader::spirv::bytes_to_words(bytes).map(|words| words.into_owned())
}

/// The words of a SPIR-V binary given as bytes.
pub fn spirv_words(bytes: &[u8]) -> (r: Result<Vec<u32>, SpirvError>)
    ensures
        r is Err <==> bytes@.len() % 4 != 0,
        r matches Ok(words) ==> words@ == le_words(bytes@),
{
    match bytes_to_words(bytes) {
        Ok(words) => Ok(words),
        Err(_) => Err(SpirvError::LengthNotMultipleOf4),
    }
}

} // verus!
