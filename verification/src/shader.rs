//! Shader-module creation. The caller supplies either a ready sequence of
//! 32-bit words or textual source; textual source is encoded by mapping each
//! character to its ordinal value. That encoding is a deliberate stand-in,
//! not a compiler: it is kept exactly as stated until a real shader
//! compilation collaborator exists.

use vstd::prelude::*;

use crate::ids::ResourceId;

verus! {

/// Caller-supplied shader code: ready 32-bit words, or textual source.
#[derive(Clone, PartialEq, Eq, Debug)]
pub enum ShaderCode {
    Words(Vec<u32>),
    Text(String),
}

/// Caller-supplied description of a shader module.
#[derive(Clone, PartialEq, Eq, Debug)]
pub struct GPUShaderModuleDescriptor {
    pub code: ShaderCode,
}

/// The shader-module handle returned to the caller.
#[derive(Clone, Copy, PartialEq, Eq, Structural, Debug)]
pub struct GPUShaderModule {
    pub id: ResourceId,
}

impl GPUShaderModule {
    /// Wrap a backend acknowledgment into the shader-module handle.
    pub fn new(id: ResourceId) -> (r: GPUShaderModule)
        ensures
            r == (GPUShaderModule { id }),
    {
        GPUShaderModule { id }
    }
}

/// The ordinal-value encoding of a character sequence.
pub open spec fn char_words(s: Seq<char>) -> Seq<u32> {
    s.map_values(|c: char| c as u32)
}

/// The word sequence a piece of shader code decodes to: ready words are
/// taken as they are, text is encoded character by character.
pub open spec fn program_words(code: ShaderCode) -> Seq<u32> {
    match code {
        ShaderCode::Words(w) => w@,
        ShaderCode::Text(t) => char_words(t@),
    }
}

/// Encode textual source as one word per character, in order.
pub fn words_of_text(s: &str) -> (r: Vec<u32>)
    ensures
        r@ == char_words(s@),
{
    let n = s.unicode_len();
    let mut r: Vec<u32> = Vec::new();
    let mut i: usize = 0;
    while i < n
        invariant
            n == s@.len(),
            i <= n,
            r@ == char_words(s@.take(i as int)),
        decreases n - i,
    {
        let c = s.get_char(i);
        r.push(c as u32);
        proof {
            assert(s@.take(i + 1).map_values(|c: char| c as u32) =~= s@.take(i as int).map_values(
                |c: char| c as u32,
            ).push(s@[i as int] as u32));
        }
        i = i + 1;
    }
    proof {
        assert(s@.take(s@.len() as int) =~= s@);
    }
    r
}

/// Decode shader code into the word sequence sent to the backend.
pub fn decode_shader_code(code: &ShaderCode) -> (r: Vec<u32>)
    ensures
        r@ == program_words(*code),
{
    match code {
        ShaderCode::Words(w) => {
            let mut r: Vec<u32> = Vec::new();
            let mut i: usize = 0;
            while i < w.len()
                invariant
                    i <= w@.len(),
                    r@ == w@.take(i as int),
                decreases w@.len() - i,
            {
                r.push(w[i]);
                proof {
                    assert(w@.take(i + 1) =~= w@.take(i as int).push(w@[i as int]));
                }
                i = i + 1;
            }
            proof {
                assert(w@.take(w@.len() as int) =~= w@);
            }
            r
        },
        ShaderCode::Text(t) => words_of_text(t.as_str()),
    }
}

} // verus!
