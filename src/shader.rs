use vstd::prelude::*;

verus! {

/// Compiled shader bytecode (SPIR-V words).
pub struct Shader {
    pub bytes: Vec<u32>,
}

} // verus!
