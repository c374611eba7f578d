use vstd::prelude::*;

verus! {

/// Element formats a vertex attribute can take.
#[derive(Clone, Copy, Debug, PartialEq, Eq, Structural)]
pub enum VertexFormat {
    Uchar2,
    Uchar4,
    Char2,
    Char4,
    Uchar2Norm,
    Uchar4Norm,
    Char2Norm,
    Char4Norm,
    Ushort2,
    Ushort4,
    Short2,
    Short4,
    Ushort2Norm,
    Ushort4Norm,
    Short2Norm,
    Short4Norm,
    Half2,
    Half4,
    Float,
    Float2,
    Float3,
    Float4,
    Uint,
    Uint2,
    Uint3,
    Uint4,
    Int,
    Int2,
    Int3,
    Int4,
}

/// Byte size of one element of the given format.
pub open spec fn format_size(f: VertexFormat) -> nat {
    match f {
        VertexFormat::Uchar2 | VertexFormat::Char2 | VertexFormat::Uchar2Norm
        | VertexFormat::Char2Norm => 2,
        VertexFormat::Uchar4 | VertexFormat::Char4 | VertexFormat::Uchar4Norm
        | VertexFormat::Char4Norm => 4,
        VertexFormat::Ushort2 | VertexFormat::Short2 | VertexFormat::Ushort2Norm
        | VertexFormat::Short2Norm | VertexFormat::Half2 => 4,
        VertexFormat::Ushort4 | VertexFormat::Short4 | VertexFormat::Ushort4Norm
        | VertexFormat::Short4Norm | VertexFormat::Half4 => 8,
        VertexFormat::Float | VertexFormat::Uint | VertexFormat::Int => 4,
        VertexFormat::Float2 | VertexFormat::Uint2 | VertexFormat::Int2 => 8,
        VertexFormat::Float3 | VertexFormat::Uint3 | VertexFormat::Int3 => 12,
        VertexFormat::Float4 | VertexFormat::Uint4 | VertexFormat::Int4 => 16,
    }
}


/// Position of a format in the declaration order; proofs use it to extend
/// the order by location to a total order.
pub open spec fn format_rank(f: VertexFormat) -> u8 {
    match f {
        VertexFormat::Uchar2 => 0,
        VertexFormat::Uchar4 => 1,
        VertexFormat::Char2 => 2,
        VertexFormat::Char4 => 3,
        VertexFormat::Uchar2Norm => 4,
        VertexFormat::Uchar4Norm => 5,
        VertexFormat::Char2Norm => 6,
        VertexFormat::Char4Norm => 7,
        VertexFormat::Ushort2 => 8,
        VertexFormat::Ushort4 => 9,
        VertexFormat::Short2 => 10,
        VertexFormat::Short4 => 11,
        VertexFormat::Ushort2Norm => 12,
        VertexFormat::Ushort4Norm => 13,
        VertexFormat::Short2Norm => 14,
        VertexFormat::Short4Norm => 15,
        VertexFormat::Half2 => 16,
        VertexFormat::Half4 => 17,
        VertexFormat::Float => 18,
        VertexFormat::Float2 => 19,
        VertexFormat::Float3 => 20,
        VertexFormat::Float4 => 21,
        VertexFormat::Uint => 22,
        VertexFormat::Uint2 => 23,
        VertexFormat::Uint3 => 24,
        VertexFormat::Uint4 => 25,
        VertexFormat::Int => 26,
        VertexFormat::Int2 => 27,
        VertexFormat::Int3 => 28,
        VertexFormat::Int4 => 29,
    }
}

/// The format at a given position of the declaration order.
pub open spec fn format_at_rank(n: u8) -> VertexFormat {
    match n {
        0 => VertexFormat::Uchar2,
        1 => VertexFormat::Uchar4,
        2 => VertexFormat::Char2,
        3 => VertexFormat::Char4,
        4 => VertexFormat::Uchar2Norm,
        5 => VertexFormat::Uchar4Norm,
        6 => VertexFormat::Char2Norm,
        7 => VertexFormat::Char4Norm,
        8 => VertexFormat::Ushort2,
        9 => VertexFormat::Ushort4,
        10 => VertexFormat::Short2,
        11 => VertexFormat::Short4,
        12 => VertexFormat::Ushort2Norm,
        13 => VertexFormat::Ushort4Norm,
        14 => VertexFormat::Short2Norm,
        15 => VertexFormat::Short4Norm,
        16 => VertexFormat::Half2,
        17 => VertexFormat::Half4,
        18 => VertexFormat::Float,
        19 => VertexFormat::Float2,
        20 => VertexFormat::Float3,
        21 => VertexFormat::Float4,
        22 => VertexFormat::Uint,
        23 => VertexFormat::Uint2,
        24 => VertexFormat::Uint3,
        25 => VertexFormat::Uint4,
        26 => VertexFormat::Int,
        27 => VertexFormat::Int2,
        28 => VertexFormat::Int3,
        _ => VertexFormat::Int4,
    }
}

/// Distinct formats have distinct ranks.
pub proof fn lemma_format_rank_injective(f: VertexFormat, g: VertexFormat)
    ensures
        format_rank(f) == format_rank(g) ==> f == g,
{
    assert(format_at_rank(format_rank(f)) == f);
    assert(format_at_rank(format_rank(g)) == g);
}

impl VertexFormat {
    /// Byte size of one element of this format.
    pub fn size(self) -> (r: u64)
        ensures
            r as nat == format_size(self),
            2 <= r <= 16,
    {
        match self {
            VertexFormat::Uchar2 => 2,
            VertexFormat::Uchar4 => 4,
            VertexFormat::Char2 => 2,
            VertexFormat::Char4 => 4,
            VertexFormat::Uchar2Norm => 2,
            VertexFormat::Uchar4Norm => 4,
            VertexFormat::Char2Norm => 2,
            VertexFormat::Char4Norm => 4,
            VertexFormat::Ushort2 => 4,
            VertexFormat::Ushort4 => 8,
            VertexFormat::Short2 => 4,
            VertexFormat::Short4 => 8,
            VertexFormat::Ushort2Norm => 4,
            VertexFormat::Ushort4Norm => 8,
            VertexFormat::Short2Norm => 4,
            VertexFormat::Short4Norm => 8,
            VertexFormat::Half2 => 4,
            VertexFormat::Half4 => 8,
            VertexFormat::Float => 4,
            VertexFormat::Float2 => 8,
            VertexFormat::Float3 => 12,
            VertexFormat::Float4 => 16,
            VertexFormat::Uint => 4,
            VertexFormat::Uint2 => 8,
            VertexFormat::Uint3 => 12,
            VertexFormat::Uint4 => 16,
            VertexFormat::Int => 4,
            VertexFormat::Int2 => 8,
            VertexFormat::Int3 => 12,
            VertexFormat::Int4 => 16,
        }
    }
}

} // verus!
