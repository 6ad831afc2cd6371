//! Shaders and vertex declarations.
//!
//! The legacy interface hands both over as arrays without a length: a shader
//! ends with an end token, a vertex declaration with an end element.

use vstd::prelude::*;
use crate::abi::d3d9;
use crate::abi::d3d9::VertexElement;
use crate::error::Result;

verus! {

/// The token that ends a shader.
pub const END_TOKEN: u32 = 0x0000_FFFF;

/// Number of elements after which a vertex declaration is suspected to lack
/// its end.
pub const MAX_VERTEX_ELEMENTS: usize = 64;

/// The first index from `from` on at which the end token stands, or the
/// length of the tokens if there is none.
pub open spec fn end_token_from(tokens: Seq<u32>, from: int) -> int
    decreases tokens.len() - from,
{
    if from >= tokens.len() {
        tokens.len() as int
    } else if tokens[from] == END_TOKEN {
        from
    } else {
        end_token_from(tokens, from + 1)
    }
}

/// The tokens of a shader: all before the end token. The first token is the
/// version of the shader and never taken for the end.
pub open spec fn shader_tokens(tokens: Seq<u32>) -> Seq<u32> {
    tokens.take(end_token_from(tokens, 1))
}

/// Whether an element is the one that ends a vertex declaration.
pub open spec fn is_end_element(ve: VertexElement) -> bool {
    ve == (VertexElement {
        stream: 0xFF,
        offset: 0,
        ty: d3d9::D3DDECLTYPE_UNUSED as u8,
        method: 0,
        usage: 0,
        usage_index: 0,
    })
}

/// The first index from `from` on at which the end element stands, or the
/// length of the elements if there is none.
pub open spec fn end_element_from(elems: Seq<VertexElement>, from: int) -> int
    decreases elems.len() - from,
{
    if from >= elems.len() {
        elems.len() as int
    } else if is_end_element(elems[from]) {
        from
    } else {
        end_element_from(elems, from + 1)
    }
}

/// The elements of a vertex declaration: all before the end element.
pub open spec fn declared_elements(elems: Seq<VertexElement>) -> Seq<VertexElement> {
    elems.take(end_element_from(elems, 0))
}

/// Given the tokens that form a shader and whatever follows them in memory,
/// returns the tokens of the shader. Where the end token is missing all
/// tokens are taken.
pub fn tokens_to_box(tokens: &[u32]) -> (res: Vec<u32>)
    ensures
        res@ == shader_tokens(tokens@),
{
    let mut out: Vec<u32> = Vec::new();
    if tokens.len() == 0 {
        assert(tokens@.take(0) =~= Seq::<u32>::empty());
        return out;
    }
    out.push(tokens[0]);
    // We don't know how long the shader will be:
    // we go until we find the end token.
    let mut len: usize = 1;
    while len < tokens.len() && tokens[len] != END_TOKEN
        invariant
            1 <= len <= tokens@.len(),
            out@ == tokens@.take(len as int),
            end_token_from(tokens@, 1) == end_token_from(tokens@, len as int),
        decreases tokens@.len() - len,
    {
        out.push(tokens[len]);
        assert(tokens@.take(len + 1) =~= tokens@.take(len as int).push(tokens@[len as int]));
        len = len + 1;
    }
    out
}

/// Whether an element is the one that ends a vertex declaration.
pub fn is_end(ve: &VertexElement) -> (res: bool)
    ensures
        res == is_end_element(*ve),
{
    ve.stream == 0xFF && ve.offset == 0 && ve.ty == 17 && ve.method == 0 && ve.usage == 0
        && ve.usage_index == 0
}

/// Vertex shader class.
#[derive(Debug, PartialEq, Eq)]
pub struct VertexShader {
    pub device: usize,
    pub code: Vec<u32>,
}

impl VertexShader {
    /// Create a new vertex shader.
    pub fn new(device: usize, func: &[u32]) -> (res: Result<Self>)
        ensures
            res is Ok,
            res.unwrap().device == device,
            res.unwrap().code@ == shader_tokens(func@),
    {
        let code = tokens_to_box(func);
        Ok(Self { device, code })
    }

    /// Retrieves the device which created this shader.
    pub fn get_device(&self) -> (res: usize)
        ensures
            res == self.device,
    {
        self.device
    }

    /// Retrieve the shader's byte code.
    pub fn get_function(&self) -> (res: &Vec<u32>)
        ensures
            res@ == self.code@,
    {
        &self.code
    }
}

/// Pixel shader class.
#[derive(Debug, PartialEq, Eq)]
pub struct PixelShader {
    pub device: usize,
    pub code: Vec<u32>,
}

impl PixelShader {
    /// Create a new pixel shader.
    pub fn new(device: usize, func: &[u32]) -> (res: Result<Self>)
        ensures
            res is Ok,
            res.unwrap().device == device,
            res.unwrap().code@ == shader_tokens(func@),
    {
        let code = tokens_to_box(func);
        Ok(Self { device, code })
    }

    /// Retrieves the device which created this shader.
    pub fn get_device(&self) -> (res: usize)
        ensures
            res == self.device,
    {
        self.device
    }

    /// Retrieve the shader's byte code.
    pub fn get_function(&self) -> (res: &Vec<u32>)
        ensures
            res@ == self.code@,
    {
        &self.code
    }
}

/// Declaration of a vertex shader's inputs.
#[derive(Debug, PartialEq, Eq)]
pub struct VertexDeclaration {
    pub device: usize,
    pub elems: Vec<VertexElement>,
}

impl VertexDeclaration {
    /// Creates a new vertex declaration from the elements up to the end
    /// element. Where the end element is missing all elements are taken.
    pub fn new(device: usize, elems: &[VertexElement]) -> (res: Self)
        ensures
            res.device == device,
            res.elems@ == declared_elements(elems@),
    {
        let mut out: Vec<VertexElement> = Vec::new();
        let mut count: usize = 0;
        assert(elems@.take(0) =~= Seq::<VertexElement>::empty());
        // Input is a variable-length array terminated by the end element.
        while count < elems.len() && !is_end(&elems[count])
            invariant
                count <= elems@.len(),
                out@ == elems@.take(count as int),
                end_element_from(elems@, 0) == end_element_from(elems@, count as int),
            decreases elems@.len() - count,
        {
            out.push(elems[count]);
            assert(elems@.take(count + 1) =~= elems@.take(count as int).push(
                elems@[count as int],
            ));
            count = count + 1;
        }
        Self { device, elems: out }
    }

    /// Whether the declaration is so long that its end element was
    /// probably forgotten.
    pub fn lacks_terminator(&self) -> (res: bool)
        ensures
            res == (self.elems@.len() >= MAX_VERTEX_ELEMENTS),
    {
        self.elems.len() >= MAX_VERTEX_ELEMENTS
    }

    /// Retrieves the device which owns this vertex declaration.
    pub fn get_device(&self) -> (res: usize)
        ensures
            res == self.device,
    {
        self.device
    }

    /// Retrieves the elements which make up this declaration.
    pub fn get_declaration(&self) -> (res: &Vec<VertexElement>)
        ensures
            res@ == self.elems@,
    {
        &self.elems
    }
}

/// The tokens of a shader hold no end token but possibly the first, and end
/// where the first end token after the first token stands.
pub proof fn shader_ends_at_first_end_token(tokens: Seq<u32>, from: int)
    requires
        0 <= from <= tokens.len(),
    ensures
        from <= end_token_from(tokens, from) <= tokens.len(),
        end_token_from(tokens, from) < tokens.len() ==> tokens[end_token_from(tokens, from)]
            == END_TOKEN,
        forall|i: int| from <= i < end_token_from(tokens, from) ==> tokens[i] != END_TOKEN,
    decreases tokens.len() - from,
{
    if from < tokens.len() && tokens[from] != END_TOKEN {
        shader_ends_at_first_end_token(tokens, from + 1);
    }
}

} // verus!
