use vstd::prelude::*;

use crate::byte_eater::{le_u32, ByteEater};

verus! {

/// The `asset` block of a glTF header.
pub struct Asset {
    pub generator: String,
    pub version: String,
}

/// A scene: its name and the indices of its root nodes.
pub struct Scene {
    pub name: String,
    pub nodes: Vec<u32>,
}

/// A node of a glTF file: the mesh it draws.
pub struct Node {
    pub mesh: usize,
    pub name: String,
}

/// The accessors of a primitive's vertex attributes.
pub struct Atributes {
    pub position: usize,
    pub normal: usize,
    pub tex_coord: usize,
}

pub struct Primitive {
    pub attributes: Atributes,
    pub indices: Option<usize>,
    pub material: usize,
}

pub struct Mesh {
    pub name: Option<String>,
    pub primitives: Vec<Primitive>,
}

/// A window into a binary buffer.
pub struct BufferView {
    pub buffer: usize,
    pub byte_length: usize,
    pub byte_offset: usize,
}

pub struct Buffer {
    pub byte_length: usize,
}

/// The type of the components of an accessor.
#[derive(Clone, Copy, Debug, PartialEq, Eq, Structural)]
pub enum ComponentType {
    SignedByte,
    UnsignedByte,
    Short,
    UnsignedShort,
    UnsignedInt,
    Float,
}

/// The component type that a glTF code names, if any.
pub open spec fn component_type_of(code: u32) -> Option<ComponentType> {
    if code == 5120 {
        Some(ComponentType::SignedByte)
    } else if code == 5121 {
        Some(ComponentType::UnsignedByte)
    } else if code == 5122 {
        Some(ComponentType::Short)
    } else if code == 5123 {
        Some(ComponentType::UnsignedShort)
    } else if code == 5125 {
        Some(ComponentType::UnsignedInt)
    } else if code == 5126 {
        Some(ComponentType::Float)
    } else {
        None
    }
}

impl ComponentType {
    /// The component type of a glTF code; the code must name one.
    pub fn from_code(code: u32) -> (r: ComponentType)
        requires
            component_type_of(code) is Some,
        ensures
            component_type_of(code) == Some(r),
    {
        if code == 5120 {
            ComponentType::SignedByte
        } else if code == 5121 {
            ComponentType::UnsignedByte
        } else if code == 5122 {
            ComponentType::Short
        } else if code == 5123 {
            ComponentType::UnsignedShort
        } else if code == 5125 {
            ComponentType::UnsignedInt
        } else {
            ComponentType::Float
        }
    }
}

/// Why a byte string is not a binary glTF file.
#[derive(Clone, Copy, Debug, PartialEq, Eq, Structural)]
pub enum GlbError {
    /// Shorter than the twelve-byte file header.
    TooShort,
    /// The file does not start with `glTF`.
    BadMagic,
    /// No chunk header tagged `JSON` follows the file header.
    MissingJson,
    /// The JSON chunk runs past the end.
    TruncatedJson,
    /// No chunk header tagged `BIN` follows the JSON chunk.
    MissingBinary,
    /// The binary chunk runs past the end.
    TruncatedBinary,
}

/// The two chunks of a binary glTF file.
pub struct GlbChunks {
    pub json: Vec<u8>,
    pub binary: Vec<u8>,
}

/// Whether `d` holds the four bytes `a b c e` at `i`.
pub open spec fn tag_at(d: Seq<u8>, i: int, a: u8, b: u8, c: u8, e: u8) -> bool {
    d[i] == a && d[i + 1] == b && d[i + 2] == c && d[i + 3] == e
}

/// What a binary glTF file holds: its JSON chunk and its binary chunk, or why it is not one.
pub open spec fn glb_parse(d: Seq<u8>) -> Result<(Seq<u8>, Seq<u8>), GlbError> {
    if d.len() < 12 {
        Err(GlbError::TooShort)
    } else if !tag_at(d, 0, 0x67, 0x6c, 0x54, 0x46) {
        Err(GlbError::BadMagic)
    } else if d.len() < 20 || !tag_at(d, 16, 0x4a, 0x53, 0x4f, 0x4e) {
        Err(GlbError::MissingJson)
    } else if 20 + le_u32(d, 12) > d.len() {
        Err(GlbError::TruncatedJson)
    } else if 28 + le_u32(d, 12) > d.len() || !tag_at(
        d,
        24 + le_u32(d, 12),
        0x42,
        0x49,
        0x4e,
        0x00,
    ) {
        Err(GlbError::MissingBinary)
    } else if 28 + le_u32(d, 12) + le_u32(d, 20 + le_u32(d, 12)) > d.len() {
        Err(GlbError::TruncatedBinary)
    } else {
        let jl = le_u32(d, 12);
        let bl = le_u32(d, 20 + jl);
        Ok((d.subrange(20, 20 + jl), d.subrange(28 + jl, 28 + jl + bl)))
    }
}

fn has_tag(b: &[u8], i: usize, t0: u8, t1: u8, t2: u8, t3: u8) -> (r: bool)
    requires
        i + 4 <= b@.len(),
    ensures
        r == tag_at(b@, i as int, t0, t1, t2, t3),
{
    b[i] == t0 && b[i + 1] == t1 && b[i + 2] == t2 && b[i + 3] == t3
}

/// Splits a binary glTF file into its JSON chunk and its binary chunk.
pub fn parse_glb_bytes(data: &[u8]) -> (r: Result<GlbChunks, GlbError>)
    ensures
        match glb_parse(data@) {
            Ok((json, binary)) => r matches Ok(c) && c.json@ == json && c.binary@ == binary,
            Err(e) => r == Err::<GlbChunks, GlbError>(e),
        },
{
    let len = data.len();
    if len < 12 {
        return Err(GlbError::TooShort);
    }
    if !has_tag(data, 0, 0x67, 0x6c, 0x54, 0x46) {
        return Err(GlbError::BadMagic);
    }
    if len < 20 || !has_tag(data, 16, 0x4a, 0x53, 0x4f, 0x4e) {
        return Err(GlbError::MissingJson);
    }
    let mut eater = ByteEater::new(data);
    eater.set_index(12);
    let json_length = eater.read_u32() as usize;
    if json_length > len - 20 {
        return Err(GlbError::TruncatedJson);
    }
    if len < 28 || json_length > len - 28 || !has_tag(data, 24 + json_length, 0x42, 0x49, 0x4e, 0x00) {
        return Err(GlbError::MissingBinary);
    }
    eater.set_index(20);
    let json = eater.read_bytes(json_length);
    let bin_length = eater.read_u32() as usize;
    if bin_length > len - 28 - json_length {
        return Err(GlbError::TruncatedBinary);
    }
    eater.set_index(28 + json_length);
    let binary = eater.read_bytes(bin_length);
    Ok(GlbChunks { json: vstd::slice::slice_to_vec(json), binary: vstd::slice::slice_to_vec(binary) })
}

/// The bytes of `binary` that `view` covers, or `None` when they run past its end.
pub fn buffer_view_bytes(binary: &[u8], view: &BufferView) -> (r: Option<Vec<u8>>)
    ensures
        view.byte_offset + view.byte_length <= binary@.len() ==> (r matches Some(v) && v@
            == binary@.subrange(view.byte_offset as int, view.byte_offset + view.byte_length)),
        view.byte_offset + view.byte_length > binary@.len() ==> r is None,
{
    let len = binary.len();
    if view.byte_offset > len || view.byte_length > len - view.byte_offset {
        return None;
    }
    let part = vstd::slice::slice_subrange(
        binary,
        view.byte_offset,
        view.byte_offset + view.byte_length,
    );
    Some(vstd::slice::slice_to_vec(part))
}

} // verus!
