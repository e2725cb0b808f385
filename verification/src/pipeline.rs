//! The one render pipeline that every frame is drawn with, as a description
//! to build the device's pipeline from.

use vstd::prelude::*;

verus! {

#[verifier::external_type_specification]
#[verifier::external_body]
pub struct ExTextureFormat(wgpu::TextureFormat);

/// The format of one vertex attribute.
#[derive(Clone, Copy, Debug, PartialEq, Eq, Structural)]
pub enum VertexFormat {
    /// Two 32-bit floats.
    Float32x2,
    /// One 32-bit unsigned integer.
    Uint32,
}

impl VertexFormat {
    /// The size of a value of the format in bytes.
    pub open spec fn spec_size(self) -> u64 {
        match self {
            VertexFormat::Float32x2 => 8,
            VertexFormat::Uint32 => 4,
        }
    }

    /// The size of a value of the format in bytes.
    #[verifier::when_used_as_spec(spec_size)]
    pub fn size(self) -> (n: u64)
        ensures
            n == self.spec_size(),
    {
        match self {
            VertexFormat::Float32x2 => 8,
            VertexFormat::Uint32 => 4,
        }
    }
}

/// One attribute of a vertex: where it lies in the vertex and which shader
/// input it feeds.
#[derive(Clone, Copy, Debug, PartialEq, Eq, Structural)]
pub struct VertexAttribute {
    pub format: VertexFormat,
    /// The offset in bytes from the start of the vertex.
    pub offset: u64,
    pub shader_location: u32,
}

/// The entry points of the shader module.
#[derive(Clone, Copy, Debug, PartialEq, Eq, Structural)]
pub enum ShaderEntry {
    /// The vertex stage for a target whose format stores sRGB.
    VsMain,
    /// The vertex stage for a target whose format does not store sRGB.
    VsConvMain,
    /// The fragment stage.
    FsMain,
}

/// How primitives are assembled from vertices.
#[derive(Clone, Copy, Debug, PartialEq, Eq, Structural)]
pub enum PrimitiveTopology {
    /// Every three vertices are one triangle.
    TriangleList,
}

/// The width of an index.
#[derive(Clone, Copy, Debug, PartialEq, Eq, Structural)]
pub enum IndexFormat {
    /// 32 bits, unsigned.
    Uint32,
}

/// A factor of the blend equation.
#[derive(Clone, Copy, Debug, PartialEq, Eq, Structural)]
pub enum BlendFactor {
    /// 1
    One,
    /// 1 - source alpha
    OneMinusSrcAlpha,
    /// 1 - destination alpha
    OneMinusDstAlpha,
}

/// One line of the blend equation: source times `src_factor` plus
/// destination times `dst_factor`.
#[derive(Clone, Copy, Debug, PartialEq, Eq, Structural)]
pub struct BlendComponent {
    pub src_factor: BlendFactor,
    pub dst_factor: BlendFactor,
}

/// The description of the render pipeline.
#[derive(Clone, Debug)]
pub struct Pipeline {
    pub vertex_entry: ShaderEntry,
    pub fragment_entry: ShaderEntry,
    /// The distance in bytes from one vertex to the next.
    pub vertex_stride: u64,
    /// The attributes of a vertex: position, texture coordinate, packed
    /// colour.
    pub vertex_attributes: Vec<VertexAttribute>,
    pub topology: PrimitiveTopology,
    pub index_format: IndexFormat,
    /// The blend of the colour channels.
    pub color_blend: BlendComponent,
    /// The blend of the alpha channel.
    pub alpha_blend: BlendComponent,
    /// Whether the pipeline has a depth or stencil test.
    pub depth_stencil: bool,
    /// The number of samples for each pixel.
    pub sample_count: u32,
    /// The size in bytes of the uniform buffer that holds the screen size:
    /// two 32-bit floats.
    pub screen_size_bytes: u64,
    /// The size in bytes of a texture's metadata buffer: one 32-bit scalar.
    pub components_bytes: u64,
}

/// The formats of a vertex's attributes, in the order of their shader
/// locations: position, texture coordinate, packed colour.
pub open spec fn vertex_formats() -> Seq<VertexFormat> {
    seq![VertexFormat::Float32x2, VertexFormat::Float32x2, VertexFormat::Uint32]
}

/// The size in bytes of the first `n` of `formats`, laid out one after the
/// other.
pub open spec fn packed_size(formats: Seq<VertexFormat>, n: int) -> int
    decreases n,
{
    if n <= 0 {
        0
    } else {
        packed_size(formats, n - 1) + formats[n - 1].spec_size()
    }
}

/// The attributes for `formats` laid out one after the other without gaps:
/// the attribute at position `i` has shader location `i` and starts where the
/// one before it ends.
pub open spec fn packed_attributes(formats: Seq<VertexFormat>) -> Seq<VertexAttribute> {
    Seq::new(
        formats.len(),
        |i: int|
            VertexAttribute {
                format: formats[i],
                offset: packed_size(formats, i) as u64,
                shader_location: i as u32,
            },
    )
}

/// The blend of the colour channels for straight alpha: source plus
/// destination times one minus source alpha.
pub open spec fn color_blend() -> BlendComponent {
    BlendComponent { src_factor: BlendFactor::One, dst_factor: BlendFactor::OneMinusSrcAlpha }
}

/// The blend of the alpha channel: source plus destination times one minus
/// destination alpha.
pub open spec fn alpha_blend() -> BlendComponent {
    BlendComponent { src_factor: BlendFactor::One, dst_factor: BlendFactor::OneMinusDstAlpha }
}

/// Lays attributes of the given formats out one after the other and returns
/// them with the size of the whole vertex.
fn pack_attributes(formats: &[VertexFormat]) -> (r: (Vec<VertexAttribute>, u64))
    requires
        formats@.len() <= u32::MAX,
    ensures
        r.0@ == packed_attributes(formats@),
        r.1 == packed_size(formats@, formats@.len() as int),
{
    let mut attributes: Vec<VertexAttribute> = Vec::new();
    let mut offset: u64 = 0;
    let mut i: usize = 0;
    while i < formats.len()
        invariant
            i <= formats@.len() <= u32::MAX,
            offset == packed_size(formats@, i as int),
            offset <= 8 * i,
            attributes@ == packed_attributes(formats@).take(i as int),
        decreases formats@.len() - i,
    {
        let format = formats[i];
        attributes.push(VertexAttribute { format, offset, shader_location: i as u32 });
        assert(attributes@ =~= packed_attributes(formats@).take(i + 1));
        offset = offset + format.size();
        i += 1;
    }
    assert(attributes@ =~= packed_attributes(formats@));
    (attributes, offset)
}

/// Whether a target of the given format stores sRGB, so that the device
/// converts what the fragment stage writes.
///
/// Trusted: calls `wgpu::TextureFormat::describe` and reads the `srgb` flag
/// of what it returns. Nothing is claimed of the answer.
#[verifier::external_body]
fn stores_srgb(format: wgpu::TextureFormat) -> bool {
    format.describe().srgb
}

impl Pipeline {
    /// Whether this is the description of the pipeline for a target that
    /// stores sRGB or linear values and has `msaa_samples` samples for each
    /// pixel.
    ///
    /// Everything but the vertex entry point and the sample count is fixed:
    /// vertices of 20 bytes with position and texture coordinate as two
    /// floats each and the colour packed in one integer, triangle lists,
    /// 32-bit indices, the blend for straight alpha, no depth or stencil
    /// test.
    pub open spec fn is_description(&self, output_is_srgb: bool, msaa_samples: u32) -> bool {
        &&& self.vertex_entry == (if output_is_srgb {
            ShaderEntry::VsMain
        } else {
            ShaderEntry::VsConvMain
        })
        &&& self.fragment_entry == ShaderEntry::FsMain
        &&& self.vertex_stride == 20
        &&& self.vertex_attributes@ == packed_attributes(vertex_formats())
        &&& self.vertex_attributes@ == seq![
            VertexAttribute { format: VertexFormat::Float32x2, offset: 0, shader_location: 0 },
            VertexAttribute { format: VertexFormat::Float32x2, offset: 8, shader_location: 1 },
            VertexAttribute { format: VertexFormat::Uint32, offset: 16, shader_location: 2 },
        ]
        &&& self.topology == PrimitiveTopology::TriangleList
        &&& self.index_format == IndexFormat::Uint32
        &&& self.color_blend == color_blend()
        &&& self.alpha_blend == alpha_blend()
        &&& !self.depth_stencil
        &&& self.sample_count == msaa_samples
        &&& self.screen_size_bytes == 8
        &&& self.components_bytes == 4
    }

    /// Describes the pipeline for a target of the given format with
    /// `msaa_samples` samples for each pixel.
    ///
    /// The format decides nothing but the vertex entry point, by whether it
    /// stores sRGB.
    pub fn new(output_format: wgpu::TextureFormat, msaa_samples: u32) -> (pipeline: Self)
        ensures
            pipeline.is_description(true, msaa_samples) || pipeline.is_description(
                false,
                msaa_samples,
            ),
    {
        create_pipeline(stores_srgb(output_format), msaa_samples)
    }
}

/// Describes the pipeline for a target that stores sRGB or linear values and
/// has `msaa_samples` samples for each pixel.
pub fn create_pipeline(output_is_srgb: bool, msaa_samples: u32) -> (pipeline: Pipeline)
    ensures
        pipeline.is_description(output_is_srgb, msaa_samples),
{
    let formats: [VertexFormat; 3] = [
        VertexFormat::Float32x2,
        VertexFormat::Float32x2,
        VertexFormat::Uint32,
    ];
    assert(formats@ =~= vertex_formats());
    let (vertex_attributes, vertex_stride) = pack_attributes(formats.as_slice());
    proof {
        reveal_with_fuel(packed_size, 4);
        assert(vertex_attributes@ =~= seq![
            VertexAttribute { format: VertexFormat::Float32x2, offset: 0, shader_location: 0 },
            VertexAttribute { format: VertexFormat::Float32x2, offset: 8, shader_location: 1 },
            VertexAttribute { format: VertexFormat::Uint32, offset: 16, shader_location: 2 },
        ]);
    }
    Pipeline {
        vertex_entry: if output_is_srgb {
            ShaderEntry::VsMain
        } else {
            ShaderEntry::VsConvMain
        },
        fragment_entry: ShaderEntry::FsMain,
        vertex_stride,
        vertex_attributes,
        topology: PrimitiveTopology::TriangleList,
        index_format: IndexFormat::Uint32,
        color_blend: BlendComponent {
            src_factor: BlendFactor::One,
            dst_factor: BlendFactor::OneMinusSrcAlpha,
        },
        alpha_blend: BlendComponent {
            src_factor: BlendFactor::One,
            dst_factor: BlendFactor::OneMinusDstAlpha,
        },
        depth_stencil: false,
        sample_count: msaa_samples,
        screen_size_bytes: 8,
        components_bytes: 4,
    }
}

} // verus!
