//! One frame: what the toolkit hands over, and the work for the device that
//! comes of it.

use crate::buffer::{
    buffer_after_write, is_write_of, BufferUsages, BufferWrite, SizedBuffer,
};
use crate::bytes::is_word_image;
use crate::clip::{is_visible, scissor_of, ClipRect, ScissorRect};
use crate::texture::{ImageDelta, TextureId, TextureInfo, TextureUpload};
use vstd::prelude::*;

verus! {

/// Textured triangles.
#[derive(Clone, Debug)]
pub struct Mesh {
    /// Three indices into the vertices for each triangle.
    pub indices: Vec<u32>,
    /// The vertex data in the layout of the pipeline's vertex buffer: for
    /// each vertex its position, its texture coordinate and its packed
    /// colour.
    pub vertices: Vec<u8>,
    /// The texture that the triangles sample.
    pub texture_id: TextureId,
}

/// A mesh with the rectangle outside of which nothing of it is drawn.
#[derive(Clone, Debug)]
pub struct ClippedMesh(pub ClipRect, pub Mesh);

#[verifier::external_type_specification]
#[verifier::external_body]
pub struct ExColor(wgpu::Color);

/// The target of one frame.
pub struct RenderTarget {
    /// The colour to clear the target to before drawing. Without one, what
    /// the target holds is kept and drawn over.
    pub clear_color: Option<wgpu::Color>,
    /// Width in physical pixels.
    pub width: u32,
    /// Height in physical pixels.
    pub height: u32,
}

/// What a render pass does to its target before the first draw.
pub enum LoadOp {
    /// Clear it to the colour.
    Clear(wgpu::Color),
    /// Keep what it holds.
    Load,
}

/// One indexed draw of a single instance.
#[derive(Clone, Copy, Debug, PartialEq, Eq, Structural)]
pub struct DrawCall {
    /// The position of the mesh in the frame, which is also the slot of its
    /// buffers in the vertex and the index pool.
    pub slot: usize,
    /// The scissor rectangle to set before the draw.
    pub scissor: ScissorRect,
    /// The texture whose resources are bound for the draw.
    pub texture_id: TextureId,
    /// The number of indices to draw, from the first; the mesh's index count
    /// kept to its low 32 bits.
    pub index_count: u32,
}

/// The device work for the meshes of one frame, in the order in which it is
/// carried out: the screen size, the buffer writes, then one render pass with
/// the draws.
pub struct MeshPass<'a> {
    /// Width and height of the target in physical pixels, for the uniform
    /// buffer from which the vertex stage reads the screen size.
    pub screen_size: [u32; 2],
    /// For each mesh, in order, the write of its vertex data into the vertex
    /// pool.
    pub vertex_writes: Vec<BufferWrite<'a>>,
    /// For each mesh, in order, the write of its index data into the index
    /// pool.
    pub index_writes: Vec<BufferWrite<'a>>,
    /// How the render pass begins.
    pub load: LoadOp,
    /// The draws of the render pass, in order.
    pub draws: Vec<DrawCall>,
}

/// The device work for one frame, in the order in which it is carried out:
/// the texture uploads, the mesh pass, the texture frees, and then the
/// submission of what was recorded.
pub struct Frame<'a> {
    /// The textures to create, in order.
    pub uploads: Vec<TextureUpload<'a>>,
    /// The buffer writes and draws.
    pub pass: MeshPass<'a>,
    /// The textures to release once the render pass is recorded, in order.
    pub frees: Vec<TextureId>,
}

/// How a render pass begins for an optional clear colour.
pub open spec fn load_op_of(clear_color: Option<wgpu::Color>) -> LoadOp {
    match clear_color {
        Some(color) => LoadOp::Clear(color),
        None => LoadOp::Load,
    }
}

/// The draw for the mesh at position `slot`, or `None` where the mesh is
/// skipped: its scissor rectangle leaves nothing to draw, or its texture is
/// not resident.
pub open spec fn draw_of(
    mesh: ClippedMesh,
    slot: int,
    textures: Map<TextureId, TextureInfo>,
    width: u32,
    height: u32,
) -> Option<DrawCall> {
    match scissor_of(mesh.0, width, height) {
        Some(scissor) => if textures.contains_key(mesh.1.texture_id) {
            Some(
                DrawCall {
                    slot: slot as usize,
                    scissor,
                    texture_id: mesh.1.texture_id,
                    index_count: mesh.1.indices@.len() as u32,
                },
            )
        } else {
            None
        },
        None => None,
    }
}

/// The draws for a list of meshes: the draw of each mesh that has one, in
/// the order of the meshes.
pub open spec fn draws_of(
    meshes: Seq<ClippedMesh>,
    textures: Map<TextureId, TextureInfo>,
    width: u32,
    height: u32,
) -> Seq<DrawCall>
    decreases meshes.len(),
{
    if meshes.len() == 0 {
        Seq::empty()
    } else {
        let before = draws_of(meshes.drop_last(), textures, width, height);
        match draw_of(meshes.last(), meshes.len() - 1, textures, width, height) {
            Some(draw) => before.push(draw),
            None => before,
        }
    }
}

/// The size in bytes of each mesh's vertex data.
pub open spec fn vertex_sizes(meshes: Seq<ClippedMesh>) -> Seq<usize> {
    Seq::new(meshes.len(), |i: int| meshes[i].1.vertices@.len() as usize)
}

/// The size in bytes of each mesh's index data: four bytes for an index.
pub open spec fn index_sizes(meshes: Seq<ClippedMesh>) -> Seq<usize> {
    Seq::new(meshes.len(), |i: int| (4 * meshes[i].1.indices@.len()) as usize)
}

/// A pool after one frame wrote data of the sizes `sizes` to its slots from
/// the first: as many slots as before, or as many as there were writes if
/// that is more; each written slot as its write left it; each other slot as
/// before.
pub open spec fn written_pool(
    pool: Seq<SizedBuffer>,
    sizes: Seq<usize>,
    usage: BufferUsages,
) -> Seq<SizedBuffer> {
    Seq::new(
        if pool.len() >= sizes.len() {
            pool.len()
        } else {
            sizes.len()
        },
        |i: int|
            if i < sizes.len() {
                buffer_after_write(pool, i, sizes[i], usage)
            } else {
                pool[i]
            },
    )
}

/// Whether `write` is the write of a mesh's index data at `slot` of an index
/// pool that was `pool` before.
pub open spec fn is_index_write(
    write: BufferWrite,
    pool: Seq<SizedBuffer>,
    slot: int,
    indices: Seq<u32>,
) -> bool {
    &&& is_write_of(write, pool, slot, write.data@, BufferUsages::spec_for_indices())
    &&& is_word_image(indices, write.data@)
}

/// Whether `write` is the write of a mesh's vertex data at `slot` of a
/// vertex pool that was `pool` before.
pub open spec fn is_vertex_write(
    write: BufferWrite,
    pool: Seq<SizedBuffer>,
    slot: int,
    vertices: Seq<u8>,
) -> bool {
    is_write_of(write, pool, slot, vertices, BufferUsages::spec_for_vertices())
}

/// The registry's contents after the uploads of `set` were applied in order:
/// each upload puts its image's description under its identifier, in place of
/// what was there.
pub open spec fn textures_after_uploads(
    textures: Map<TextureId, TextureInfo>,
    set: Seq<(TextureId, ImageDelta)>,
) -> Map<TextureId, TextureInfo>
    decreases set.len(),
{
    if set.len() == 0 {
        textures
    } else {
        textures_after_uploads(textures, set.drop_last()).insert(
            set.last().0,
            set.last().1.image.spec_info(),
        )
    }
}

/// The registry's contents after the identifiers of `free` were freed in
/// order.
pub open spec fn textures_after_frees(
    textures: Map<TextureId, TextureInfo>,
    free: Seq<TextureId>,
) -> Map<TextureId, TextureInfo>
    decreases free.len(),
{
    if free.len() == 0 {
        textures
    } else {
        textures_after_frees(textures, free.drop_last()).remove(free.last())
    }
}

/// Whether every image of `set` may be uploaded.
pub open spec fn uploads_are_valid(set: Seq<(TextureId, ImageDelta)>) -> bool {
    forall|j: int| 0 <= j < set.len() ==> (#[trigger] set[j]).1.image.is_valid()
}

/// Whether `j` is the position of the first image of `set` that may not be
/// uploaded.
pub open spec fn is_first_invalid(set: Seq<(TextureId, ImageDelta)>, j: int) -> bool {
    &&& 0 <= j < set.len()
    &&& !set[j].1.image.is_valid()
    &&& forall|k: int| 0 <= k < j ==> (#[trigger] set[k]).1.image.is_valid()
}

/// A mesh that has a draw is drawn: its draw is among the draws of the frame.
pub proof fn lemma_draw_is_planned(
    meshes: Seq<ClippedMesh>,
    textures: Map<TextureId, TextureInfo>,
    width: u32,
    height: u32,
    i: int,
)
    requires
        0 <= i < meshes.len(),
        draw_of(meshes[i], i, textures, width, height) is Some,
    ensures
        draws_of(meshes, textures, width, height).contains(
            draw_of(meshes[i], i, textures, width, height)->0,
        ),
    decreases meshes.len(),
{
    let draws = draws_of(meshes, textures, width, height);
    let before = draws_of(meshes.drop_last(), textures, width, height);
    let draw = draw_of(meshes[i], i, textures, width, height)->0;
    if i == meshes.len() - 1 {
        assert(draws == before.push(draw));
        assert(draws[before.len() as int] == draw);
    } else {
        lemma_draw_is_planned(meshes.drop_last(), textures, width, height, i);
        let k = choose|k: int| 0 <= k < before.len() && before[k] == draw;
        assert(draws[k] == draw);
    }
}

/// Every draw of a frame is the draw of the mesh at its slot, so nothing is
/// drawn for a mesh that is skipped, and no mesh is drawn twice: the slots of
/// the draws grow strictly.
pub proof fn lemma_planned_draw_has_mesh(
    meshes: Seq<ClippedMesh>,
    textures: Map<TextureId, TextureInfo>,
    width: u32,
    height: u32,
    k: int,
)
    requires
        meshes.len() <= usize::MAX,
        0 <= k < draws_of(meshes, textures, width, height).len(),
    ensures
        ({
            let draws = draws_of(meshes, textures, width, height);
            &&& draws.len() <= meshes.len()
            &&& k <= draws[k].slot < meshes.len()
            &&& draw_of(meshes[draws[k].slot as int], draws[k].slot as int, textures, width, height)
                == Some(draws[k])
            &&& forall|l: int| 0 <= l < k ==> (#[trigger] draws[l]).slot < draws[k].slot
        }),
    decreases meshes.len(),
{
    let draws = draws_of(meshes, textures, width, height);
    let before = draws_of(meshes.drop_last(), textures, width, height);
    lemma_draws_are_few(meshes.drop_last(), textures, width, height);
    if k < before.len() {
        lemma_planned_draw_has_mesh(meshes.drop_last(), textures, width, height, k);
        assert(draws[k] == before[k]);
        assert forall|l: int| 0 <= l < k implies (#[trigger] draws[l]).slot < draws[k].slot by {
            assert(draws[l] == before[l]);
        }
    } else {
        assert(draws[k].slot == meshes.len() - 1);
        assert forall|l: int| 0 <= l < k implies (#[trigger] draws[l]).slot < draws[k].slot by {
            lemma_planned_draw_has_mesh(meshes.drop_last(), textures, width, height, l);
            assert(draws[l] == before[l]);
        }
    }
}

/// A frame has at most one draw for each mesh.
pub proof fn lemma_draws_are_few(
    meshes: Seq<ClippedMesh>,
    textures: Map<TextureId, TextureInfo>,
    width: u32,
    height: u32,
)
    ensures
        draws_of(meshes, textures, width, height).len() <= meshes.len(),
    decreases meshes.len(),
{
    if meshes.len() > 0 {
        lemma_draws_are_few(meshes.drop_last(), textures, width, height);
    }
}

/// Every scissor rectangle of a frame lies on the target and covers at least
/// one pixel in each direction, and every texture that a draw binds is
/// resident.
pub proof fn lemma_draws_are_sound(
    meshes: Seq<ClippedMesh>,
    textures: Map<TextureId, TextureInfo>,
    width: u32,
    height: u32,
    k: int,
)
    requires
        meshes.len() <= usize::MAX,
        0 <= k < draws_of(meshes, textures, width, height).len(),
    ensures
        ({
            let draw = draws_of(meshes, textures, width, height)[k];
            &&& draw.scissor.x + draw.scissor.width <= width
            &&& draw.scissor.y + draw.scissor.height <= height
            &&& draw.scissor.width >= 1
            &&& draw.scissor.height >= 1
            &&& textures.contains_key(draw.texture_id)
        }),
{
    lemma_planned_draw_has_mesh(meshes, textures, width, height, k);
}

/// After the uploads of a frame, every identifier that was uploaded is
/// resident, with the description of the image that was uploaded for it
/// last.
pub proof fn lemma_upload_is_resident(
    textures: Map<TextureId, TextureInfo>,
    set: Seq<(TextureId, ImageDelta)>,
    j: int,
)
    requires
        0 <= j < set.len(),
    ensures
        textures_after_uploads(textures, set).contains_key(set[j].0),
        (forall|k: int| j < k < set.len() ==> (#[trigger] set[k]).0 != set[j].0)
            ==> textures_after_uploads(textures, set)[set[j].0] == set[j].1.image.spec_info(),
    decreases set.len(),
{
    if j < set.len() - 1 {
        lemma_upload_is_resident(textures, set.drop_last(), j);
        if forall|k: int| j < k < set.len() ==> (#[trigger] set[k]).0 != set[j].0 {
            assert(set[set.len() - 1].0 != set[j].0);
            assert forall|k: int| j < k < set.drop_last().len() implies (
            #[trigger] set.drop_last()[k]).0 != set.drop_last()[j].0 by {
                assert(set[k].0 != set[j].0);
            }
        }
    }
}

/// The uploads of a frame leave every texture alone that they do not name.
pub proof fn lemma_uploads_keep_others(
    textures: Map<TextureId, TextureInfo>,
    set: Seq<(TextureId, ImageDelta)>,
    id: TextureId,
)
    requires
        forall|j: int| 0 <= j < set.len() ==> (#[trigger] set[j]).0 != id,
    ensures
        textures_after_uploads(textures, set).contains_key(id) == textures.contains_key(id),
        textures.contains_key(id) ==> textures_after_uploads(textures, set)[id] == textures[id],
    decreases set.len(),
{
    if set.len() > 0 {
        assert forall|j: int| 0 <= j < set.drop_last().len() implies (
        #[trigger] set.drop_last()[j]).0 != id by {
            assert(set[j].0 != id);
        }
        lemma_uploads_keep_others(textures, set.drop_last(), id);
        assert(set[set.len() - 1].0 != id);
    }
}

/// After the frees of a frame, a texture is resident exactly if it was
/// resident before and was not freed, and it is then as it was.
pub proof fn lemma_frees_remove_exactly(
    textures: Map<TextureId, TextureInfo>,
    free: Seq<TextureId>,
    id: TextureId,
)
    ensures
        textures_after_frees(textures, free).contains_key(id) <==> textures.contains_key(id)
            && !free.contains(id),
        textures_after_frees(textures, free).contains_key(id) ==> textures_after_frees(
            textures,
            free,
        )[id] == textures[id],
    decreases free.len(),
{
    if free.len() > 0 {
        lemma_frees_remove_exactly(textures, free.drop_last(), id);
        if free.contains(id) {
            let k = choose|k: int| 0 <= k < free.len() && free[k] == id;
            if k < free.len() - 1 {
                assert(free.drop_last()[k] == id);
            }
        }
        if free.drop_last().contains(id) {
            let k = choose|k: int| 0 <= k < free.drop_last().len() && free.drop_last()[k] == id;
            assert(free[k] == id);
        }
        if free.last() == id {
            assert(free[free.len() - 1] == id);
        }
    }
}

/// A mesh whose texture is uploaded in the same frame is drawn with that
/// texture: if the mesh at position `i` samples the texture that the upload
/// at position `j` names, no later upload names it again, and the mesh's clip
/// leaves something to draw, then the frame draws the mesh, and the texture
/// that is resident for the draw is the one that was just uploaded.
pub proof fn lemma_uploaded_texture_is_drawn(
    textures: Map<TextureId, TextureInfo>,
    set: Seq<(TextureId, ImageDelta)>,
    meshes: Seq<ClippedMesh>,
    width: u32,
    height: u32,
    i: int,
    j: int,
)
    requires
        meshes.len() <= usize::MAX,
        0 <= i < meshes.len(),
        0 <= j < set.len(),
        set[j].0 == meshes[i].1.texture_id,
        forall|k: int| j < k < set.len() ==> (#[trigger] set[k]).0 != set[j].0,
        is_visible(meshes[i].0, width, height),
    ensures
        ({
            let resident = textures_after_uploads(textures, set);
            &&& resident.contains_key(meshes[i].1.texture_id)
            &&& resident[meshes[i].1.texture_id] == set[j].1.image.spec_info()
            &&& draw_of(meshes[i], i, resident, width, height) matches Some(draw)
            &&& draw.slot == i
            &&& draw.texture_id == set[j].0
            &&& draws_of(meshes, resident, width, height).contains(draw)
        }),
{
    let resident = textures_after_uploads(textures, set);
    lemma_upload_is_resident(textures, set, j);
    lemma_draw_is_planned(meshes, resident, width, height, i);
}

/// A pool never shrinks, and a frame that writes to it leaves it with at
/// least one slot for each write.
pub proof fn lemma_written_pool_grows(pool: Seq<SizedBuffer>, sizes: Seq<usize>, usage: BufferUsages)
    ensures
        written_pool(pool, sizes, usage).len() >= pool.len(),
        written_pool(pool, sizes, usage).len() >= sizes.len(),
        forall|i: int|
            0 <= i < sizes.len() ==> (#[trigger] written_pool(pool, sizes, usage)[i]).size
                >= sizes[i],
{
}

} // verus!
