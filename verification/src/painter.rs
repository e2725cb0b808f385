//! The painter: texture registry and buffer pools, and the frame planned
//! against them.

use crate::buffer::{update_buffer_at, BufferUsages, BufferWrite, SizedBuffer};
use crate::bytes::index_bytes;
use crate::clip::scissor_rect;
use crate::frame::{
    draws_of, index_sizes, is_first_invalid, is_index_write, is_vertex_write,
    load_op_of, textures_after_frees, textures_after_uploads, uploads_are_valid, vertex_sizes,
    written_pool, ClippedMesh, DrawCall, Frame, LoadOp, MeshPass, RenderTarget,
};
use crate::registry::TextureRegistry;
use crate::texture::{
    ImageData, ImageDelta, PaintError, TextureId, TextureInfo, TextureUpload, TexturesDelta,
};
use vstd::prelude::*;

verus! {

/// Keeps track of what is on the device from frame to frame: the resident
/// textures, and one vertex and one index buffer for each draw position.
pub struct Painter {
    textures: TextureRegistry,
    vertex_buffers: Vec<SizedBuffer>,
    index_buffers: Vec<SizedBuffer>,
}

impl Painter {
    /// The resident textures.
    pub closed spec fn textures(&self) -> Map<TextureId, TextureInfo> {
        self.textures@
    }

    /// The vertex pool: the vertex buffer of each draw position.
    pub closed spec fn vertex_pool(&self) -> Seq<SizedBuffer> {
        self.vertex_buffers@
    }

    /// The index pool: the index buffer of each draw position.
    pub closed spec fn index_pool(&self) -> Seq<SizedBuffer> {
        self.index_buffers@
    }

    /// A painter with nothing on the device.
    pub fn new() -> (painter: Self)
        ensures
            painter.textures() == Map::<TextureId, TextureInfo>::empty(),
            painter.vertex_pool() == Seq::<SizedBuffer>::empty(),
            painter.index_pool() == Seq::<SizedBuffer>::empty(),
    {
        Painter {
            textures: TextureRegistry::new(),
            vertex_buffers: Vec::new(),
            index_buffers: Vec::new(),
        }
    }

    /// What is known of the texture that `id` names, or `None` if it is not
    /// resident.
    pub fn texture(&self, id: TextureId) -> (found: Option<TextureInfo>)
        ensures
            found == (if self.textures().contains_key(id) {
                Some(self.textures()[id])
            } else {
                None
            }),
    {
        self.textures.lookup(id)
    }

    /// The vertex pool.
    pub fn vertex_buffers(&self) -> (pool: &Vec<SizedBuffer>)
        ensures
            pool@ == self.vertex_pool(),
    {
        &self.vertex_buffers
    }

    /// The index pool.
    pub fn index_buffers(&self) -> (pool: &Vec<SizedBuffer>)
        ensures
            pool@ == self.index_pool(),
    {
        &self.index_buffers
    }

    /// Registers `image` under `id` and describes its upload.
    fn record_upload<'a>(&mut self, id: TextureId, image: &'a ImageData) -> (upload: TextureUpload<'a>)
        ensures
            upload.is_upload_of(id, image),
            final(self).textures() == old(self).textures().insert(id, image.spec_info()),
            final(self).vertex_pool() == old(self).vertex_pool(),
            final(self).index_pool() == old(self).index_pool(),
    {
        self.textures.upload(id, image.info());
        TextureUpload::new(id, image)
    }

    /// Replaces the texture `tex_id` by the image of `delta` and returns the
    /// upload for the device.
    ///
    /// The image is checked before anything changes: a colour image whose
    /// texel count is not width times height is refused, and the painter is
    /// left as it was. Otherwise the registry holds the new texture under
    /// `tex_id`, whatever it held there before.
    pub fn set_texture<'a>(&mut self, tex_id: TextureId, delta: &'a ImageDelta) -> (r: Result<
        TextureUpload<'a>,
        PaintError,
    >)
        ensures
            r is Ok <==> delta.image.is_valid(),
            match r {
                Ok(upload) => {
                    &&& upload.is_upload_of(tex_id, &delta.image)
                    &&& final(self).textures() == old(self).textures().insert(
                        tex_id,
                        delta.image.spec_info(),
                    )
                },
                Err(e) => {
                    &&& e == delta.image.mismatch()
                    &&& final(self).textures() == old(self).textures()
                },
            },
            final(self).vertex_pool() == old(self).vertex_pool(),
            final(self).index_pool() == old(self).index_pool(),
    {
        match delta.image.check() {
            Ok(()) => Ok(self.record_upload(tex_id, &delta.image)),
            Err(e) => Err(e),
        }
    }

    /// Forgets the texture `id`. Nothing happens if it is not resident.
    pub fn free_texture(&mut self, id: TextureId)
        ensures
            final(self).textures() == old(self).textures().remove(id),
            final(self).vertex_pool() == old(self).vertex_pool(),
            final(self).index_pool() == old(self).index_pool(),
    {
        self.textures.free(id);
    }

    /// Plans the buffer writes and the draws for the meshes of one frame.
    ///
    /// Every mesh writes its vertex and its index data to the slot of its
    /// position, whether it is drawn or not. A mesh is drawn if its scissor
    /// rectangle on the target leaves something to draw and its texture is
    /// resident; the draws keep the order of the meshes.
    pub fn paint_meshes<'a>(
        &mut self,
        target: RenderTarget,
        clipped_meshes: &'a Vec<ClippedMesh>,
    ) -> (pass: MeshPass<'a>)
        ensures
            pass.screen_size@ == seq![target.width, target.height],
            pass.load == load_op_of(target.clear_color),
            pass.vertex_writes@.len() == clipped_meshes@.len(),
            pass.index_writes@.len() == clipped_meshes@.len(),
            forall|i: int|
                0 <= i < clipped_meshes@.len() ==> is_vertex_write(
                    #[trigger] pass.vertex_writes@[i],
                    old(self).vertex_pool(),
                    i,
                    clipped_meshes@[i].1.vertices@,
                ),
            forall|i: int|
                0 <= i < clipped_meshes@.len() ==> is_index_write(
                    #[trigger] pass.index_writes@[i],
                    old(self).index_pool(),
                    i,
                    clipped_meshes@[i].1.indices@,
                ),
            pass.draws@ == draws_of(
                clipped_meshes@,
                old(self).textures(),
                target.width,
                target.height,
            ),
            final(self).vertex_pool() == written_pool(
                old(self).vertex_pool(),
                vertex_sizes(clipped_meshes@),
                BufferUsages::spec_for_vertices(),
            ),
            final(self).index_pool() == written_pool(
                old(self).index_pool(),
                index_sizes(clipped_meshes@),
                BufferUsages::spec_for_indices(),
            ),
            final(self).textures() == old(self).textures(),
    {
        let width: u32 = target.width;
        let height: u32 = target.height;
        let load = match target.clear_color {
            Some(color) => LoadOp::Clear(color),
            None => LoadOp::Load,
        };
        let count: usize = clipped_meshes.len();
        let ghost meshes = clipped_meshes@;
        let ghost vertex_pool = self.vertex_buffers@;
        let ghost index_pool = self.index_buffers@;
        let ghost textures = self.textures@;

        let mut vertex_writes: Vec<BufferWrite<'a>> = Vec::new();
        let mut index_writes: Vec<BufferWrite<'a>> = Vec::new();
        let mut i: usize = 0;
        while i < count
            invariant
                i <= count,
                count == meshes.len(),
                meshes == clipped_meshes@,
                self.textures@ == textures,
                vertex_writes@.len() == i,
                index_writes@.len() == i,
                self.vertex_buffers@ == written_pool(
                    vertex_pool,
                    vertex_sizes(meshes).take(i as int),
                    BufferUsages::spec_for_vertices(),
                ),
                self.index_buffers@ == written_pool(
                    index_pool,
                    index_sizes(meshes).take(i as int),
                    BufferUsages::spec_for_indices(),
                ),
                forall|k: int|
                    0 <= k < i ==> is_vertex_write(
                        #[trigger] vertex_writes@[k],
                        vertex_pool,
                        k,
                        meshes[k].1.vertices@,
                    ),
                forall|k: int|
                    0 <= k < i ==> is_index_write(
                        #[trigger] index_writes@[k],
                        index_pool,
                        k,
                        meshes[k].1.indices@,
                    ),
            decreases count - i,
        {
            let mesh = &clipped_meshes[i].1;
            let ghost vertices_before = self.vertex_buffers@;
            let ghost indices_before = self.index_buffers@;
            let vertex_write = update_buffer_at(
                i,
                &mut self.vertex_buffers,
                mesh.vertices.as_slice(),
                BufferUsages::for_vertices(),
            );
            let index_data: &'a [u8] = index_bytes(mesh.indices.as_slice());
            let index_write = update_buffer_at(
                i,
                &mut self.index_buffers,
                index_data,
                BufferUsages::for_indices(),
            );
            vertex_writes.push(vertex_write);
            index_writes.push(index_write);
            proof {
                assert(self.vertex_buffers@ =~= written_pool(
                    vertex_pool,
                    vertex_sizes(meshes).take(i + 1),
                    BufferUsages::spec_for_vertices(),
                ));
                assert(self.index_buffers@ =~= written_pool(
                    index_pool,
                    index_sizes(meshes).take(i + 1),
                    BufferUsages::spec_for_indices(),
                ));
            }
            i += 1;
        }
        proof {
            assert(vertex_sizes(meshes).take(count as int) =~= vertex_sizes(meshes));
            assert(index_sizes(meshes).take(count as int) =~= index_sizes(meshes));
        }

        let mut draws: Vec<DrawCall> = Vec::new();
        let mut i: usize = 0;
        while i < count
            invariant
                i <= count,
                count == meshes.len(),
                meshes == clipped_meshes@,
                self.textures@ == textures,
                draws@ == draws_of(meshes.take(i as int), textures, width, height),
            decreases count - i,
        {
            let clip = clipped_meshes[i].0;
            let mesh = &clipped_meshes[i].1;
            proof {
                assert(meshes.take(i + 1).drop_last() =~= meshes.take(i as int));
                assert(meshes.take(i + 1).last() == meshes[i as int]);
            }
            match scissor_rect(clip, width, height) {
                Some(scissor) => {
                    if self.textures.lookup(mesh.texture_id).is_some() {
                        draws.push(
                            DrawCall {
                                slot: i,
                                scissor,
                                texture_id: mesh.texture_id,
                                index_count: #[verifier::truncate]
                                (mesh.indices.len() as u32),
                            },
                        );
                    }
                },
                None => {},
            }
            i += 1;
        }
        proof {
            assert(meshes.take(count as int) =~= meshes);
        }
        MeshPass { screen_size: [width, height], vertex_writes, index_writes, load, draws }
    }

    /// Plans one frame: the uploads of the delta, the buffer writes and the
    /// draws of the meshes, and the frees of the delta, in this order.
    ///
    /// Every image of the delta is checked before anything changes. If one
    /// may not be uploaded, the first such image is reported and the painter
    /// is left as it was. Otherwise the meshes are drawn with the textures
    /// that are resident once all uploads are applied, and the frees take
    /// effect after the draws.
    pub fn paint_and_update_textures<'a>(
        &mut self,
        target: RenderTarget,
        clipped_meshes: &'a Vec<ClippedMesh>,
        textures_delta: &'a TexturesDelta,
    ) -> (r: Result<Frame<'a>, PaintError>)
        ensures
            r is Ok <==> uploads_are_valid(textures_delta.set@),
            r matches Err(e) ==> {
                &&& exists|j: int|
                    is_first_invalid(textures_delta.set@, j) && e == (
                    #[trigger] textures_delta.set@[j]).1.image.mismatch()
                &&& final(self).textures() == old(self).textures()
                &&& final(self).vertex_pool() == old(self).vertex_pool()
                &&& final(self).index_pool() == old(self).index_pool()
            },
            r matches Ok(frame) ==> {
                &&& frame.uploads@.len() == textures_delta.set@.len()
                &&& forall|j: int|
                    0 <= j < textures_delta.set@.len() ==> (#[trigger] frame.uploads@[j]).is_upload_of(
                        textures_delta.set@[j].0,
                        &textures_delta.set@[j].1.image,
                    )
                &&& frame.pass.screen_size@ == seq![target.width, target.height]
                &&& frame.pass.load == load_op_of(target.clear_color)
                &&& frame.pass.vertex_writes@.len() == clipped_meshes@.len()
                &&& frame.pass.index_writes@.len() == clipped_meshes@.len()
                &&& forall|i: int|
                    0 <= i < clipped_meshes@.len() ==> is_vertex_write(
                        #[trigger] frame.pass.vertex_writes@[i],
                        old(self).vertex_pool(),
                        i,
                        clipped_meshes@[i].1.vertices@,
                    )
                &&& forall|i: int|
                    0 <= i < clipped_meshes@.len() ==> is_index_write(
                        #[trigger] frame.pass.index_writes@[i],
                        old(self).index_pool(),
                        i,
                        clipped_meshes@[i].1.indices@,
                    )
                &&& frame.pass.draws@ == draws_of(
                    clipped_meshes@,
                    textures_after_uploads(old(self).textures(), textures_delta.set@),
                    target.width,
                    target.height,
                )
                &&& frame.frees@ == textures_delta.free@
                &&& final(self).textures() == textures_after_frees(
                    textures_after_uploads(old(self).textures(), textures_delta.set@),
                    textures_delta.free@,
                )
                &&& final(self).vertex_pool() == written_pool(
                    old(self).vertex_pool(),
                    vertex_sizes(clipped_meshes@),
                    BufferUsages::spec_for_vertices(),
                )
                &&& final(self).index_pool() == written_pool(
                    old(self).index_pool(),
                    index_sizes(clipped_meshes@),
                    BufferUsages::spec_for_indices(),
                )
            },
    {
        let ghost set = textures_delta.set@;
        let ghost free = textures_delta.free@;
        let ghost textures = self.textures@;
        let set_count: usize = textures_delta.set.len();
        let mut j: usize = 0;
        while j < set_count
            invariant
                j <= set_count,
                set_count == set.len(),
                set == textures_delta.set@,
                forall|k: int| 0 <= k < j ==> (#[trigger] set[k]).1.image.is_valid(),
            decreases set_count - j,
        {
            match textures_delta.set[j].1.image.check() {
                Ok(()) => {},
                Err(e) => {
                    proof {
                        assert(is_first_invalid(set, j as int));
                    }
                    return Err(e);
                },
            }
            j += 1;
        }

        let mut uploads: Vec<TextureUpload<'a>> = Vec::new();
        let mut j: usize = 0;
        while j < set_count
            invariant
                j <= set_count,
                set_count == set.len(),
                set == textures_delta.set@,
                uploads@.len() == j,
                forall|k: int|
                    0 <= k < j ==> (#[trigger] uploads@[k]).is_upload_of(set[k].0, &set[k].1.image),
                self.textures@ == textures_after_uploads(textures, set.take(j as int)),
                self.vertex_buffers@ == old(self).vertex_buffers@,
                self.index_buffers@ == old(self).index_buffers@,
            decreases set_count - j,
        {
            let id = textures_delta.set[j].0;
            let image = &textures_delta.set[j].1.image;
            proof {
                assert(set.take(j + 1).drop_last() =~= set.take(j as int));
                assert(set.take(j + 1).last() == set[j as int]);
            }
            let upload = self.record_upload(id, image);
            uploads.push(upload);
            j += 1;
        }
        proof {
            assert(set.take(set_count as int) =~= set);
        }

        let pass = self.paint_meshes(target, clipped_meshes);

        let ghost drawn = self.textures@;
        let ghost vertex_pool = self.vertex_buffers@;
        let ghost index_pool = self.index_buffers@;
        let free_count: usize = textures_delta.free.len();
        let mut frees: Vec<TextureId> = Vec::new();
        let mut j: usize = 0;
        while j < free_count
            invariant
                j <= free_count,
                free_count == free.len(),
                free == textures_delta.free@,
                frees@ == free.take(j as int),
                self.textures@ == textures_after_frees(drawn, free.take(j as int)),
                self.vertex_buffers@ == vertex_pool,
                self.index_buffers@ == index_pool,
            decreases free_count - j,
        {
            let id = textures_delta.free[j];
            proof {
                assert(free.take(j + 1).drop_last() =~= free.take(j as int));
                assert(free.take(j + 1).last() == free[j as int]);
            }
            self.free_texture(id);
            frees.push(id);
            proof {
                assert(frees@ =~= free.take(j + 1));
            }
            j += 1;
        }
        proof {
            assert(free.take(free_count as int) =~= free);
        }
        Ok(Frame { uploads, pass, frees })
    }
}

} // verus!
