//! The draw command sequencer: the exact command sequence that executes one
//! batched draw.
//!
//! Per queue entry the sequence is strictly: set the pipeline, set the view
//! bind group at slot zero, set the mesh bind group at slot one, bind the
//! base mesh's vertex buffer at slot zero, bind the instance buffer at slot
//! one, then — only branching on whether the mesh is indexed — bind the index
//! buffer and draw indexed over the full index range, or draw over the full
//! vertex range; either way with instance count equal to the instance
//! buffer's record count. If the mesh or the instance buffer is missing, the
//! entry fails and not one partial command is issued. An instance count of
//! zero is a legal no-op draw.
use vstd::prelude::*;

use crate::buffer::InstanceBuffer;
use crate::queue::mesh_of;
use crate::queue::resolvable;
use crate::queue::GpuBufferInfo;
use crate::queue::IndexFormat;
use crate::queue::Mesh;
use crate::queue::QueueEntry;
use crate::queue::RenderAssets;
use crate::queue::RenderMesh2dInstances;

verus! {

/// One low-level graphics command, as handed to the render backend.
#[derive(Clone, Copy, Debug, PartialEq, Eq, Structural)]
pub enum DrawCommand {
    SetPipeline { pipeline: usize },
    SetBindGroup { index: u32, bind_group: u64 },
    SetVertexBuffer { slot: u32, buffer: u64 },
    SetIndexBuffer { buffer: u64, index_format: IndexFormat },
    DrawIndexed { index_count: u32, instance_count: u32 },
    Draw { vertex_count: u32, instance_count: u32 },
}

/// Whether a queue entry's draw was issued or reported failed.
#[derive(Clone, Copy, Debug, PartialEq, Eq, Structural)]
pub enum RenderCommandResult {
    Success,
    Failure,
}

/// The command recorder of a render pass: commands are appended in issue
/// order and executed by the backend at the crate's edge.
pub struct TrackedRenderPass {
    pub commands: Vec<DrawCommand>,
}

impl TrackedRenderPass {
    /// A pass with nothing recorded yet.
    pub fn new() -> (r: TrackedRenderPass)
        ensures
            r.commands@.len() == 0,
    {
        TrackedRenderPass { commands: Vec::new() }
    }

    /// Selects the render pipeline.
    pub fn set_render_pipeline(&mut self, pipeline: usize)
        ensures
            final(self).commands@ == old(self).commands@.push(
                DrawCommand::SetPipeline { pipeline },
            ),
    {
        self.commands.push(DrawCommand::SetPipeline { pipeline });
    }

    /// Binds a bind group at a slot.
    pub fn set_bind_group(&mut self, index: u32, bind_group: u64)
        ensures
            final(self).commands@ == old(self).commands@.push(
                DrawCommand::SetBindGroup { index, bind_group },
            ),
    {
        self.commands.push(DrawCommand::SetBindGroup { index, bind_group });
    }

    /// Binds a vertex buffer at a slot.
    pub fn set_vertex_buffer(&mut self, slot: u32, buffer: u64)
        ensures
            final(self).commands@ == old(self).commands@.push(
                DrawCommand::SetVertexBuffer { slot, buffer },
            ),
    {
        self.commands.push(DrawCommand::SetVertexBuffer { slot, buffer });
    }

    /// Binds the index buffer.
    pub fn set_index_buffer(&mut self, buffer: u64, index_format: IndexFormat)
        ensures
            final(self).commands@ == old(self).commands@.push(
                DrawCommand::SetIndexBuffer { buffer, index_format },
            ),
    {
        self.commands.push(DrawCommand::SetIndexBuffer { buffer, index_format });
    }

    /// Issues an indexed draw.
    pub fn draw_indexed(&mut self, index_count: u32, instance_count: u32)
        ensures
            final(self).commands@ == old(self).commands@.push(
                DrawCommand::DrawIndexed { index_count, instance_count },
            ),
    {
        self.commands.push(DrawCommand::DrawIndexed { index_count, instance_count });
    }

    /// Issues a non-indexed draw.
    pub fn draw(&mut self, vertex_count: u32, instance_count: u32)
        ensures
            final(self).commands@ == old(self).commands@.push(
                DrawCommand::Draw { vertex_count, instance_count },
            ),
    {
        self.commands.push(DrawCommand::Draw { vertex_count, instance_count });
    }
}

/// The mesh-and-instances tail of the sequence: both vertex buffers, then
/// the one draw call, indexed exactly when the mesh is indexed, always with
/// instance count equal to the instance buffer's record count.
pub open spec fn mesh_draw_commands(mesh: Mesh, instance_buffer: InstanceBuffer) -> Seq<
    DrawCommand,
> {
    seq![
        DrawCommand::SetVertexBuffer { slot: 0, buffer: mesh.vertex_buffer },
        DrawCommand::SetVertexBuffer { slot: 1, buffer: instance_buffer.buffer },
    ] + match mesh.buffer_info {
        GpuBufferInfo::Indexed { buffer, index_format, count } => seq![
            DrawCommand::SetIndexBuffer { buffer, index_format },
            DrawCommand::DrawIndexed {
                index_count: count,
                instance_count: instance_buffer.length as u32,
            },
        ],
        GpuBufferInfo::NonIndexed => seq![
            DrawCommand::Draw {
                vertex_count: mesh.vertex_count,
                instance_count: instance_buffer.length as u32,
            },
        ],
    }
}

/// The full sequence for one queue entry: pipeline, view bind group at slot
/// zero, mesh bind group at slot one, then the mesh-and-instances tail.
pub open spec fn draw_custom_commands(
    item: QueueEntry,
    view_bind_group: u64,
    mesh_bind_group: u64,
    mesh: Mesh,
    instance_buffer: InstanceBuffer,
) -> Seq<DrawCommand> {
    seq![
        DrawCommand::SetPipeline { pipeline: item.pipeline },
        DrawCommand::SetBindGroup { index: 0, bind_group: view_bind_group },
        DrawCommand::SetBindGroup { index: 1, bind_group: mesh_bind_group },
    ] + mesh_draw_commands(mesh, instance_buffer)
}

/// The batched-draw command.
pub struct DrawMeshInstanced;

impl DrawMeshInstanced {
    /// Issues the mesh-and-instances tail for one queue entry: resolves the
    /// entry's mesh binding and mesh asset, binds the base mesh's vertex
    /// buffer and the instance buffer, and draws the full index or vertex
    /// range with one instance per record. A missing binding, mesh or
    /// instance buffer is a failure for this entry alone, and nothing is
    /// issued for it.
    pub fn render(
        item: &QueueEntry,
        instance_buffer: Option<&InstanceBuffer>,
        meshes: &RenderAssets,
        render_mesh_instances: &RenderMesh2dInstances,
        pass: &mut TrackedRenderPass,
    ) -> (r: RenderCommandResult)
        requires
            instance_buffer matches Some(b) ==> b.length <= u32::MAX,
        ensures
            r == RenderCommandResult::Success <==> (instance_buffer is Some && resolvable(
                item.entity,
                *render_mesh_instances,
                *meshes,
            )),
            r == RenderCommandResult::Failure ==> final(pass).commands@ == old(pass).commands@,
            r == RenderCommandResult::Success ==> final(pass).commands@ == old(pass).commands@
                + mesh_draw_commands(
                mesh_of(item.entity, *render_mesh_instances, *meshes),
                *(instance_buffer->0),
            ),
    {
        let instance_buffer = match instance_buffer {
            Some(b) => b,
            None => {
                return RenderCommandResult::Failure;
            },
        };
        let mesh_instance = match render_mesh_instances.get(item.entity) {
            Some(mi) => *mi,
            None => {
                return RenderCommandResult::Failure;
            },
        };
        let gpu_mesh = match meshes.get(mesh_instance.mesh_asset_id) {
            Some(m) => m,
            None => {
                return RenderCommandResult::Failure;
            },
        };
        pass.set_vertex_buffer(0, gpu_mesh.vertex_buffer);
        pass.set_vertex_buffer(1, instance_buffer.buffer);
        match gpu_mesh.buffer_info {
            GpuBufferInfo::Indexed { buffer, index_format, count } => {
                pass.set_index_buffer(buffer, index_format);
                pass.draw_indexed(count, instance_buffer.length as u32);
            },
            GpuBufferInfo::NonIndexed => {
                pass.draw(gpu_mesh.vertex_count, instance_buffer.length as u32);
            },
        }
        assert(pass.commands@ =~= old(pass).commands@ + mesh_draw_commands(
            mesh_of(item.entity, *render_mesh_instances, *meshes),
            *instance_buffer,
        ));
        RenderCommandResult::Success
    }
}

/// Executes one queue entry from the start: selects the entry's pipeline,
/// binds the view's bind group at slot zero and the mesh bind group at slot
/// one, then issues the batched draw. The entry's resources are resolved
/// before anything is issued: on a missing mesh binding, mesh asset or
/// instance buffer the entry fails with not one command recorded, and the
/// frame's other entries proceed.
pub fn draw_custom(
    item: &QueueEntry,
    view_bind_group: u64,
    mesh_bind_group: u64,
    instance_buffer: Option<&InstanceBuffer>,
    meshes: &RenderAssets,
    render_mesh_instances: &RenderMesh2dInstances,
    pass: &mut TrackedRenderPass,
) -> (r: RenderCommandResult)
    requires
        instance_buffer matches Some(b) ==> b.length <= u32::MAX,
    ensures
        r == RenderCommandResult::Success <==> (instance_buffer is Some && resolvable(
            item.entity,
            *render_mesh_instances,
            *meshes,
        )),
        r == RenderCommandResult::Failure ==> final(pass).commands@ == old(pass).commands@,
        r == RenderCommandResult::Success ==> final(pass).commands@ == old(pass).commands@
            + draw_custom_commands(
            *item,
            view_bind_group,
            mesh_bind_group,
            mesh_of(item.entity, *render_mesh_instances, *meshes),
            *(instance_buffer->0),
        ),
{
    let instance_buffer = match instance_buffer {
        Some(b) => b,
        None => {
            return RenderCommandResult::Failure;
        },
    };
    let mesh_instance = match render_mesh_instances.get(item.entity) {
        Some(mi) => *mi,
        None => {
            return RenderCommandResult::Failure;
        },
    };
    if meshes.get(mesh_instance.mesh_asset_id).is_none() {
        return RenderCommandResult::Failure;
    }
    pass.set_render_pipeline(item.pipeline);
    pass.set_bind_group(0, view_bind_group);
    pass.set_bind_group(1, mesh_bind_group);
    let r = DrawMeshInstanced::render(
        item,
        Some(instance_buffer),
        meshes,
        render_mesh_instances,
        pass,
    );
    assert(r == RenderCommandResult::Success);
    assert(pass.commands@ =~= old(pass).commands@ + draw_custom_commands(
        *item,
        view_bind_group,
        mesh_bind_group,
        mesh_of(item.entity, *render_mesh_instances, *meshes),
        *instance_buffer,
    ));
    r
}

} // verus!
