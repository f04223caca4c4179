use vstd::prelude::*;

use crate::binding::{BindingMismatchError, BindingSet, BindingSetLayout, SlotDesc, Visibility};
use crate::dispatch::required_grid;
use crate::graph::{GraphError, Stage, StageGraph, StageKind};
use crate::resources::{
    buffer_desc, buffer_supported, staging_usage, texture_supported, view_capability, AllocationError,
    Capability, Extent, ResourceDesc, ResourceHandle, ResourceRegistry, ResourceView, TextureDesc,
    TextureDimension, TextureFormat, TextureUpload, Usage, ViewAccess,
};

verus! {

/// Side of the square output surface and of the 2D fields.
pub const SIDE: u32 = 512;

/// Depth of the volumetric field.
pub const VOLUME_DEPTH: u32 = 64;

/// The resources and the graph of the pipeline's fixed chain: a generator
/// writes `plan`; propagation reads the time uniform, the sampler, `plan`
/// and the static image `text` and writes the volume `raid`; projection
/// reads `raid` and writes `trade`; the render stage reads the uniform, the
/// sampler and `trade`.
pub struct ReferenceChain {
    pub graph: StageGraph,
    pub uniform: ResourceHandle,
    pub sampler: ResourceHandle,
    pub plan: ResourceHandle,
    pub text: ResourceHandle,
    pub raid: ResourceHandle,
    pub trade: ResourceHandle,
    pub vertices: ResourceHandle,
    pub upload: TextureUpload,
}

#[derive(Clone, Copy, Debug, PartialEq, Eq, Structural)]
pub enum ChainError {
    Allocation(AllocationError),
    Binding(BindingMismatchError),
    Graph(GraphError),
}

pub open spec fn no_usage() -> Usage {
    Usage {
        transfer_src: false,
        transfer_dst: false,
        uniform: false,
        sampled: false,
        storage: false,
        vertex: false,
        render_target: false,
        map_write: false,
    }
}

pub open spec fn uniform_desc() -> ResourceDesc {
    ResourceDesc::Buffer {
        size: 4,
        usage: Usage { uniform: true, transfer_dst: true, map_write: true, ..no_usage() },
    }
}

pub open spec fn vertex_usage() -> Usage {
    Usage { vertex: true, storage: true, transfer_dst: true, ..no_usage() }
}

pub open spec fn field_desc(format: TextureFormat, sampled: bool) -> TextureDesc {
    TextureDesc {
        dimension: TextureDimension::D2,
        size: Extent { width: SIDE, height: SIDE, depth: 1 },
        format,
        usage: Usage { storage: true, sampled, ..no_usage() },
    }
}

pub open spec fn volume_desc() -> TextureDesc {
    TextureDesc {
        dimension: TextureDimension::D3,
        size: Extent { width: SIDE, height: SIDE, depth: VOLUME_DEPTH },
        format: TextureFormat::R16Float,
        usage: Usage { storage: true, ..no_usage() },
    }
}

pub open spec fn asset_desc(width: u32, height: u32) -> TextureDesc {
    TextureDesc {
        dimension: TextureDimension::D2,
        size: Extent { width, height, depth: 1 },
        format: TextureFormat::Rgba8UnormSrgb,
        usage: Usage { sampled: true, transfer_dst: true, ..no_usage() },
    }
}

pub open spec fn h(id: int) -> ResourceHandle {
    ResourceHandle { id: id as usize }
}

/// The stage of the chain at position `i`, over the resources allocated
/// from handle id `base` on.
pub open spec fn chain_stage_ok(s: Stage, i: int, base: int) -> bool {
    let field = Extent { width: 32, height: 32, depth: 1 };
    let volume = Extent { width: 64, height: 64, depth: 16 };
    if i == 0 {
        &&& s.kind == StageKind::Compute { program: 0, grid: field }
        &&& s.reads@ == Seq::<ResourceHandle>::empty()
        &&& s.writes@ == seq![h(base + 2)]
    } else if i == 1 {
        &&& s.kind == StageKind::Compute { program: 1, grid: volume }
        &&& s.reads@ == seq![h(base), h(base + 1), h(base + 2), h(base + 3)]
        &&& s.writes@ == seq![h(base + 5)]
    } else if i == 2 {
        &&& s.kind == StageKind::Compute { program: 2, grid: field }
        &&& s.reads@ == seq![h(base + 5)]
        &&& s.writes@ == seq![h(base + 6)]
    } else {
        &&& s.kind == StageKind::Render {
            vertex_program: 3,
            fragment_program: 4,
            vertex_buffer: h(base + 7),
            vertex_count: 3,
        }
        &&& s.reads@ == seq![h(base), h(base + 1), h(base + 6)]
        &&& s.writes@ == Seq::<ResourceHandle>::empty()
    }
}

fn shared() -> (r: Visibility)
    ensures
        r == (Visibility { vertex: false, fragment: true, compute: true }),
{
    Visibility { vertex: false, fragment: true, compute: true }
}

/// A one-slot set holding `v`, for a slot that needs `cap`.
fn set_of(v: ResourceView, cap: Capability, vis: Visibility) -> (r: Result<BindingSet, ChainError>)
    requires
        vis.fragment,
        !vis.vertex,
    ensures
        v@.capability == Some(cap) ==> r is Ok,
        r matches Ok(b) ==> b.views_view() == seq![v],
{
    let layout = BindingSetLayout { slots: vec![SlotDesc { binding: 0, visibility: vis, capability: cap }] };
    let views = vec![v];
    match BindingSet::create(layout, views) {
        Ok(b) => Ok(b),
        Err(e) => Err(ChainError::Binding(e)),
    }
}

fn open(registry: &ResourceRegistry, hd: ResourceHandle, access: ViewAccess) -> (r: Result<
    ResourceView,
    ChainError,
>)
    ensures
        hd.id < registry@.len() && view_capability(registry@[hd.id as int], access) is Some ==> (r
            matches Ok(v) && v@.handle == hd && v@.capability == view_capability(
            registry@[hd.id as int],
            access,
        )),
        r matches Ok(v) ==> v@.handle == hd,
{
    match registry.open_view(hd, access) {
        Some(v) => Ok(v),
        None => Err(ChainError::Binding(BindingMismatchError { slot: 0 })),
    }
}

/// The set of the time uniform and the sampler.
fn context_set(registry: &ResourceRegistry, uniform: ResourceHandle, sampler: ResourceHandle) -> (r:
    Result<BindingSet, ChainError>)
    ensures
        uniform.id < registry@.len() && sampler.id < registry@.len() && view_capability(
            registry@[uniform.id as int],
            ViewAccess::UniformRead,
        ) == Some(Capability::UniformBuffer) && view_capability(
            registry@[sampler.id as int],
            ViewAccess::Filtering,
        ) == Some(Capability::Sampler) ==> r is Ok,
        r matches Ok(b) ==> b.views_view().len() == 2 && b.views_view()[0]@.handle == uniform
            && b.views_view()[1]@.handle == sampler,
{
    let u = open(registry, uniform, ViewAccess::UniformRead)?;
    let s = open(registry, sampler, ViewAccess::Filtering)?;
    let layout = BindingSetLayout {
        slots: vec![
            SlotDesc { binding: 0, visibility: shared(), capability: Capability::UniformBuffer },
            SlotDesc { binding: 1, visibility: shared(), capability: Capability::Sampler },
        ],
    };
    match BindingSet::create(layout, vec![u, s]) {
        Ok(b) => Ok(b),
        Err(e) => Err(ChainError::Binding(e)),
    }
}

fn storage_set(registry: &ResourceRegistry, hd: ResourceHandle, dim: TextureDimension) -> (r: Result<
    BindingSet,
    ChainError,
>)
    ensures
        hd.id < registry@.len() && view_capability(registry@[hd.id as int], ViewAccess::StorageReadWrite)
            == Some(Capability::StorageTexture(dim)) ==> r is Ok,
        r matches Ok(b) ==> b.views_view().len() == 1 && b.views_view()[0]@.handle == hd,
{
    let v = open(registry, hd, ViewAccess::StorageReadWrite)?;
    set_of(v, Capability::StorageTexture(dim), shared())
}

fn allocate(registry: &mut ResourceRegistry, d: ResourceDesc) -> (r: Result<ResourceHandle, ChainError>)
    requires
        old(registry).wf(),
        old(registry)@.len() < usize::MAX,
    ensures
        final(registry).wf(),
        r matches Ok(hd) ==> hd.id == old(registry)@.len() && final(registry)@ == old(
            registry,
        )@.push(d) && final(registry).contents() == old(registry).contents().push(None),
        crate::resources::supported(d) <==> r is Ok,
{
    match registry.create(d) {
        Ok(hd) => Ok(hd),
        Err(e) => Err(ChainError::Allocation(e)),
    }
}

/// Allocates the chain's resources from handle id `old(registry)@.len()`
/// on, in this order: the time uniform (zero-filled), the sampler, `plan`,
/// the `asset_width` × `asset_height` static image `text` with its staging
/// buffer holding `asset`, `raid`, `trade`, and the vertex buffer holding
/// `vertex_data`; binds them and builds the four-stage graph, with grids
/// that cover each stage's output. Fails, allocating nothing more, exactly
/// when the image, its staging buffer or the vertex buffer cannot be held.
pub fn reference_chain(
    registry: &mut ResourceRegistry,
    asset: &[u8],
    asset_width: u32,
    asset_height: u32,
    vertex_data: &[u8],
) -> (r: Result<ReferenceChain, ChainError>)
    requires
        old(registry).wf(),
        old(registry)@.len() + 10 < usize::MAX,
    ensures
        final(registry).wf(),
        (texture_supported(asset_desc(asset_width, asset_height)) && buffer_supported(
            asset@.len() as int,
            staging_usage(),
        ) && buffer_supported(vertex_data@.len() as int, vertex_usage())) <==> r is Ok,
        r is Err ==> r matches Err(ChainError::Allocation(_)),
        r matches Ok(c) ==> {
            let base = old(registry)@.len() as int;
            &&& c.uniform == h(base) && c.sampler == h(base + 1) && c.plan == h(base + 2)
            &&& c.text == h(base + 3) && c.upload.staging == h(base + 4)
            &&& c.raid == h(base + 5) && c.trade == h(base + 6) && c.vertices == h(base + 7)
            &&& c.upload.texture == c.text
            &&& c.upload.bytes_per_row == 4 * asset_width
            &&& c.upload.rows_per_image == asset_height
            &&& c.upload.extent == asset_desc(asset_width, asset_height).size
            &&& final(registry)@ == old(registry)@.push(uniform_desc()).push(
                ResourceDesc::Sampler,
            ).push(ResourceDesc::Texture(field_desc(TextureFormat::Rgba32Float, false))).push(
                ResourceDesc::Texture(asset_desc(asset_width, asset_height)),
            ).push(buffer_desc(asset@.len() as int, staging_usage())).push(
                ResourceDesc::Texture(volume_desc()),
            ).push(ResourceDesc::Texture(field_desc(TextureFormat::R16Float, true))).push(
                buffer_desc(vertex_data@.len() as int, vertex_usage()),
            )
            &&& final(registry).contents() == old(registry).contents().push(None).push(None).push(
                None,
            ).push(None).push(Some(asset@)).push(None).push(None).push(Some(vertex_data@))
            &&& c.graph.stages_view().len() == 4
            &&& forall|i: int| 0 <= i < 4 ==> chain_stage_ok(#[trigger] c.graph.stages_view()[i], i, base)
            &&& c.graph.wf()
        },
{
    let ghost base = registry@.len() as int;
    let uniform = allocate(registry, ResourceDesc::Buffer {
        size: 4,
        usage: Usage {
            transfer_src: false,
            transfer_dst: true,
            uniform: true,
            sampled: false,
            storage: false,
            vertex: false,
            render_target: false,
            map_write: true,
        },
    })?;
    let sampler = allocate(registry, ResourceDesc::Sampler)?;
    let none = Usage {
        transfer_src: false,
        transfer_dst: false,
        uniform: false,
        sampled: false,
        storage: false,
        vertex: false,
        render_target: false,
        map_write: false,
    };
    let side = Extent { width: SIDE, height: SIDE, depth: 1 };
    let plan = allocate(registry, ResourceDesc::Texture(TextureDesc {
        dimension: TextureDimension::D2,
        size: side,
        format: TextureFormat::Rgba32Float,
        usage: Usage { storage: true, ..none },
    }))?;
    let asset_texture = TextureDesc {
        dimension: TextureDimension::D2,
        size: Extent { width: asset_width, height: asset_height, depth: 1 },
        format: TextureFormat::Rgba8UnormSrgb,
        usage: Usage { sampled: true, transfer_dst: true, ..none },
    };
    let (text_view, upload) = match registry.create_texture_view_with_data(asset, asset_texture) {
        Ok(p) => p,
        Err(e) => {
            return Err(ChainError::Allocation(e));
        },
    };
    let raid = allocate(registry, ResourceDesc::Texture(TextureDesc {
        dimension: TextureDimension::D3,
        size: Extent { width: SIDE, height: SIDE, depth: VOLUME_DEPTH },
        format: TextureFormat::R16Float,
        usage: Usage { storage: true, ..none },
    }))?;
    let trade = allocate(registry, ResourceDesc::Texture(TextureDesc {
        dimension: TextureDimension::D2,
        size: side,
        format: TextureFormat::R16Float,
        usage: Usage { storage: true, sampled: true, ..none },
    }))?;
    let vertices = match registry.create_buffer_with_data(
        vertex_data,
        Usage { vertex: true, storage: true, transfer_dst: true, ..none },
    ) {
        Ok(v) => v,
        Err(e) => {
            return Err(ChainError::Allocation(e));
        },
    };
    let text = text_view.handle();

    let field_grid = required_grid(side, Extent { width: 16, height: 16, depth: 1 });
    let volume_grid = required_grid(
        Extent { width: SIDE, height: SIDE, depth: VOLUME_DEPTH },
        Extent { width: 8, height: 8, depth: 4 },
    );

    assert(field_grid == Extent { width: 32, height: 32, depth: 1 });
    assert(volume_grid == Extent { width: 64, height: 64, depth: 16 });
    let generator = Stage {
        kind: StageKind::Compute { program: 0, grid: field_grid },
        bindings: vec![storage_set(registry, plan, TextureDimension::D2)?],
        reads: vec![],
        writes: vec![plan],
    };
    let propagation = Stage {
        kind: StageKind::Compute { program: 1, grid: volume_grid },
        bindings: vec![
            context_set(registry, uniform, sampler)?,
            storage_set(registry, plan, TextureDimension::D2)?,
            set_of(text_view, Capability::SampledTexture(TextureDimension::D2), shared())?,
            storage_set(registry, raid, TextureDimension::D3)?,
        ],
        reads: vec![uniform, sampler, plan, text],
        writes: vec![raid],
    };
    let projection = Stage {
        kind: StageKind::Compute { program: 2, grid: field_grid },
        bindings: vec![
            storage_set(registry, raid, TextureDimension::D3)?,
            storage_set(registry, trade, TextureDimension::D2)?,
        ],
        reads: vec![raid],
        writes: vec![trade],
    };
    let trade_view = open(registry, trade, ViewAccess::SampledRead)?;
    let render = Stage {
        kind: StageKind::Render {
            vertex_program: 3,
            fragment_program: 4,
            vertex_buffer: vertices,
            vertex_count: 3,
        },
        bindings: vec![
            context_set(registry, uniform, sampler)?,
            set_of(
                trade_view,
                Capability::SampledTexture(TextureDimension::D2),
                Visibility { vertex: false, fragment: true, compute: false },
            )?,
        ],
        reads: vec![uniform, sampler, trade],
        writes: vec![],
    };
    let stages = vec![generator, propagation, projection, render];
    let graph = match StageGraph::build(stages) {
        Ok(g) => g,
        Err(e) => {
            return Err(ChainError::Graph(e));
        },
    };
    assert(uniform == h(base) && sampler == h(base + 1) && plan == h(base + 2));
    assert(text == h(base + 3) && upload.staging == h(base + 4));
    assert(raid == h(base + 5) && trade == h(base + 6) && vertices == h(base + 7));
    assert(upload.bytes_per_row == 4 * asset_width);
    assert(graph.stages_view().len() == 4);
    let ghost field = Extent { width: 32, height: 32, depth: 1 };
    let ghost volume = Extent { width: 64, height: 64, depth: 16 };
    assert(graph.stages_view()[0].kind == StageKind::Compute { program: 0, grid: field });
    assert(graph.stages_view()[0].reads@ == Seq::<ResourceHandle>::empty());
    assert(graph.stages_view()[0].writes@ == seq![h(base + 2)]);
    assert(chain_stage_ok(graph.stages_view()[0], 0, base));
    assert(graph.stages_view()[1].kind == StageKind::Compute { program: 1, grid: volume });
    assert(graph.stages_view()[1].reads@ == seq![
        h(base),
        h(base + 1),
        h(base + 2),
        h(base + 3),
    ]);
    assert(graph.stages_view()[1].writes@ == seq![h(base + 5)]);
    assert(chain_stage_ok(graph.stages_view()[1], 1, base));
    assert(graph.stages_view()[2].kind == StageKind::Compute { program: 2, grid: field });
    assert(graph.stages_view()[2].reads@ == seq![h(base + 5)]);
    assert(graph.stages_view()[2].writes@ == seq![h(base + 6)]);
    assert(chain_stage_ok(graph.stages_view()[2], 2, base));
    assert(chain_stage_ok(graph.stages_view()[3], 3, base));
    Ok(ReferenceChain { graph, uniform, sampler, plan, text, raid, trade, vertices, upload })
}

} // verus!
