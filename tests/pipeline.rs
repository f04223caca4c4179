use frame_pipeline::binding::{BindingMismatchError, BindingSet, BindingSetLayout, SlotDesc, Visibility};
use frame_pipeline::dispatch::{groups_for, required_grid};
use frame_pipeline::chain::{reference_chain, ChainError, ReferenceChain};
use frame_pipeline::graph::{Command, GraphError, StageGraph};
use frame_pipeline::resources::{
    AllocationError, Capability, Extent, ResourceDesc, ResourceHandle, ResourceRegistry,
    ResourceView, TextureDesc, TextureDimension, TextureFormat, Usage, ViewAccess,
};
use frame_pipeline::scheduler::{FramePlan, FrameScheduler, Phase};

fn no_usage() -> Usage {
    Usage {
        transfer_src: false,
        transfer_dst: false,
        uniform: false,
        sampled: false,
        storage: false,
        vertex: false,
        render_target: false,
        map_write: false,
    }
}

fn shared() -> Visibility {
    Visibility { vertex: false, fragment: true, compute: true }
}

fn slot(binding: u32, visibility: Visibility, capability: Capability) -> SlotDesc {
    SlotDesc { binding, visibility, capability }
}

fn single(capability: Capability) -> BindingSetLayout {
    BindingSetLayout { slots: vec![slot(0, shared(), capability)] }
}

fn view(r: &ResourceRegistry, h: ResourceHandle, a: ViewAccess) -> ResourceView {
    r.open_view(h, a).unwrap()
}

fn storage_set(r: &ResourceRegistry, h: ResourceHandle, dim: TextureDimension) -> BindingSet {
    BindingSet::create(single(Capability::StorageTexture(dim)), vec![view(r, h, ViewAccess::StorageReadWrite)])
        .unwrap()
}

struct Chain {
    registry: ResourceRegistry,
    chain: ReferenceChain,
}

fn vertex_bytes() -> Vec<u8> {
    (0u8..24).collect()
}

fn build_chain(asset: &[u8], asset_side: u32) -> Chain {
    let mut registry = ResourceRegistry::new();
    let chain = reference_chain(&mut registry, asset, asset_side, asset_side, &vertex_bytes()).unwrap();
    Chain { registry, chain }
}

fn small_asset() -> Vec<u8> {
    vec![7u8; 4 * 4 * 4]
}

#[test]
fn propagation_grid_covers_volume() {
    let g = required_grid(
        Extent { width: 512, height: 512, depth: 64 },
        Extent { width: 8, height: 8, depth: 4 },
    );
    assert_eq!((g.width, g.height, g.depth), (64, 64, 16));
}

#[test]
fn field_grid_covers_plane() {
    let g = required_grid(
        Extent { width: 512, height: 512, depth: 1 },
        Extent { width: 16, height: 16, depth: 1 },
    );
    assert_eq!((g.width, g.height, g.depth), (32, 32, 1));
}

#[test]
fn groups_round_up() {
    assert_eq!(groups_for(10, 4), 3);
    assert_eq!(groups_for(8, 4), 2);
    assert_eq!(groups_for(0, 4), 0);
    assert_eq!(groups_for(1, 1), 1);
    assert_eq!(groups_for(u32::MAX, 2), 2147483648);
    assert_eq!(groups_for(u32::MAX, 1), u32::MAX);
}

#[test]
fn registry_hands_out_handles_in_order() {
    let mut r = ResourceRegistry::new();
    let a = r.create(ResourceDesc::Sampler).unwrap();
    let b = r
        .create(ResourceDesc::Buffer { size: 4, usage: Usage { uniform: true, ..no_usage() } })
        .unwrap();
    assert_eq!(a.id, 0);
    assert_eq!(b.id, 1);
    assert_eq!(r.len(), 2);
    assert_eq!(r.desc(a), Some(ResourceDesc::Sampler));
    assert_eq!(r.desc(ResourceHandle { id: 5 }), None);
}

#[test]
fn unsupported_resources_fail_without_allocating() {
    let mut r = ResourceRegistry::new();
    let srgb_storage = ResourceDesc::Texture(TextureDesc {
        dimension: TextureDimension::D2,
        size: Extent { width: 64, height: 64, depth: 1 },
        format: TextureFormat::Rgba8UnormSrgb,
        usage: Usage { storage: true, ..no_usage() },
    });
    assert_eq!(r.create(srgb_storage), Err(AllocationError { resource: 0 }));
    let too_wide = ResourceDesc::Texture(TextureDesc {
        dimension: TextureDimension::D2,
        size: Extent { width: 8193, height: 1, depth: 1 },
        format: TextureFormat::R16Float,
        usage: Usage { sampled: true, ..no_usage() },
    });
    assert_eq!(r.create(too_wide), Err(AllocationError { resource: 0 }));
    let deep_2d = ResourceDesc::Texture(TextureDesc {
        dimension: TextureDimension::D2,
        size: Extent { width: 4, height: 4, depth: 2 },
        format: TextureFormat::R16Float,
        usage: Usage { sampled: true, ..no_usage() },
    });
    assert_eq!(r.create(deep_2d), Err(AllocationError { resource: 0 }));
    let empty = ResourceDesc::Buffer { size: 0, usage: Usage { uniform: true, ..no_usage() } };
    assert_eq!(r.create(empty), Err(AllocationError { resource: 0 }));
    assert_eq!(r.len(), 0);
    let big_volume = ResourceDesc::Texture(TextureDesc {
        dimension: TextureDimension::D3,
        size: Extent { width: 512, height: 512, depth: 64 },
        format: TextureFormat::R16Float,
        usage: Usage { storage: true, ..no_usage() },
    });
    assert_eq!(r.create(big_volume), Ok(ResourceHandle { id: 0 }));
}

#[test]
fn views_follow_usage() {
    let c = build_chain(&small_asset(), 4);
    let r = &c.registry;
    assert_eq!(
        r.open_view(c.chain.trade, ViewAccess::SampledRead).unwrap().capability(),
        Some(Capability::SampledTexture(TextureDimension::D2))
    );
    assert_eq!(
        r.open_view(c.chain.raid, ViewAccess::StorageReadWrite).unwrap().capability(),
        Some(Capability::StorageTexture(TextureDimension::D3))
    );
    assert_eq!(r.open_view(c.chain.raid, ViewAccess::SampledRead), None);
    assert_eq!(r.open_view(c.chain.plan, ViewAccess::UniformRead), None);
    assert_eq!(
        r.open_view(c.chain.uniform, ViewAccess::UniformRead).unwrap().capability(),
        Some(Capability::UniformBuffer)
    );
    assert_eq!(r.open_view(ResourceHandle { id: 99 }, ViewAccess::Filtering), None);
}

#[test]
fn time_uniform_is_mappable() {
    let c = build_chain(&small_asset(), 4);
    assert!(c.registry.can_map_for_write(c.chain.uniform, 0, 4));
    assert!(!c.registry.can_map_for_write(c.chain.uniform, 1, 4));
    assert!(!c.registry.can_map_for_write(c.chain.plan, 0, 4));
    assert!(!c.registry.can_map_for_write(c.chain.uniform, u64::MAX, 2));
}

#[test]
fn texture_with_data_describes_upload() {
    let mut r = ResourceRegistry::new();
    r.create(ResourceDesc::Sampler).unwrap();
    let data = vec![1u8; 2048 * 4];
    let desc = TextureDesc {
        dimension: TextureDimension::D2,
        size: Extent { width: 2048, height: 1, depth: 1 },
        format: TextureFormat::Rgba8UnormSrgb,
        usage: Usage { sampled: true, transfer_dst: true, ..no_usage() },
    };
    let (v, up) = r.create_texture_view_with_data(&data, desc).unwrap();
    assert_eq!(v.handle(), ResourceHandle { id: 1 });
    assert_eq!(v.capability(), Some(Capability::SampledTexture(TextureDimension::D2)));
    assert_eq!(up.texture, ResourceHandle { id: 1 });
    assert_eq!(up.staging, ResourceHandle { id: 2 });
    assert_eq!(up.bytes_per_row, 8192);
    assert_eq!(up.rows_per_image, 1);
    assert_eq!(up.extent, desc.size);
    assert_eq!(r.len(), 3);
    assert_eq!(r.desc(up.texture), Some(ResourceDesc::Texture(desc)));
    assert_eq!(
        r.desc(up.staging),
        Some(ResourceDesc::Buffer { size: 8192, usage: Usage { transfer_src: true, ..no_usage() } })
    );
}

#[test]
fn texture_with_data_row_pitch_follows_format() {
    let mut r = ResourceRegistry::new();
    let desc = TextureDesc {
        dimension: TextureDimension::D2,
        size: Extent { width: 10, height: 3, depth: 1 },
        format: TextureFormat::R16Float,
        usage: Usage { sampled: true, transfer_dst: true, ..no_usage() },
    };
    let (_, up) = r.create_texture_view_with_data(&[0u8; 60], desc).unwrap();
    assert_eq!(up.bytes_per_row, 20);
    assert_eq!(up.rows_per_image, 3);
}

#[test]
fn texture_with_data_rejects_empty_or_unsupported() {
    let mut r = ResourceRegistry::new();
    let desc = TextureDesc {
        dimension: TextureDimension::D2,
        size: Extent { width: 4, height: 4, depth: 1 },
        format: TextureFormat::Rgba8UnormSrgb,
        usage: Usage { sampled: true, transfer_dst: true, ..no_usage() },
    };
    assert_eq!(
        r.create_texture_view_with_data(&[], desc).err(),
        Some(AllocationError { resource: 0 })
    );
    let storage_srgb = TextureDesc { usage: Usage { storage: true, ..no_usage() }, ..desc };
    assert_eq!(
        r.create_texture_view_with_data(&[0u8; 64], storage_srgb).err(),
        Some(AllocationError { resource: 0 })
    );
    assert_eq!(r.len(), 0);
}

#[test]
fn binding_set_accepts_matching_views() {
    let c = build_chain(&small_asset(), 4);
    let set = storage_set(&c.registry, c.chain.raid, TextureDimension::D3);
    assert_eq!(set.views().len(), 1);
    assert_eq!(set.views()[0].handle(), c.chain.raid);
    assert_eq!(set.slots()[0].capability, Capability::StorageTexture(TextureDimension::D3));
}

#[test]
fn binding_set_rejects_capability_mismatch() {
    let c = build_chain(&small_asset(), 4);
    let plan_view = view(&c.registry, c.chain.plan, ViewAccess::StorageReadWrite);
    let r = BindingSet::create(single(Capability::StorageTexture(TextureDimension::D3)), vec![plan_view]);
    assert_eq!(r.err(), Some(BindingMismatchError { slot: 0 }));
    let layout = BindingSetLayout {
        slots: vec![
            slot(0, shared(), Capability::UniformBuffer),
            slot(1, shared(), Capability::Sampler),
        ],
    };
    let uniform_view = view(&c.registry, c.chain.uniform, ViewAccess::UniformRead);
    let r = BindingSet::create(layout, vec![uniform_view, uniform_view]);
    assert_eq!(r.err(), Some(BindingMismatchError { slot: 1 }));
}

#[test]
fn binding_set_rejects_wrong_count() {
    let c = build_chain(&small_asset(), 4);
    let v = view(&c.registry, c.chain.raid, ViewAccess::StorageReadWrite);
    let cap = Capability::StorageTexture(TextureDimension::D3);
    assert_eq!(BindingSet::create(single(cap), vec![]).err(), Some(BindingMismatchError { slot: 0 }));
    assert_eq!(BindingSet::create(single(cap), vec![v, v]).err(), Some(BindingMismatchError { slot: 1 }));
}

#[test]
fn binding_set_rejects_bad_visibility() {
    let c = build_chain(&small_asset(), 4);
    let v = view(&c.registry, c.chain.raid, ViewAccess::StorageReadWrite);
    let cap = Capability::StorageTexture(TextureDimension::D3);
    let nobody = BindingSetLayout {
        slots: vec![slot(0, Visibility { vertex: false, fragment: false, compute: false }, cap)],
    };
    assert_eq!(BindingSet::create(nobody, vec![v]).err(), Some(BindingMismatchError { slot: 0 }));
    let vertex = BindingSetLayout {
        slots: vec![slot(0, Visibility { vertex: true, fragment: false, compute: false }, cap)],
    };
    assert_eq!(BindingSet::create(vertex, vec![v]).err(), Some(BindingMismatchError { slot: 0 }));
}

#[test]
fn graph_accepts_reference_chain() {
    let c = build_chain(&small_asset(), 4);
    let g = c.chain.graph;
    assert_eq!(g.stages().len(), 4);
    assert!(g.stages()[1].reads.contains(&c.chain.text));
    assert_eq!(c.chain.uniform, ResourceHandle { id: 0 });
    assert_eq!(c.chain.vertices, ResourceHandle { id: 7 });
    assert_eq!(g.stages()[2].writes, vec![c.chain.trade]);
    assert_eq!(g.stages()[3].reads, vec![c.chain.uniform, c.chain.sampler, c.chain.trade]);
}

#[test]
fn graph_rejects_render_before_projection() {
    let c = build_chain(&small_asset(), 4);
    let mut stages = c.chain.graph.into_stages();
    let render = stages.pop().unwrap();
    let projection = stages.pop().unwrap();
    stages.push(render);
    stages.push(projection);
    let r = StageGraph::build(stages);
    assert_eq!(r.err(), Some(GraphError::DependencyOrder { stage: 2 }));
}

#[test]
fn graph_rejects_reader_before_generator() {
    let c = build_chain(&small_asset(), 4);
    let mut stages = c.chain.graph.into_stages();
    stages.swap(0, 1);
    assert_eq!(StageGraph::build(stages).err(), Some(GraphError::DependencyOrder { stage: 0 }));
}

#[test]
fn graph_rejects_undeclared_binding() {
    let c = build_chain(&small_asset(), 4);
    let mut stages = c.chain.graph.into_stages();
    stages[3].reads.retain(|h| *h != c.chain.sampler);
    assert_eq!(StageGraph::build(stages).err(), Some(GraphError::UndeclaredBinding { stage: 3 }));
}

#[test]
fn chain_keeps_uploaded_bytes() {
    let asset = small_asset();
    let c = build_chain(&asset, 4);
    let r = &c.registry;
    assert_eq!(r.initial_content(c.chain.upload.staging), Some(&asset));
    assert_eq!(r.initial_content(c.chain.vertices), Some(&vertex_bytes()));
    assert_eq!(r.initial_content(c.chain.uniform), None);
    assert_eq!(r.initial_content(c.chain.text), None);
    assert_eq!(c.chain.upload.texture, c.chain.text);
    assert_eq!(c.chain.upload.bytes_per_row, 16);
    assert_eq!(c.chain.upload.rows_per_image, 4);
}

#[test]
fn chain_fails_on_unholdable_inputs() {
    let mut r = ResourceRegistry::new();
    let e = reference_chain(&mut r, &[], 4, 4, &vertex_bytes()).err();
    assert_eq!(e, Some(ChainError::Allocation(AllocationError { resource: 3 })));
    let mut r = ResourceRegistry::new();
    let e = reference_chain(&mut r, &small_asset(), 9000, 4, &vertex_bytes()).err();
    assert_eq!(e, Some(ChainError::Allocation(AllocationError { resource: 3 })));
    let mut r = ResourceRegistry::new();
    let e = reference_chain(&mut r, &small_asset(), 4, 4, &[]).err();
    assert_eq!(e, Some(ChainError::Allocation(AllocationError { resource: 7 })));
}

#[test]
fn equal_uploads_hold_equal_bytes() {
    let asset: Vec<u8> = (0..64).map(|i| (i * 3) as u8).collect();
    let desc = TextureDesc {
        dimension: TextureDimension::D2,
        size: Extent { width: 4, height: 4, depth: 1 },
        format: TextureFormat::Rgba8UnormSrgb,
        usage: Usage { sampled: true, transfer_dst: true, ..no_usage() },
    };
    let mut r = ResourceRegistry::new();
    let (_, a) = r.create_texture_view_with_data(&asset, desc).unwrap();
    let (_, b) = r.create_texture_view_with_data(&asset, desc).unwrap();
    assert_eq!(r.initial_content(a.staging), Some(&asset));
    assert_eq!(r.initial_content(b.staging), r.initial_content(a.staging));
    assert_eq!(a.bytes_per_row, b.bytes_per_row);
}

#[test]
fn copy_only_texture_gets_unbindable_view() {
    let mut r = ResourceRegistry::new();
    let desc = TextureDesc {
        dimension: TextureDimension::D2,
        size: Extent { width: 2, height: 2, depth: 1 },
        format: TextureFormat::Rgba8UnormSrgb,
        usage: Usage { transfer_dst: true, ..no_usage() },
    };
    let (v, up) = r.create_texture_view_with_data(&[5u8; 16], desc).unwrap();
    assert_eq!(v.capability(), None);
    assert_eq!(up.bytes_per_row, 8);
    let layout = single(Capability::SampledTexture(TextureDimension::D2));
    assert_eq!(BindingSet::create(layout, vec![v]).err(), Some(BindingMismatchError { slot: 0 }));
}

#[test]
fn buffer_with_data_keeps_bytes() {
    let mut r = ResourceRegistry::new();
    let h = r.create_buffer_with_data(&[1, 2, 3], Usage { vertex: true, ..no_usage() }).unwrap();
    assert_eq!(r.initial_content(h), Some(&vec![1u8, 2, 3]));
    assert_eq!(
        r.desc(h),
        Some(ResourceDesc::Buffer { size: 3, usage: Usage { vertex: true, ..no_usage() } })
    );
    assert_eq!(
        r.create_buffer_with_data(&[], Usage { vertex: true, ..no_usage() }),
        Err(AllocationError { resource: 1 })
    );
    assert_eq!(r.len(), 1);
}

#[test]
fn record_keeps_stage_order() {
    let c = build_chain(&small_asset(), 4);
    let g = c.chain.graph;
    let cmds = g.record(42);
    assert_eq!(
        cmds,
        vec![
            Command::Dispatch { stage: 0, grid: Extent { width: 32, height: 32, depth: 1 } },
            Command::Dispatch { stage: 1, grid: Extent { width: 64, height: 64, depth: 16 } },
            Command::Dispatch { stage: 2, grid: Extent { width: 32, height: 32, depth: 1 } },
            Command::Draw { stage: 3, vertex_count: 3, target: 42 },
        ]
    );
    assert_eq!(g.record(43)[3], Command::Draw { stage: 3, vertex_count: 3, target: 43 });
}

#[test]
fn time_uniform_never_decreases() {
    let mut s = FrameScheduler::new();
    assert_eq!(s.update_time(true, 1_000), Some(1_000));
    assert_eq!(s.update_time(false, 2_000), None);
    assert_eq!(s.state().uniform_time, 1_000);
    assert_eq!(s.update_time(true, 3_500), Some(3_500));
    assert_eq!(s.update_time(true, 3_000), Some(3_500));
    assert_eq!(s.state().uniform_time, 3_500);
}

#[test]
fn frame_cycle_returns_to_idle() {
    let c = build_chain(&small_asset(), 4);
    let g = c.chain.graph;
    let mut s = FrameScheduler::new();
    assert!(s.should_run_frame());
    match s.begin_frame(&g, Some(7)) {
        FramePlan::Submit { image, commands } => {
            assert_eq!(image, 7);
            assert_eq!(commands, g.record(7));
        }
        FramePlan::Abort => panic!("frame aborted"),
    }
    assert_eq!(s.state().phase, Phase::Submitted);
    assert!(!s.should_run_frame());
    s.finish_frame();
    assert_eq!(s.state().phase, Phase::Idle);
    assert!(s.should_run_frame());
}

#[test]
fn failed_acquisition_ends_run() {
    let c = build_chain(&small_asset(), 4);
    let g = c.chain.graph;
    let mut s = FrameScheduler::new();
    s.update_time(true, 10);
    assert!(matches!(s.begin_frame(&g, None), FramePlan::Abort));
    assert_eq!(s.state().phase, Phase::Stopped);
    assert!(!s.should_run_frame());
    s.request_cancel();
    assert!(!s.should_run_frame());
}

#[test]
fn cancellation_stops_at_boundary() {
    let c = build_chain(&small_asset(), 4);
    let g = c.chain.graph;
    let mut s = FrameScheduler::new();
    assert!(matches!(s.begin_frame(&g, Some(1)), FramePlan::Submit { .. }));
    s.request_cancel();
    assert_eq!(s.state().phase, Phase::Submitted);
    s.finish_frame();
    assert!(!s.should_run_frame());
}

#[test]
fn one_frame_carries_constant_to_render_output() {
    // Each stage stands for a deterministic program: the generator fills its
    // field with a constant, propagation copies it through the volume, the
    // projection reduces the volume to its first layer, and the render stage
    // samples the projected field.
    const CONSTANT: f32 = 0.625;
    let c = build_chain(&small_asset(), 4);
    let g = c.chain.graph;
    let mut s = FrameScheduler::new();
    s.update_time(true, 0);
    let commands = match s.begin_frame(&g, Some(0)) {
        FramePlan::Submit { commands, .. } => commands,
        FramePlan::Abort => panic!("frame aborted"),
    };
    let mut fields: Vec<Option<Vec<f32>>> = vec![None; c.registry.len()];
    let mut pixel: Option<f32> = None;
    for cmd in &commands {
        match *cmd {
            Command::Dispatch { stage, grid } => {
                let st = &g.stages()[stage];
                let out = st.writes[0];
                let texels = match c.registry.desc(out) {
                    Some(ResourceDesc::Texture(t)) => {
                        (t.size.width * t.size.height * t.size.depth) as usize
                    }
                    _ => panic!("stage writes a non-texture"),
                };
                assert!(grid.width >= 1 && grid.height >= 1 && grid.depth >= 1);
                let value = match st.reads.iter().find(|h| fields[h.id].is_some()) {
                    None => CONSTANT,
                    Some(h) => {
                        let input = fields[h.id].as_ref().unwrap();
                        input.iter().copied().fold(f32::MIN, f32::max)
                    }
                };
                fields[out.id] = Some(vec![value; texels]);
            }
            Command::Draw { stage, .. } => {
                let st = &g.stages()[stage];
                let sampled = st.reads.iter().find(|h| fields[h.id].is_some()).unwrap();
                pixel = Some(fields[sampled.id].as_ref().unwrap()[0]);
            }
        }
    }
    assert!(fields[c.chain.raid.id].is_some());
    assert!(fields[c.chain.trade.id].is_some());
    assert_eq!(pixel, Some(CONSTANT));
}
