use std::sync::Arc;

use fluxel_gl::api::error::ContextStateError;
use fluxel_gl::api::gl::{
    GlColorBits, GlColorTargetState, GlCullMode, GlFrontFace, GlMultisampleState,
    GlPrimitiveTopology, GlRasterPipeline, GlRasterState, GlViewport,
};
use fluxel_gl::api::identity::{
    ContextEpoch, ContextStamp, DeviceIdentity, ObjectId, ProgramId, TextureId, VertexArrayId,
};
use fluxel_gl::platform::object::GlObjectName;
use fluxel_gl::state::cache::{
    CacheBudget, CacheCounters, DependencySet, ResourceRef, StructuralCache,
};
use fluxel_gl::state::context::{
    BoundGroupPacket, CanonicalBlockId, ContextState, DerivedCacheKey, DerivedCacheKind,
    PassPacket, PixelTransferPacket, RasterPipelineBlocks, RasterPipelineDiff,
    RasterPipelinePacket,
};
use fluxel_gl::state::event::{ScopedRawAccess, StateEvent};
use fluxel_gl::state::interner::RasterPipelineBlockInterner;
use fluxel_gl::state::knowledge::{DirtyDomains, DriverKnowledge, ExecutionMode, StateDomain};

fn name(value: u32) -> GlObjectName {
    GlObjectName::new(value, "state test").unwrap()
}

fn packet(identity: u32, base: u64) -> RasterPipelinePacket {
    RasterPipelinePacket {
        identity: name(identity),
        blocks: RasterPipelineBlocks {
            program: CanonicalBlockId::new(base),
            raster: CanonicalBlockId::new(base + 1),
            depth_stencil: CanonicalBlockId::new(base + 2),
            blend: CanonicalBlockId::new(base + 3),
            multisample: CanonicalBlockId::new(base + 4),
        },
    }
}

fn texture() -> ResourceRef {
    ResourceRef::Texture(TextureId::new(
        ContextStamp::new(DeviceIdentity::new(1).unwrap(), ContextEpoch::initial()),
        1,
        1,
    ))
}

#[test]
fn pipeline_identity_is_a_collision_free_first_gate() {
    let mut state = ContextState::new(ExecutionMode::Optimized);
    state.register_pipeline(packet(1, 10)).unwrap();
    assert!(!state.prepare_pipeline(packet(1, 10)).unwrap().is_empty());
    state.commit_pipeline(packet(1, 10));
    assert_eq!(
        state.prepare_pipeline(packet(1, 99)),
        Err(ContextStateError::PipelineIdentityConflict)
    );
}

#[test]
fn pipeline_miss_diffs_canonical_blocks_not_the_whole_pipeline() {
    let mut state = ContextState::new(ExecutionMode::Optimized);
    state.register_pipeline(packet(1, 10)).unwrap();
    let replacement = RasterPipelinePacket {
        identity: name(2),
        blocks: RasterPipelineBlocks {
            blend: CanonicalBlockId::new(99),
            ..packet(1, 10).blocks
        },
    };
    state.register_pipeline(replacement).unwrap();
    state.commit_pipeline(packet(1, 10));
    let diff = state.prepare_pipeline(replacement).unwrap();
    assert_eq!(
        diff,
        RasterPipelineDiff {
            blend: true,
            ..RasterPipelineDiff::default()
        }
    );
}

#[test]
fn compute_program_change_forces_raster_program_restore() {
    let mut state = ContextState::new(ExecutionMode::Optimized);
    let raster = packet(1, 10);
    state.register_pipeline(raster).unwrap();
    state.commit_pipeline(raster);
    state.commit_compute_program(CanonicalBlockId::new(80));
    assert!(state.prepare_pipeline(raster).unwrap().program);
}

#[test]
fn compute_domain_invalidation_forces_raster_program_restore() {
    let mut state = ContextState::new(ExecutionMode::Optimized);
    let raster = packet(1, 10);
    state.register_pipeline(raster).unwrap();
    state.commit_pipeline(raster);
    state.event(StateEvent::DomainFailed(StateDomain::Compute));
    assert!(state.prepare_pipeline(raster).unwrap().program);
}

fn staged(index: u32, dependencies: DependencySet) -> BoundGroupPacket {
    BoundGroupPacket {
        group: ObjectId::new(3),
        name: name(3),
        index,
        dynamic_offsets: vec![4],
        program_link_epoch: 1,
        dependencies,
    }
}

#[test]
fn bind_groups_flush_only_after_acknowledgement() {
    let mut state = ContextState::new(ExecutionMode::Optimized);
    state.stage_bind_group(staged(0, DependencySet::new()));
    let flush = state.binding_flush();
    assert_eq!(flush.groups.len(), 1);
    assert!(state.binding_flush().same(&flush));
    state.acknowledge_bindings(&flush);
    assert!(state.binding_flush().is_empty());
}

#[test]
fn a_group_staged_anew_waits_for_its_own_flush() {
    let mut state = ContextState::new(ExecutionMode::Optimized);
    state.stage_bind_group(staged(0, DependencySet::new()));
    let flush = state.binding_flush();
    let mut other = staged(0, DependencySet::new());
    other.dynamic_offsets = vec![8];
    state.stage_bind_group(other);
    state.acknowledge_bindings(&flush);
    let waiting = state.binding_flush();
    assert_eq!(waiting.groups.len(), 1);
    assert_eq!(waiting.groups[0].index, 0);
    assert_eq!(waiting.groups[0].dynamic_offsets, vec![8]);
    state.acknowledge_bindings(&waiting);
    assert!(state.binding_flush().is_empty());
}

#[test]
fn pass_begin_is_never_elided() {
    let mut state = ContextState::new(ExecutionMode::Optimized);
    let pass = PassPacket {
        draw_framebuffer: CanonicalBlockId::new(1),
        read_framebuffer: CanonicalBlockId::new(2),
        draw_buffers: CanonicalBlockId::new(3),
    };
    assert!(state.prepare_pass(pass));
    state.commit_pass(pass);
    assert!(state.prepare_pass(pass));
    assert!(state.pass_is_known());
}

#[test]
fn lru_and_dependency_invalidation_are_deterministic() {
    let mut c: StructuralCache<u64, u64> = StructuralCache::new(CacheBudget::new(2, 20));
    let mut n = CacheCounters::default();
    c.insert(1, 1, 8, DependencySet::new(), &mut n);
    c.insert(2, 2, 8, DependencySet::new(), &mut n);
    c.get(&1, &mut n);
    assert_eq!(
        c.insert(3, 3, 8, DependencySet::new(), &mut n).removed,
        vec![(2, 2)]
    );
    let mut d = DependencySet::new();
    d.insert(texture());
    c.insert(4, 4, 8, d, &mut n);
    assert_eq!(c.invalidate_resource(texture(), &mut n), vec![(4, 4)]);
}

#[test]
fn undeclared_raw_access_is_never_trusted() {
    assert_eq!(
        StateEvent::ScopedRawAccess(ScopedRawAccess::all()).domains(),
        DirtyDomains::all()
    );
}

#[test]
fn unknown_never_agrees() {
    let mut value: DriverKnowledge<u64> = DriverKnowledge::Unknown;
    assert!(!value.agrees(&7));
    value.set(7);
    assert!(value.agrees(&7));
    value.invalidate();
    assert!(!value.agrees(&7));
}

#[test]
fn domains_have_unique_bits() {
    let mut bits = 0;
    for d in StateDomain::all() {
        assert_eq!(bits & d.bit(), 0);
        bits |= d.bit();
    }
    assert_eq!(bits, DirtyDomains::all().bits());
}

#[test]
fn a_set_of_domains_remembers_each_of_them() {
    let mut set = DirtyDomains::empty();
    assert!(set.is_empty());
    set.insert(StateDomain::Query);
    set.insert(StateDomain::Geometry);
    assert!(set.contains(StateDomain::Query));
    assert!(!set.contains(StateDomain::Bindings));
    assert_eq!(set.iter(), vec![StateDomain::Geometry, StateDomain::Query]);
    set.remove(StateDomain::Query);
    assert_eq!(set, DirtyDomains::of(StateDomain::Geometry));
}

#[test]
fn declared_raw_access_dirties_only_what_it_names() {
    let access = ScopedRawAccess::declaring(DirtyDomains::of(StateDomain::Bindings));
    assert_eq!(
        StateEvent::ScopedRawAccess(access).domains(),
        DirtyDomains::of(StateDomain::Bindings)
    );
}

#[test]
fn an_unknown_pipeline_is_refused() {
    let state = ContextState::new(ExecutionMode::Optimized);
    assert_eq!(
        state.prepare_pipeline(packet(5, 1)),
        Err(ContextStateError::UnknownPipeline)
    );
}

#[test]
fn the_oracle_repeats_what_the_optimizer_skips() {
    for (mode, repeated) in [(ExecutionMode::Optimized, false), (ExecutionMode::Oracle, true)] {
        let mut state = ContextState::new(mode);
        state.register_pipeline(packet(1, 10)).unwrap();
        state.commit_pipeline(packet(1, 10));
        state.commit_geometry(CanonicalBlockId::new(7));
        state.commit_uniform_slot(2, CanonicalBlockId::new(8));
        assert_eq!(!state.prepare_pipeline(packet(1, 10)).unwrap().is_empty(), repeated);
        assert_eq!(state.prepare_geometry(CanonicalBlockId::new(7)), repeated);
        assert_eq!(state.prepare_uniform_slot(2, CanonicalBlockId::new(8)), repeated);
    }
}

#[test]
fn a_lost_context_is_forgotten() {
    let mut state = ContextState::new(ExecutionMode::Optimized);
    state.register_pipeline(packet(1, 10)).unwrap();
    state.commit_pipeline(packet(1, 10));
    state.commit_geometry(CanonicalBlockId::new(7));
    state.event(StateEvent::ContextLost);
    assert!(state.prepare_geometry(CanonicalBlockId::new(7)));
    assert!(!state.pass_is_known());
}

#[test]
fn a_restored_context_and_a_replaced_device_are_forgotten_too() {
    let stamp = ContextStamp::new(DeviceIdentity::new(2).unwrap(), ContextEpoch::initial());
    for event in [StateEvent::ContextRestored(stamp), StateEvent::DeviceReplaced(stamp)] {
        let mut state = ContextState::new(ExecutionMode::Optimized);
        state.register_pipeline(packet(1, 10)).unwrap();
        state.commit_pipeline(packet(1, 10));
        state.commit_geometry(CanonicalBlockId::new(7));
        state.stage_bind_group(staged(0, DependencySet::new()));
        let flush = state.binding_flush();
        state.acknowledge_bindings(&flush);
        assert!(state.binding_flush().is_empty());
        state.event(event);
        assert!(state.prepare_geometry(CanonicalBlockId::new(7)));
        assert!(state.prepare_pipeline(packet(1, 10)).is_err());
        assert_eq!(state.binding_flush().groups.len(), 1);
    }
}

#[test]
fn a_failed_pixel_transfer_is_set_again() {
    let mut state = ContextState::new(ExecutionMode::Optimized);
    let wanted = PixelTransferPacket {
        pack: CanonicalBlockId::new(1),
        unpack: CanonicalBlockId::new(2),
        pack_buffer: CanonicalBlockId::new(3),
        unpack_buffer: CanonicalBlockId::new(4),
    };
    assert!(state.prepare_pixel_transfer(wanted));
    state.commit_pixel_transfer(wanted);
    assert!(!state.prepare_pixel_transfer(wanted));
    state.event(StateEvent::DomainFailed(StateDomain::PixelTransferCopy));
    assert!(state.prepare_pixel_transfer(wanted));
}

#[test]
fn a_retired_texture_takes_its_bind_groups_along() {
    let mut state = ContextState::new(ExecutionMode::Optimized);
    let mut dependencies = DependencySet::new();
    dependencies.insert(texture());
    state.stage_bind_group(staged(0, dependencies));
    state.stage_bind_group(staged(1, DependencySet::new()));
    state.retire(texture());
    let flush = state.binding_flush();
    assert_eq!(flush.groups.len(), 1);
    assert_eq!(flush.groups[0].index, 1);
    state.register_derived(
        DerivedCacheKey {
            kind: DerivedCacheKind::VertexArray,
            canonical: CanonicalBlockId::new(1),
        },
        DependencySet::new(),
    );
    state.retire_bind_group(name(3));
    assert!(state.binding_flush().is_empty());
}

#[test]
fn a_cache_counts_what_it_does() {
    let mut cache: StructuralCache<u64, u64> = StructuralCache::new(CacheBudget::new(4, 20));
    let mut counters = CacheCounters::default();
    cache.insert(1, 10, 8, DependencySet::new(), &mut counters);
    assert_eq!(cache.get(&1, &mut counters), Some(&10));
    assert_eq!(cache.get(&2, &mut counters), None);
    let refused = cache.insert(9, 9, 21, DependencySet::new(), &mut counters);
    assert!(!refused.retained);
    assert!(refused.removed.is_empty());
    cache.insert(2, 20, 8, DependencySet::new(), &mut counters);
    let moved = cache.insert(3, 30, 8, DependencySet::new(), &mut counters);
    assert!(moved.retained);
    assert_eq!(moved.removed, vec![(1, 10)]);
    assert_eq!(cache.len(), 2);
    assert_eq!(cache.live_bytes(), 16);
    assert_eq!(counters.hits, 1);
    assert_eq!(counters.misses, 1);
    assert_eq!(counters.evicted, 1);
    assert_eq!(cache.drain(&mut counters).len(), 2);
    assert_eq!(cache.len(), 0);
}

#[test]
fn a_refused_value_leaves_the_cache_alone() {
    let mut cache: StructuralCache<u64, u64> = StructuralCache::new(CacheBudget::new(2, 20));
    let mut counters = CacheCounters::default();
    cache.insert(1, 10, 8, DependencySet::new(), &mut counters);
    cache.insert(2, 20, 8, DependencySet::new(), &mut counters);
    let created = counters.created;
    let refused = cache.insert(1, 11, 21, DependencySet::new(), &mut counters);
    assert!(!refused.retained && refused.removed.is_empty());
    assert_eq!(counters.created, created);
    assert_eq!(cache.len(), 2);
    assert_eq!(cache.live_bytes(), 16);
    let moved = cache.insert(3, 30, 8, DependencySet::new(), &mut counters);
    assert_eq!(moved.removed, vec![(1, 10)]);
    let mut closed: StructuralCache<u64, u64> = StructuralCache::new(CacheBudget::new(0, 20));
    assert!(!closed.insert(1, 1, 0, DependencySet::new(), &mut counters).retained);
}

#[test]
fn what_makes_room_leaves_in_the_order_of_its_use() {
    let mut cache: StructuralCache<u64, u64> = StructuralCache::new(CacheBudget::new(4, 20));
    let mut counters = CacheCounters::default();
    cache.insert(1, 10, 4, DependencySet::new(), &mut counters);
    cache.insert(2, 20, 6, DependencySet::new(), &mut counters);
    cache.insert(3, 30, 4, DependencySet::new(), &mut counters);
    cache.insert(4, 40, 4, DependencySet::new(), &mut counters);
    assert_eq!(cache.get(&1, &mut counters), Some(&10));
    let moved = cache.insert(4, 41, 12, DependencySet::new(), &mut counters);
    assert!(moved.retained);
    assert_eq!(moved.removed, vec![(4, 40), (2, 20)]);
    assert_eq!(cache.len(), 3);
    assert_eq!(cache.live_bytes(), 20);
    assert_eq!(cache.get(&4, &mut counters), Some(&41));
    assert_eq!(cache.get(&3, &mut counters), Some(&30));
}

#[test]
fn a_failure_makes_the_whole_pipeline_due() {
    let mut state = ContextState::new(ExecutionMode::Optimized);
    state.register_pipeline(packet(1, 10)).unwrap();
    state.commit_pipeline(packet(1, 10));
    assert!(state.prepare_pipeline(packet(1, 10)).unwrap().is_empty());
    state.pipeline_failed();
    let all = RasterPipelineDiff {
        program: true,
        raster: true,
        depth_stencil: true,
        blend: true,
        multisample: true,
    };
    assert_eq!(state.prepare_pipeline(packet(1, 10)), Ok(all));
}

#[test]
fn equal_state_has_equal_blocks() {
    let stamp = ContextStamp::new(DeviceIdentity::new(1).unwrap(), ContextEpoch::initial());
    let make = |cull_mode| GlRasterPipeline {
        program: ProgramId::new(stamp, 4, 0),
        vertex_array: VertexArrayId::new(stamp, 5, 0),
        state: GlRasterState {
            topology: GlPrimitiveTopology::Triangles,
            cull_mode,
            front_face: GlFrontFace::Clockwise,
            depth_stencil: None,
            color_targets: Arc::new(vec![GlColorTargetState { write_mask: 15, blend: None }]),
            multisample: GlMultisampleState {
                sample_count: 1,
                alpha_to_coverage_enabled: false,
                sample_mask: u32::MAX,
            },
            viewport: GlViewport { x: 0, y: 0, width: 1, height: 1, min_depth: 0, max_depth: 0 },
            scissor: None,
            blend_constant: GlColorBits { red: 0, green: 0, blue: 0, alpha: 0 },
        },
    };
    let mut interner = RasterPipelineBlockInterner::new();
    let first = interner.intern(&make(GlCullMode::Front)).unwrap();
    let again = interner.intern(&make(GlCullMode::Front)).unwrap();
    let other = interner.intern(&make(GlCullMode::Back)).unwrap();
    assert_eq!(first, again);
    assert_ne!(first.raster, other.raster);
    assert_eq!(first.blend, other.blend);
    assert_eq!(first.program, other.program);
}
