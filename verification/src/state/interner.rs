//! Numbers for the parts of raster state, so that equal parts are recognised
//! without comparing them again.

use vstd::prelude::*;
use std::sync::Arc;
use crate::api::gl::{
    GlColorBits, GlColorTargetState, GlCullMode, GlDepthStencilState, GlFrontFace,
    GlMultisampleState, GlPrimitiveTopology, GlRasterPipeline, GlScissorRect, GlViewport,
    RasterStateModel,
};
use crate::api::identity::ProgramId;
use crate::registry::{Matched, Registry};
use crate::state::context::{CanonicalBlockId, RasterPipelineBlocks};

verus! {

/// How primitives are formed, culled and clipped.
#[derive(Clone, Copy, Debug, PartialEq, Eq, Structural)]
pub struct RasterBlock {
    pub topology: GlPrimitiveTopology,
    pub cull_mode: GlCullMode,
    pub front_face: GlFrontFace,
    pub viewport: GlViewport,
    pub scissor: Option<GlScissorRect>,
}

impl View for RasterBlock {
    type V = RasterBlock;

    open spec fn view(&self) -> RasterBlock {
        *self
    }
}

impl Matched for RasterBlock {
    fn matches(&self, other: &Self) -> (result: bool) {
        *self == *other
    }
}

/// The depth and stencil tests.
#[derive(Clone, Copy, Debug, PartialEq, Eq, Structural)]
pub struct DepthBlock {
    pub state: Option<GlDepthStencilState>,
}

impl View for DepthBlock {
    type V = DepthBlock;

    open spec fn view(&self) -> DepthBlock {
        *self
    }
}

impl Matched for DepthBlock {
    fn matches(&self, other: &Self) -> (result: bool) {
        *self == *other
    }
}

/// The samples.
#[derive(Clone, Copy, Debug, PartialEq, Eq, Structural)]
pub struct SampleBlock {
    pub state: GlMultisampleState,
}

impl View for SampleBlock {
    type V = SampleBlock;

    open spec fn view(&self) -> SampleBlock {
        *self
    }
}

impl Matched for SampleBlock {
    fn matches(&self, other: &Self) -> (result: bool) {
        *self == *other
    }
}

/// What is written to the color targets.
#[derive(Debug)]
pub struct BlendBlock {
    pub targets: Arc<Vec<GlColorTargetState>>,
    pub constant: GlColorBits,
}

/// What is written to the color targets, by value.
#[verifier::ext_equal]
pub struct BlendModel {
    pub targets: Seq<GlColorTargetState>,
    pub constant: GlColorBits,
}

impl View for BlendBlock {
    type V = BlendModel;

    open spec fn view(&self) -> BlendModel {
        BlendModel { targets: self.targets@, constant: self.constant }
    }
}

impl Matched for BlendBlock {
    fn matches(&self, other: &Self) -> (result: bool) {
        if self.constant != other.constant || self.targets.len() != other.targets.len() {
            return false;
        }
        let mut at: usize = 0;
        while at < self.targets.len()
            invariant
                at <= self.targets@.len(),
                self.targets@.len() == other.targets@.len(),
                forall|i: int| 0 <= i < at ==> self.targets@[i] == other.targets@[i],
            decreases self.targets@.len() - at,
        {
            if self.targets[at] != other.targets[at] {
                return false;
            }
            at += 1;
        }
        assert(self.targets@ =~= other.targets@);
        true
    }
}

/// The parts of raster state.
pub open spec fn raster_block(state: RasterStateModel) -> RasterBlock {
    RasterBlock {
        topology: state.topology,
        cull_mode: state.cull_mode,
        front_face: state.front_face,
        viewport: state.viewport,
        scissor: state.scissor,
    }
}

pub open spec fn depth_block(state: RasterStateModel) -> DepthBlock {
    DepthBlock { state: state.depth_stencil }
}

pub open spec fn blend_block(state: RasterStateModel) -> BlendModel {
    BlendModel { targets: state.color_targets, constant: state.blend_constant }
}

pub open spec fn sample_block(state: RasterStateModel) -> SampleBlock {
    SampleBlock { state: state.multisample }
}

/// The numbers that were given so far, and the next one.
#[verifier::ext_equal]
pub struct InternerModel {
    pub next: u64,
    pub raster: Map<RasterBlock, u64>,
    pub depth: Map<DepthBlock, u64>,
    pub blend: Map<BlendModel, u64>,
    pub samples: Map<SampleBlock, u64>,
}

/// Whether every number is below the next one and stands for one part only.
pub open spec fn numbers_apart<K>(numbers: Map<K, u64>, next: u64) -> bool {
    &&& forall|key: K| #[trigger] numbers.contains_key(key) ==> numbers[key] < next
    &&& forall|left: K, right: K|
        #![trigger numbers[left], numbers[right]]
        numbers.contains_key(left) && numbers.contains_key(right) && numbers[left]
            == numbers[right] ==> left == right
}

/// The number of a part. A part that has none gets the next one, as long as
/// there is one.
pub open spec fn numbered<K>(numbers: Map<K, u64>, next: u64, key: K) -> (
    Map<K, u64>,
    u64,
    Option<u64>,
) {
    if numbers.contains_key(key) {
        (numbers, next, Some(numbers[key]))
    } else if next == u64::MAX {
        (numbers, next, None)
    } else {
        (numbers.insert(key, next), (next + 1) as u64, Some(next))
    }
}

impl InternerModel {
    pub open spec fn wf(self) -> bool {
        &&& numbers_apart(self.raster, self.next)
        &&& numbers_apart(self.depth, self.next)
        &&& numbers_apart(self.blend, self.next)
        &&& numbers_apart(self.samples, self.next)
    }

    /// The blocks of a pipeline. Without numbers left there are none.
    pub open spec fn interned(self, program: ProgramId, state: RasterStateModel) -> (
        InternerModel,
        Option<RasterPipelineBlocks>,
    ) {
        let (raster, next, raster_id) = numbered(self.raster, self.next, raster_block(state));
        let with_raster = InternerModel { next, raster, ..self };
        let (depth, next, depth_id) = numbered(self.depth, next, depth_block(state));
        let with_depth = InternerModel { next, depth, ..with_raster };
        let (blend, next, blend_id) = numbered(self.blend, next, blend_block(state));
        let with_blend = InternerModel { next, blend, ..with_depth };
        let (samples, next, sample_id) = numbered(self.samples, next, sample_block(state));
        let with_samples = InternerModel { next, samples, ..with_blend };
        if raster_id is None {
            (self, None)
        } else if depth_id is None {
            (with_raster, None)
        } else if blend_id is None {
            (with_depth, None)
        } else if sample_id is None {
            (with_blend, None)
        } else {
            (
                with_samples,
                Some(
                    RasterPipelineBlocks {
                        program: CanonicalBlockId::Program(program),
                        raster: CanonicalBlockId::Interned(raster_id->0),
                        depth_stencil: CanonicalBlockId::Interned(depth_id->0),
                        blend: CanonicalBlockId::Interned(blend_id->0),
                        multisample: CanonicalBlockId::Interned(sample_id->0),
                    },
                ),
            )
        }
    }
}

/// Two pipelines get the same block exactly where the parts of their state are
/// the same.
pub proof fn blocks_are_equal_where_state_is(
    interner: InternerModel,
    first: ProgramId,
    first_state: RasterStateModel,
    second: ProgramId,
    second_state: RasterStateModel,
)
    requires
        interner.wf(),
    ensures
        ({
            let (middle, left) = interner.interned(first, first_state);
            let (_, right) = middle.interned(second, second_state);
            left is Some && right is Some ==> {
                &&& (left->0.program == right->0.program) == (first == second)
                &&& (left->0.raster == right->0.raster) == (raster_block(first_state)
                    == raster_block(second_state))
                &&& (left->0.depth_stencil == right->0.depth_stencil) == (depth_block(first_state)
                    == depth_block(second_state))
                &&& (left->0.blend == right->0.blend) == (blend_block(first_state) == blend_block(
                    second_state,
                ))
                &&& (left->0.multisample == right->0.multisample) == (sample_block(first_state)
                    == sample_block(second_state))
            }
        }),
{
}

/// Numbers for the parts of raster pipelines.
#[derive(Debug)]
pub struct RasterPipelineBlockInterner {
    next: u64,
    raster: Registry<RasterBlock, u64>,
    depth: Registry<DepthBlock, u64>,
    blend: Registry<BlendBlock, u64>,
    samples: Registry<SampleBlock, u64>,
}

impl View for RasterPipelineBlockInterner {
    type V = InternerModel;

    closed spec fn view(&self) -> InternerModel {
        InternerModel {
            next: self.next,
            raster: self.raster@,
            depth: self.depth@,
            blend: self.blend@,
            samples: self.samples@,
        }
    }
}

fn number<K: Matched>(registry: &mut Registry<K, u64>, next: &mut u64, key: K) -> (result: Option<
    u64,
>)
    requires
        old(registry).wf(),
    ensures
        final(registry).wf(),
        (final(registry)@, *final(next), result) == numbered(old(registry)@, *old(next), key@),
{
    match registry.get(&key) {
        Some(number) => Some(number),
        None => {
            if *next == u64::MAX {
                return None;
            }
            let number: u64 = *next;
            *next = number + 1;
            registry.insert(key, number);
            Some(number)
        },
    }
}

impl RasterPipelineBlockInterner {
    pub closed spec fn wf(&self) -> bool {
        &&& self.raster.wf()
        &&& self.depth.wf()
        &&& self.blend.wf()
        &&& self.samples.wf()
        &&& self@.wf()
    }

    /// No two parts share a number.
    pub proof fn lemma_wf(&self)
        requires
            self.wf(),
        ensures
            self@.wf(),
    {
    }

    pub fn new() -> (result: Self)
        ensures
            result.wf(),
            result@ == (InternerModel {
                next: 1,
                raster: Map::empty(),
                depth: Map::empty(),
                blend: Map::empty(),
                samples: Map::empty(),
            }),
    {
        RasterPipelineBlockInterner {
            next: 1,
            raster: Registry::new(),
            depth: Registry::new(),
            blend: Registry::new(),
            samples: Registry::new(),
        }
    }

    /// The blocks of a pipeline.
    pub fn intern(&mut self, pipeline: &GlRasterPipeline) -> (result: Option<RasterPipelineBlocks>)
        requires
            old(self).wf(),
        ensures
            final(self).wf(),
            (final(self)@, result) == old(self)@.interned(pipeline.program, pipeline.state@),
    {
        let state = &pipeline.state;
        let raster = match number(
            &mut self.raster,
            &mut self.next,
            RasterBlock {
                topology: state.topology,
                cull_mode: state.cull_mode,
                front_face: state.front_face,
                viewport: state.viewport,
                scissor: state.scissor,
            },
        ) {
            Some(number) => number,
            None => {
                return None;
            },
        };
        let depth = match number(
            &mut self.depth,
            &mut self.next,
            DepthBlock { state: state.depth_stencil },
        ) {
            Some(number) => number,
            None => {
                return None;
            },
        };
        let blend = match number(
            &mut self.blend,
            &mut self.next,
            BlendBlock {
                targets: Arc::clone(&state.color_targets),
                constant: state.blend_constant,
            },
        ) {
            Some(number) => number,
            None => {
                return None;
            },
        };
        let samples = match number(
            &mut self.samples,
            &mut self.next,
            SampleBlock { state: state.multisample },
        ) {
            Some(number) => number,
            None => {
                return None;
            },
        };
        Some(
            RasterPipelineBlocks {
                program: CanonicalBlockId::Program(pipeline.program),
                raster: CanonicalBlockId::Interned(raster),
                depth_stencil: CanonicalBlockId::Interned(depth),
                blend: CanonicalBlockId::Interned(blend),
                multisample: CanonicalBlockId::Interned(samples),
            },
        )
    }
}

} // verus!
