use vstd::prelude::*;

use crate::store::{gpu_spec, AssetStore, EntryView, Handle};

verus! {

/// Side of the square pixel tile that one eye-dome workgroup covers.
pub const TILE_SIZE: u32 = 8;

/// Vertices of the instanced quad drawn for every point.
pub const QUAD_VERTICES: u32 = 4;

/// The view that the node renders into, as far as the node reads it.
#[derive(Clone, Copy, Debug, PartialEq, Eq, Structural)]
pub struct ViewInfo {
    /// Viewport size in pixels.
    pub width: u32,
    pub height: u32,
    /// Dynamic offset of this view's entry in the shared view uniform buffer.
    pub uniform_offset: u32,
}

/// Which of the GPU objects that the node needs are ready this frame.
#[derive(Clone, Copy, Debug, PartialEq, Eq, Structural)]
pub struct PipelineStatus {
    /// The point-splatting render pipeline is compiled.
    pub raster_ready: bool,
    /// The eye-dome compute pipeline is compiled.
    pub eye_dome_ready: bool,
    /// The shared per-view bind group is built.
    pub view_bind_group_ready: bool,
}

/// A spawned point cloud: the handle of its asset and its point size in pixels.
#[derive(Clone, Copy, Debug, PartialEq, Eq, Structural)]
pub struct RenderEntity {
    pub handle: Handle,
    pub point_size: u32,
}

/// One instanced draw: bind the asset's bind group, then draw one quad per point.
#[derive(Clone, Copy, Debug, PartialEq, Eq, Structural)]
pub struct DrawCall {
    pub bind_group: usize,
    pub vertex_count: u32,
    pub instance_count: usize,
}

/// Size of the eye-dome compute grid, in workgroups.
#[derive(Clone, Copy, Debug, PartialEq, Eq, Structural)]
pub struct Dispatch {
    pub x: u32,
    pub y: u32,
    pub z: u32,
}

/// Why a frame's work was skipped.
#[derive(Clone, Copy, Debug, PartialEq, Eq, Structural)]
pub enum SkipReason {
    MissingView,
    MissingPipeline,
    MissingBindGroup,
}

/// The work that the node encodes for one frame: a rasterization pass with
/// `draws`, then a compute pass with `dispatch`. A skipped frame has neither.
#[derive(Clone, Debug, PartialEq, Eq)]
pub struct FramePlan {
    pub draws: Vec<DrawCall>,
    pub dispatch: Option<Dispatch>,
    pub uniform_offset: u32,
    pub skipped: Option<SkipReason>,
}

/// Number of tiles of `TILE_SIZE` pixels that cover `n` pixels.
pub open spec fn tiles_spec(n: u32) -> u32 {
    ((n as int + 7) / 8) as u32
}

/// Why a frame with this view and these GPU objects is skipped, if it is.
pub open spec fn skip_spec(view: Option<ViewInfo>, status: PipelineStatus) -> Option<SkipReason> {
    if view is None {
        Some(SkipReason::MissingView)
    } else if !status.raster_ready || !status.eye_dome_ready {
        Some(SkipReason::MissingPipeline)
    } else if !status.view_bind_group_ready {
        Some(SkipReason::MissingBindGroup)
    } else {
        None
    }
}

/// The draw of one entity, when its asset's GPU resource is ready.
pub open spec fn draw_of(e: RenderEntity, s: Seq<EntryView>) -> Option<DrawCall> {
    match gpu_spec(s, e.handle) {
        Some(g) => Some(
            DrawCall { bind_group: g.bind_group, vertex_count: QUAD_VERTICES, instance_count: g.num_points },
        ),
        None => None,
    }
}

/// The draws for entities `es`, in order, skipping those not ready.
pub open spec fn draws_spec(es: Seq<RenderEntity>, s: Seq<EntryView>) -> Seq<DrawCall>
    decreases es.len(),
{
    if es.len() == 0 {
        Seq::empty()
    } else {
        let rest = draws_spec(es.drop_last(), s);
        match draw_of(es.last(), s) {
            Some(d) => rest.push(d),
            None => rest,
        }
    }
}

/// What the frame plan for this view, these GPU objects, entities and store
/// entries is.
pub open spec fn plan_spec(
    r: FramePlan,
    view: Option<ViewInfo>,
    status: PipelineStatus,
    es: Seq<RenderEntity>,
    s: Seq<EntryView>,
) -> bool {
    &&& r.skipped == skip_spec(view, status)
    &&& match skip_spec(view, status) {
        Some(_) => r.draws@.len() == 0 && r.dispatch is None,
        None => {
            let v = view->Some_0;
            &&& r.draws@ == draws_spec(es, s)
            &&& r.dispatch == Some(Dispatch { x: tiles_spec(v.width), y: tiles_spec(v.height), z: 1 })
            &&& r.uniform_offset == v.uniform_offset
        },
    }
}

/// Workgroups that cover `n` pixels in tiles of `TILE_SIZE`, rounding up.
pub fn tiles(n: u32) -> (r: u32)
    ensures
        r == tiles_spec(n),
{
    let q = n / TILE_SIZE;
    if n % TILE_SIZE == 0 {
        q
    } else {
        q + 1
    }
}

/// The compute grid that covers a `width` by `height` viewport.
pub fn dispatch_for(width: u32, height: u32) -> (r: Dispatch)
    ensures
        r == (Dispatch { x: tiles_spec(width), y: tiles_spec(height), z: 1 }),
{
    Dispatch { x: tiles(width), y: tiles(height), z: 1 }
}

/// The draws of a frame: one per entity whose asset has a GPU resource, in
/// entity order. Entities not ready are skipped, never dereferenced.
pub fn collect_draws(entities: &Vec<RenderEntity>, store: &AssetStore) -> (r: Vec<DrawCall>)
    requires
        store.wf(),
    ensures
        r@ == draws_spec(entities@, store@),
{
    let mut draws: Vec<DrawCall> = Vec::new();
    let mut i: usize = 0;
    while i < entities.len()
        invariant
            store.wf(),
            i <= entities@.len(),
            draws@ == draws_spec(entities@.take(i as int), store@),
        decreases entities@.len() - i,
    {
        assert(entities@.take(i + 1).drop_last() =~= entities@.take(i as int));
        let e = entities[i];
        match store.gpu_resource(e.handle) {
            Some(g) => {
                draws.push(
                    DrawCall {
                        bind_group: g.bind_group,
                        vertex_count: QUAD_VERTICES,
                        instance_count: g.num_points,
                    },
                );
            },
            None => {},
        }
        i = i + 1;
    }
    assert(entities@.take(i as int) =~= entities@);
    draws
}

/// The whole of one frame's work: nothing when the view, a pipeline or the
/// view bind group is missing; else every ready entity's draw and the
/// eye-dome grid for the viewport.
pub fn plan_frame(
    view: Option<ViewInfo>,
    status: PipelineStatus,
    entities: &Vec<RenderEntity>,
    store: &AssetStore,
) -> (r: FramePlan)
    requires
        store.wf(),
    ensures
        plan_spec(r, view, status, entities@, store@),
{
    let skipped = match view {
        None => Some(SkipReason::MissingView),
        Some(_) => if !status.raster_ready || !status.eye_dome_ready {
            Some(SkipReason::MissingPipeline)
        } else if !status.view_bind_group_ready {
            Some(SkipReason::MissingBindGroup)
        } else {
            None
        },
    };
    match (view, skipped) {
        (Some(v), None) => FramePlan {
            draws: collect_draws(entities, store),
            dispatch: Some(dispatch_for(v.width, v.height)),
            uniform_offset: v.uniform_offset,
            skipped: None,
        },
        _ => FramePlan { draws: Vec::new(), dispatch: None, uniform_offset: 0, skipped },
    }
}

/// With no entity ready there is nothing to draw.
pub proof fn lemma_no_ready_assets_no_draws(es: Seq<RenderEntity>, s: Seq<EntryView>)
    requires
        forall|i: int| 0 <= i < es.len() ==> gpu_spec(s, #[trigger] es[i].handle) is None,
    ensures
        draws_spec(es, s).len() == 0,
    decreases es.len(),
{
    if es.len() > 0 {
        let init = es.drop_last();
        assert forall|i: int| 0 <= i < init.len() implies gpu_spec(s, #[trigger] init[i].handle) is None by {
            assert(init[i] == es[i]);
        }
        lemma_no_ready_assets_no_draws(init, s);
        assert(gpu_spec(s, es[es.len() - 1].handle) is None);
    }
}

/// Each frame's draws come only from entities whose GPU resource is built, and
/// there is exactly one draw for each such entity.
pub proof fn lemma_draws_match_ready(es: Seq<RenderEntity>, s: Seq<EntryView>)
    ensures
        draws_spec(es, s).len() <= es.len(),
        forall|d: DrawCall| #[trigger] draws_spec(es, s).contains(d) ==> exists|i: int|
            0 <= i < es.len() && draw_of(#[trigger] es[i], s) == Some(d),
    decreases es.len(),
{
    if es.len() > 0 {
        let init = es.drop_last();
        lemma_draws_match_ready(init, s);
        let rest = draws_spec(init, s);
        assert forall|d: DrawCall| #[trigger] draws_spec(es, s).contains(d) implies exists|i: int|
            0 <= i < es.len() && draw_of(#[trigger] es[i], s) == Some(d) by {
            if rest.contains(d) {
                let i = choose|i: int| 0 <= i < init.len() && draw_of(#[trigger] init[i], s) == Some(d);
                assert(es[i] == init[i]);
            } else {
                let k = es.len() - 1;
                assert(draw_of(es[k], s) == Some(d)) by {
                    match draw_of(es.last(), s) {
                        Some(x) => {
                            let j = choose|j: int| 0 <= j < rest.push(x).len() && rest.push(x)[j] == d;
                            assert(j == rest.len());
                        },
                        None => {},
                    }
                }
            }
        }
    }
}

/// The render-graph node. Across frames it keeps only which warm-up causes
/// (a pipeline or the view bind group not ready) it has already reported, so
/// that each is reported once.
#[derive(Clone, Copy, Debug, PartialEq, Eq, Structural)]
pub struct PointCloudNode {
    reported_pipeline: bool,
    reported_bind_group: bool,
}

impl PointCloudNode {
    /// Whether a skip for `reason` has been reported already.
    pub closed spec fn has_reported(self, reason: SkipReason) -> bool {
        match reason {
            SkipReason::MissingView => false,
            SkipReason::MissingPipeline => self.reported_pipeline,
            SkipReason::MissingBindGroup => self.reported_bind_group,
        }
    }

    /// A node that has reported nothing yet.
    pub fn new() -> (r: PointCloudNode)
        ensures
            forall|reason: SkipReason| !r.has_reported(reason),
    {
        PointCloudNode { reported_pipeline: false, reported_bind_group: false }
    }

    /// Runs the node for one frame. Returns the frame's plan, and whether its
    /// skip is to be reported now: a missing view never is, and a missing
    /// pipeline or bind group only the first time.
    pub fn run(
        &mut self,
        view: Option<ViewInfo>,
        status: PipelineStatus,
        entities: &Vec<RenderEntity>,
        store: &AssetStore,
    ) -> (r: (FramePlan, bool))
        requires
            store.wf(),
        ensures
            plan_spec(r.0, view, status, entities@, store@),
            r.1 == match skip_spec(view, status) {
                Some(SkipReason::MissingView) => false,
                Some(reason) => !old(self).has_reported(reason),
                None => false,
            },
            forall|reason: SkipReason| #[trigger] final(self).has_reported(reason) == (old(self).has_reported(
                reason,
            ) || (skip_spec(view, status) == Some(reason) && !(reason is MissingView))),
    {
        let plan = plan_frame(view, status, entities, store);
        let report = match plan.skipped {
            Some(SkipReason::MissingPipeline) => {
                let first = !self.reported_pipeline;
                self.reported_pipeline = true;
                first
            },
            Some(SkipReason::MissingBindGroup) => {
                let first = !self.reported_bind_group;
                self.reported_bind_group = true;
                first
            },
            _ => false,
        };
        (plan, report)
    }
}

} // verus!
