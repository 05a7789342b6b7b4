//! The surface/context lifecycle: the state machine at the heart of the
//! renderer.
//!
//! The machine decides when a window surface is created, when a GPU
//! adapter is requested (once, then cached for the process lifetime),
//! when the graphics context and its resources are built (lazily, once
//! per resume cycle), when the surface is (re)configured, and what each
//! redraw request amounts to. The machine owns the context-dependent
//! resources per state, so that "these fields are valid together" holds
//! by construction. The windowing and GPU work itself is carried out
//! outside the library, following the plans and actions returned here.

use vstd::prelude::*;

use crate::camera::Camera;
use crate::camera::initial_camera;
use crate::data::MeshModel;
use crate::data::VertexState;
use crate::data::cube_mesh;
use crate::instance::Instance;
use crate::instance::InstanceModel;
use crate::instance::InstanceState;
use crate::instance::fresh_instances;
use crate::instance::spin_all;
use crate::texture::depth_extent;

verus! {

/// Everything that exists only while a graphics context does: the camera
/// with its GPU-visible matrix, the mesh buffers, and the instance table.
pub struct ContextResources {
    pub camera: Camera,
    pub mesh: VertexState,
    pub instances: InstanceState,
}

/// The contents of `ContextResources` as mathematics.
#[verifier::ext_equal]
pub struct ResourcesModel {
    pub camera: Camera,
    pub mesh: MeshModel,
    pub instances: InstanceModel,
}

impl View for ContextResources {
    type V = ResourcesModel;

    open spec fn view(&self) -> ResourcesModel {
        ResourcesModel { camera: self.camera, mesh: self.mesh@, instances: self.instances@ }
    }
}

impl ContextResources {
    pub open spec fn wf(self, grid_size: u32) -> bool {
        &&& self.mesh.wf()
        &&& self.instances.wf()
        &&& self.instances.grid_size == grid_size
    }
}

/// The resources as built on a fresh context for a grid of side n.
pub open spec fn fresh_resources(n: int) -> ResourcesModel {
    ResourcesModel {
        camera: initial_camera(),
        mesh: cube_mesh(),
        instances: InstanceModel { grid_size: n, instances: fresh_instances(n) },
    }
}

/// Where the machine stands, owning what is valid there.
pub enum Phase {
    /// No window surface exists; nothing context-dependent survives here.
    NoSurface,
    /// A surface exists but the context has not been ensured yet.
    SurfaceReady,
    /// Surface and context exist; the surface is not configured.
    ContextReady { res: ContextResources },
    /// Ready to present at the configured size.
    Configured { width: u32, height: u32, res: ContextResources },
}

/// `Phase` as mathematics.
#[verifier::ext_equal]
pub enum PhaseModel {
    NoSurface,
    SurfaceReady,
    ContextReady { res: ResourcesModel },
    Configured { width: u32, height: u32, res: ResourcesModel },
}

impl View for Phase {
    type V = PhaseModel;

    open spec fn view(&self) -> PhaseModel {
        match self {
            Phase::NoSurface => PhaseModel::NoSurface,
            Phase::SurfaceReady => PhaseModel::SurfaceReady,
            Phase::ContextReady { res } => PhaseModel::ContextReady { res: res@ },
            Phase::Configured { width, height, res } => PhaseModel::Configured {
                width: *width,
                height: *height,
                res: res@,
            },
        }
    }
}

/// How acquiring the next presentable image went.
#[derive(Clone, Copy, PartialEq, Eq, Structural, Debug)]
pub enum AcquireOutcome {
    /// An image was acquired; its actual pixel size may differ from the
    /// configured one.
    Success { width: u32, height: u32 },
    /// The surface is stale, typically after an unprocessed resize:
    /// recoverable, skip and ask for another redraw.
    Outdated,
    /// Any other acquisition error: logged and ignored, the frame is
    /// skipped.
    OtherError,
}

/// The per-frame work a successful acquisition leads to.
#[derive(Clone, Copy, PartialEq, Eq, Structural, Debug)]
pub struct FramePlan {
    /// Depth texture size: the acquired image's size, at least one.
    pub depth_width: u32,
    pub depth_height: u32,
    /// How many indices the indexed-instanced draw covers.
    pub index_count: u32,
    /// How many instances the draw covers.
    pub instance_count: u32,
}

/// What a redraw request amounts to.
#[derive(Clone, Copy, PartialEq, Eq, Structural, Debug)]
pub enum FrameAction {
    /// Record and submit one render pass, then present.
    Render(FramePlan),
    /// Skip the frame and request another redraw.
    SkipAndRetry,
    /// Skip the frame.
    Skip,
    /// Not configured: nothing to draw on.
    NotReady,
}

/// What carrying out a resume requires of the outside.
#[derive(Clone, Copy, PartialEq, Eq, Structural, Debug)]
pub struct ContextPlan {
    /// Request an adapter compatible with the surface (none was cached).
    pub request_adapter: bool,
    /// Build device, queue, pipeline and the context resources.
    pub build_context: bool,
}

/// The application: the lifecycle machine and the counters that record
/// what the outside was asked to do.
pub struct App {
    pub phase: Phase,
    /// Side length of the instance grid, fixed at creation.
    pub grid_size: u32,
    /// Whether an adapter has been requested and cached.
    pub adapter_cached: bool,
    /// How many adapter requests have been issued.
    pub adapter_requests: u64,
    /// How many times a graphics context has been built.
    pub context_builds: u64,
    /// How many frames have been submitted and presented.
    pub frames_submitted: u64,
    /// Whether a redraw has been requested and not yet serviced.
    pub redraw_pending: bool,
    /// Whether a close request ended the loop.
    pub exited: bool,
}

/// `App` as mathematics.
#[verifier::ext_equal]
pub struct AppModel {
    pub phase: PhaseModel,
    pub grid_size: int,
    pub adapter_cached: bool,
    pub adapter_requests: int,
    pub context_builds: int,
    pub frames_submitted: int,
    pub redraw_pending: bool,
    pub exited: bool,
}

impl View for App {
    type V = AppModel;

    open spec fn view(&self) -> AppModel {
        AppModel {
            phase: self.phase@,
            grid_size: self.grid_size as int,
            adapter_cached: self.adapter_cached,
            adapter_requests: self.adapter_requests as int,
            context_builds: self.context_builds as int,
            frames_submitted: self.frames_submitted as int,
            redraw_pending: self.redraw_pending,
            exited: self.exited,
        }
    }
}

/// The machine before any signal.
pub open spec fn initial_model(n: int) -> AppModel {
    AppModel {
        phase: PhaseModel::NoSurface,
        grid_size: n,
        adapter_cached: false,
        adapter_requests: 0,
        context_builds: 0,
        frames_submitted: 0,
        redraw_pending: false,
        exited: false,
    }
}

/// Creating a window and its surface. A context that already exists is
/// kept, but the new surface is not configured yet.
pub open spec fn spec_create_surface(m: AppModel) -> AppModel {
    match m.phase {
        PhaseModel::NoSurface => AppModel { phase: PhaseModel::SurfaceReady, ..m },
        PhaseModel::SurfaceReady => m,
        PhaseModel::ContextReady { res } => m,
        PhaseModel::Configured { res, .. } => AppModel {
            phase: PhaseModel::ContextReady { res },
            ..m
        },
    }
}

/// Ensuring adapter and context once a surface exists: the adapter is
/// requested only when none is cached; the context and its resources are
/// built only when none exist, fresh each time.
pub open spec fn spec_ensure_context(m: AppModel) -> AppModel {
    if m.phase is NoSurface {
        m
    } else {
        let requests = if m.adapter_cached {
            m.adapter_requests
        } else {
            m.adapter_requests + 1
        };
        match m.phase {
            PhaseModel::SurfaceReady => AppModel {
                phase: PhaseModel::ContextReady { res: fresh_resources(m.grid_size) },
                adapter_cached: true,
                adapter_requests: requests,
                context_builds: m.context_builds + 1,
                ..m
            },
            _ => AppModel { adapter_cached: true, adapter_requests: requests, ..m },
        }
    }
}

/// Configuring the surface's presentation to the given size. Possible
/// only once surface and context exist; the context is untouched.
pub open spec fn spec_configure(m: AppModel, width: u32, height: u32) -> AppModel {
    match m.phase {
        PhaseModel::ContextReady { res } => AppModel {
            phase: PhaseModel::Configured { width, height, res },
            ..m
        },
        PhaseModel::Configured { res, .. } => AppModel {
            phase: PhaseModel::Configured { width, height, res },
            ..m
        },
        _ => m,
    }
}

/// Asking the window for a redraw; without a surface there is no window
/// to ask.
pub open spec fn spec_queue_redraw(m: AppModel) -> AppModel {
    if m.phase is NoSurface {
        m
    } else {
        AppModel { redraw_pending: true, ..m }
    }
}

/// The whole `Resumed` signal: surface, adapter, context, configuration
/// at the window's current size, and a first redraw request.
pub open spec fn spec_resume(m: AppModel, width: u32, height: u32) -> AppModel {
    spec_queue_redraw(spec_configure(spec_ensure_context(spec_create_surface(m)), width, height))
}

/// The `Suspended` signal: surface, context and every context-dependent
/// resource are dropped; the cached adapter survives.
pub open spec fn spec_suspend(m: AppModel) -> AppModel {
    AppModel { phase: PhaseModel::NoSurface, redraw_pending: false, ..m }
}

/// The `Resized` signal: reconfigure at the new size and ask for a
/// redraw; the context is untouched.
pub open spec fn spec_resized(m: AppModel, width: u32, height: u32) -> AppModel {
    spec_queue_redraw(spec_configure(m, width, height))
}

/// One frame on a successful acquisition: the camera takes the frame's
/// aspect ratio, every instance spins one more step, and the frame
/// counts as submitted.
pub open spec fn spec_present_frame(m: AppModel, fw: u32, fh: u32) -> AppModel
    recommends
        m.phase is Configured,
{
    match m.phase {
        PhaseModel::Configured { width, height, res } => AppModel {
            phase: PhaseModel::Configured {
                width,
                height,
                res: ResourcesModel {
                    camera: (Camera { aspect_width: fw, aspect_height: fh, ..res.camera }),
                    mesh: res.mesh,
                    instances: InstanceModel {
                        grid_size: res.instances.grid_size,
                        instances: spin_all(res.instances.instances),
                    },
                },
            },
            frames_submitted: m.frames_submitted + 1,
            redraw_pending: true,
            ..m
        },
        _ => m,
    }
}

/// The `RedrawRequested` signal, given how acquisition went. Outside the
/// `Configured` phase nothing is drawn; an outdated surface skips the
/// frame but re-requests a redraw; any other error only skips.
pub open spec fn spec_redraw(m: AppModel, outcome: AcquireOutcome) -> AppModel {
    if m.phase is Configured {
        match outcome {
            AcquireOutcome::Success { width, height } => spec_present_frame(m, width, height),
            AcquireOutcome::Outdated => AppModel { redraw_pending: true, ..m },
            AcquireOutcome::OtherError => AppModel { redraw_pending: false, ..m },
        }
    } else {
        AppModel { redraw_pending: false, ..m }
    }
}

/// The `CloseRequested` signal.
pub open spec fn spec_close(m: AppModel) -> AppModel {
    AppModel { exited: true, ..m }
}

impl App {
    /// Everything the other contracts take for granted: the grid side is
    /// in range, and whatever resources the phase holds are well formed
    /// and sized for that grid.
    pub open spec fn wf(self) -> bool {
        &&& 1 <= self.grid_size <= 65535
        &&& match self.phase {
            Phase::ContextReady { res } => res.wf(self.grid_size),
            Phase::Configured { res, .. } => res.wf(self.grid_size),
            _ => true,
        }
    }

    pub fn new(grid_size: u32) -> (r: App)
        requires
            1 <= grid_size <= 65535,
        ensures
            r@ == initial_model(grid_size as int),
            r.wf(),
    {
        App {
            phase: Phase::NoSurface,
            grid_size,
            adapter_cached: false,
            adapter_requests: 0,
            context_builds: 0,
            frames_submitted: 0,
            redraw_pending: false,
            exited: false,
        }
    }

    /// Whether a window surface currently exists.
    pub fn has_surface(&self) -> (r: bool)
        ensures
            r == !(self@.phase is NoSurface),
    {
        match &self.phase {
            Phase::NoSurface => false,
            _ => true,
        }
    }

    /// Whether a frame can be produced right now.
    pub fn can_render(&self) -> (r: bool)
        ensures
            r == (self@.phase is Configured),
    {
        match &self.phase {
            Phase::Configured { .. } => true,
            _ => false,
        }
    }

    /// Create a platform window and its drawable surface.
    pub fn create_surface(&mut self)
        requires
            old(self).wf(),
        ensures
            final(self)@ == spec_create_surface(old(self)@),
            final(self).wf(),
    {
        let mut phase = Phase::NoSurface;
        core::mem::swap(&mut phase, &mut self.phase);
        self.phase = match phase {
            Phase::NoSurface => Phase::SurfaceReady,
            Phase::SurfaceReady => Phase::SurfaceReady,
            Phase::ContextReady { res } => Phase::ContextReady { res },
            Phase::Configured { res, .. } => Phase::ContextReady { res },
        };
    }

    /// Ensure adapter and graphics context for the current surface: the
    /// adapter is requested only on a cache miss, the context is built
    /// only if none exists, and the context resources are built fresh
    /// with it. The returned plan says which of the two the outside must
    /// actually perform.
    pub fn ensure_render_state_for_surface(&mut self) -> (plan: ContextPlan)
        requires
            old(self).wf(),
            old(self).adapter_requests < u64::MAX,
            old(self).context_builds < u64::MAX,
        ensures
            final(self)@ == spec_ensure_context(old(self)@),
            final(self).wf(),
            plan.request_adapter == (!(old(self)@.phase is NoSurface) && !old(
                self,
            ).adapter_cached),
            plan.build_context == (old(self)@.phase is SurfaceReady),
    {
        if !self.has_surface() {
            return ContextPlan { request_adapter: false, build_context: false };
        }
        let request_adapter = !self.adapter_cached;
        if request_adapter {
            self.adapter_requests = self.adapter_requests + 1;
            self.adapter_cached = true;
        }
        let build_context = match &self.phase {
            Phase::SurfaceReady => true,
            _ => false,
        };
        if build_context {
            self.context_builds = self.context_builds + 1;
            let res = ContextResources {
                camera: Camera::new(),
                mesh: VertexState::new(),
                instances: InstanceState::new(self.grid_size),
            };
            self.phase = Phase::ContextReady { res };
        }
        proof {
            assert(self@ =~~= spec_ensure_context(old(self)@));
        }
        ContextPlan { request_adapter, build_context }
    }

    /// Configure the surface's presentation parameters for the given
    /// window size. A no-op until both surface and context exist.
    pub fn configure_surface_swapchain(&mut self, width: u32, height: u32)
        requires
            old(self).wf(),
        ensures
            final(self)@ == spec_configure(old(self)@, width, height),
            final(self).wf(),
    {
        let mut phase = Phase::NoSurface;
        core::mem::swap(&mut phase, &mut self.phase);
        self.phase = match phase {
            Phase::ContextReady { res } => Phase::Configured { width, height, res },
            Phase::Configured { res, .. } => Phase::Configured { width, height, res },
            other => other,
        };
    }

    /// Ask the window for a redraw, if there is a window.
    pub fn queue_redraw(&mut self)
        requires
            old(self).wf(),
        ensures
            final(self)@ == spec_queue_redraw(old(self)@),
            final(self).wf(),
    {
        if self.has_surface() {
            self.redraw_pending = true;
        }
    }

    /// Handle the `Resumed` signal: surface, adapter and context as
    /// needed, then configure at the window's current size and request
    /// the first redraw.
    pub fn resume(&mut self, width: u32, height: u32) -> (plan: ContextPlan)
        requires
            old(self).wf(),
            old(self).adapter_requests < u64::MAX,
            old(self).context_builds < u64::MAX,
        ensures
            final(self)@ == spec_resume(old(self)@, width, height),
            final(self).wf(),
            plan.request_adapter == !old(self).adapter_cached,
            plan.build_context == (old(self)@.phase is NoSurface || old(
                self,
            )@.phase is SurfaceReady),
    {
        self.create_surface();
        let plan = self.ensure_render_state_for_surface();
        self.configure_surface_swapchain(width, height);
        self.queue_redraw();
        plan
    }

    /// Handle the `Suspended` signal: drop the surface, the context and
    /// everything built on it; keep the cached adapter.
    pub fn suspend(&mut self)
        requires
            old(self).wf(),
        ensures
            final(self)@ == spec_suspend(old(self)@),
            final(self).wf(),
    {
        self.phase = Phase::NoSurface;
        self.redraw_pending = false;
    }

    /// Handle the `Resized` signal: reconfigure at the new size and ask
    /// for a redraw. The context — same device, same pipeline — and every
    /// counter are untouched: only the configured width and height change.
    pub fn resized(&mut self, width: u32, height: u32)
        requires
            old(self).wf(),
        ensures
            final(self)@ == spec_resized(old(self)@, width, height),
            final(self).wf(),
            old(self)@.phase matches PhaseModel::Configured { res, .. } ==> final(self)@.phase
                == (PhaseModel::Configured { width, height, res }),
            final(self).context_builds == old(self).context_builds,
            final(self).adapter_requests == old(self).adapter_requests,
            final(self).frames_submitted == old(self).frames_submitted,
            final(self).adapter_cached == old(self).adapter_cached,
    {
        self.configure_surface_swapchain(width, height);
        self.queue_redraw();
    }

    /// Handle the `RedrawRequested` signal, given how acquiring the next
    /// image went. On success the camera takes the frame's actual aspect
    /// ratio, every instance spins one step, and the returned plan covers
    /// the whole mesh and every instance with a depth buffer of the
    /// frame's exact (non-empty) size.
    pub fn redraw_requested(&mut self, outcome: AcquireOutcome) -> (action: FrameAction)
        requires
            old(self).wf(),
            old(self).frames_submitted < u64::MAX,
            forall|i: int|
                0 <= i < old(self).spec_instances().len() ==> (#[trigger] old(
                    self,
                ).spec_instances()[i]).spin_steps < u64::MAX,
        ensures
            final(self)@ == spec_redraw(old(self)@, outcome),
            final(self).wf(),
            !(old(self)@.phase is Configured) ==> action is NotReady,
            old(self)@.phase is Configured ==> match outcome {
                AcquireOutcome::Success { width, height } => action matches FrameAction::Render(
                    plan,
                ) && plan == (FramePlan {
                    depth_width: if width == 0 { 1u32 } else { width },
                    depth_height: if height == 0 { 1u32 } else { height },
                    index_count: crate::data::cube_indices().len() as u32,
                    instance_count: old(self).spec_instances().len() as u32,
                }),
                AcquireOutcome::Outdated => action is SkipAndRetry,
                AcquireOutcome::OtherError => action is Skip,
            },
    {
        self.redraw_pending = false;
        let mut phase = Phase::NoSurface;
        core::mem::swap(&mut phase, &mut self.phase);
        match phase {
            Phase::Configured { width, height, mut res } => {
                match outcome {
                    AcquireOutcome::Success { width: fw, height: fh } => {
                        res.camera.update_aspect_ratio(fw, fh);
                        proof {
                            assert(res.instances.instances@ == old(self).spec_instances());
                        }
                        res.instances.update();
                        proof {
                            assert(res.instances.instances@.len() == old(
                                self,
                            ).spec_instances().len());
                        }
                        let index_count = res.mesh.num_indices;
                        let instance_count = res.instances.num_instances();
                        let (depth_width, depth_height) = depth_extent(fw, fh);
                        self.frames_submitted = self.frames_submitted + 1;
                        self.redraw_pending = true;
                        self.phase = Phase::Configured { width, height, res };
                        proof {
                            assert(self@ =~~= spec_redraw(old(self)@, outcome));
                        }
                        FrameAction::Render(
                            FramePlan { depth_width, depth_height, index_count, instance_count },
                        )
                    }
                    AcquireOutcome::Outdated => {
                        self.redraw_pending = true;
                        self.phase = Phase::Configured { width, height, res };
                        proof {
                            assert(self@ =~~= spec_redraw(old(self)@, outcome));
                        }
                        FrameAction::SkipAndRetry
                    }
                    AcquireOutcome::OtherError => {
                        self.phase = Phase::Configured { width, height, res };
                        proof {
                            assert(self@ =~~= spec_redraw(old(self)@, outcome));
                        }
                        FrameAction::Skip
                    }
                }
            }
            other => {
                self.phase = other;
                proof {
                    assert(self@ =~~= spec_redraw(old(self)@, outcome));
                }
                FrameAction::NotReady
            }
        }
    }

    /// Handle the `CloseRequested` signal: leave the loop.
    pub fn close_requested(&mut self)
        requires
            old(self).wf(),
        ensures
            final(self)@ == spec_close(old(self)@),
            final(self).wf(),
    {
        self.exited = true;
    }

    /// The instance table the current phase holds, if any.
    pub open spec fn spec_instances(self) -> Seq<Instance> {
        match self.phase {
            Phase::ContextReady { res } => res.instances.instances@,
            Phase::Configured { res, .. } => res.instances.instances@,
            _ => Seq::empty(),
        }
    }
}

/// After a suspend, the next resume reaches `Configured` again. With an
/// adapter already cached no new adapter request is made, and the
/// graphics context is rebuilt exactly once, with fresh resources; no
/// frame is submitted along the way.
pub proof fn lemma_suspend_resume_cycle(m: AppModel, width: u32, height: u32)
    requires
        m.adapter_cached,
    ensures
        ({
            let after = spec_resume(spec_suspend(m), width, height);
            &&& after.phase == (PhaseModel::Configured {
                width,
                height,
                res: fresh_resources(m.grid_size),
            })
            &&& after.adapter_requests == m.adapter_requests
            &&& after.context_builds == m.context_builds + 1
            &&& after.frames_submitted == m.frames_submitted
            &&& after.adapter_cached
            &&& after.redraw_pending
        }),
{
}

/// Invariant of every run: the adapter is requested once, the first
/// time a context is ensured, and cached for the process lifetime. The
/// request count is 0 before an adapter is cached and 1 ever after.
pub open spec fn adapter_requested_once(m: AppModel) -> bool {
    m.adapter_requests == if m.adapter_cached {
        1int
    } else {
        0int
    }
}

/// The invariant holds initially and is preserved by every signal.
pub proof fn lemma_adapter_requested_once(m: AppModel, n: int, width: u32, height: u32, outcome: AcquireOutcome)
    ensures
        adapter_requested_once(initial_model(n)),
        adapter_requested_once(m) ==> adapter_requested_once(spec_resume(m, width, height)),
        adapter_requested_once(m) ==> adapter_requested_once(spec_suspend(m)),
        adapter_requested_once(m) ==> adapter_requested_once(spec_resized(m, width, height)),
        adapter_requested_once(m) ==> adapter_requested_once(spec_redraw(m, outcome)),
        adapter_requested_once(m) ==> adapter_requested_once(spec_close(m)),
{
}

/// A resize in `Configured` changes only the configured width and
/// height: the same resources are kept — the context's identity, counted
/// by `context_builds`, is unchanged — and no other field moves.
pub proof fn lemma_resize_preserves_context(m: AppModel, res: ResourcesModel, width: u32, height: u32)
    requires
        m.phase matches PhaseModel::Configured { res: r, .. } && r == res,
    ensures
        spec_resized(m, width, height) == (AppModel {
            phase: PhaseModel::Configured { width, height, res },
            redraw_pending: true,
            ..m
        }),
{
    assert(spec_resized(m, width, height) =~~= (AppModel {
        phase: PhaseModel::Configured { width, height, res },
        redraw_pending: true,
        ..m
    }));
}

} // verus!
