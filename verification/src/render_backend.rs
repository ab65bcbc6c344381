//! The renderers that a border can be drawn with.

use vstd::prelude::*;
use crate::geometry::Size;
use crate::protocol::ErrorCode;

verus! {

/// Which renderer the configuration asks for.
#[derive(Debug, Clone, Copy, PartialEq, Eq, Structural)]
pub enum RenderBackendConfig {
    V2,
    Legacy,
}

impl Default for RenderBackendConfig {
    fn default() -> (r: Self)
        ensures
            r == RenderBackendConfig::V2,
    {
        RenderBackendConfig::V2
    }
}

/// The identity of a display adapter.
#[derive(Debug, Clone, Copy, PartialEq, Eq, Structural)]
pub struct Luid {
    pub low_part: u32,
    pub high_part: i32,
}

/// A renderer on a composition surface: the size of the surface, whether the bitmaps for effects
/// exist, and the adapter that it was made on.
#[derive(Debug, Clone, Copy, PartialEq, Eq, Structural)]
pub struct V2RenderBackend {
    pub surface_size: Size,
    pub border_bitmap: bool,
    pub mask_bitmap: bool,
    pub adapter_luid: Luid,
}

/// A renderer on the border window itself.
#[derive(Debug, Clone, Copy, PartialEq, Eq, Structural)]
pub struct LegacyRenderBackend {}

/// The renderer that a border has.
#[derive(Debug, Clone, Copy, PartialEq, Eq, Structural)]
pub enum RenderBackend {
    V2(V2RenderBackend),
    Legacy(LegacyRenderBackend),
    /// There is no renderer yet, or no longer.
    Absent,
}

impl Default for RenderBackend {
    fn default() -> (r: Self)
        ensures
            r == RenderBackend::Absent,
    {
        RenderBackend::Absent
    }
}

impl RenderBackend {
    /// What `get_pixel_size` returns.
    pub open spec fn pixel_size(self, reported: Size) -> Result<Size, ErrorCode> {
        match self {
            RenderBackend::V2(backend) => Ok(backend.surface_size),
            RenderBackend::Legacy(_) => Ok(reported),
            RenderBackend::Absent => Err(ErrorCode::Uninit),
        }
    }

    /// The size of what the renderer draws on. A composition surface is as large as it was made;
    /// the render target of a window has the size that it reports.
    pub fn get_pixel_size(&self, reported: Size) -> (r: Result<Size, ErrorCode>)
        ensures
            r == self.pixel_size(reported),
    {
        match self {
            RenderBackend::V2(backend) => Ok(backend.surface_size),
            RenderBackend::Legacy(_) => Ok(reported),
            RenderBackend::Absent => Err(ErrorCode::Uninit),
        }
    }

    /// Whether effects can be drawn: only on a composition surface.
    #[verifier::allow_in_spec]
    pub fn supports_effects(&self) -> bool
        returns
            self is V2,
    {
        match self {
            RenderBackend::V2(_) => true,
            _ => false,
        }
    }
}

/// One call into the graphics system. Those for whose answer nothing else is said are answered by
/// `Done` or `Failed`.
#[derive(Debug, Clone, Copy, PartialEq, Eq, Structural)]
pub enum GraphicsCall {
    /// Make a device context. Fails with `Uninit` where there are no devices.
    CreateContext,
    /// Have the edges that are drawn on the context smoothed. Cannot fail.
    SmoothContext,
    /// Lock the graphics system against other threads.
    EnterMultithread,
    /// Unlock it. Cannot fail.
    LeaveMultithread,
    /// Find the adapter of the devices.
    GetAdapter,
    /// Make a composition device for the desktop.
    CreateDesktopDevice,
    /// Make a composition target on a window.
    CreateTarget { window: isize },
    /// Find the composition device proper.
    CastDevice,
    /// Make a visual.
    CreateVisual,
    /// Make a surface.
    CreateSurface { size: Size },
    /// Show the surface in the visual.
    SetContent,
    /// Show the visual in the target.
    SetRoot,
    /// Have the composition take effect.
    Commit,
    /// Make the bitmap that effects are applied to.
    CreateBorderBitmap { size: Size },
    /// Make the bitmap that masks it.
    CreateMaskBitmap { size: Size },
    /// Find out which adapter it is. Answer: `Adapter` or `Failed`.
    DescribeAdapter,
    /// Have the context draw on nothing. Cannot fail.
    ClearTarget,
    /// Show nothing in the visual.
    ClearContent,
    /// Show nothing in the target.
    ClearRoot,
    /// Give up the surface. Cannot fail.
    DropSurface,
    /// Make a render target on a window.
    CreateWindowTarget { window: isize },
    /// Have the edges that are drawn on the render target smoothed. Cannot fail.
    SmoothTarget,
    /// Resize the render target.
    ResizeTarget { size: Size },
}

impl GraphicsCall {
    /// Whether the call can fail.
    #[verifier::allow_in_spec]
    pub fn can_fail(&self) -> bool
        returns
            !(self is SmoothContext || self is LeaveMultithread || self is ClearTarget
                || self is DropSurface || self is SmoothTarget),
    {
        match self {
            GraphicsCall::SmoothContext
            | GraphicsCall::LeaveMultithread
            | GraphicsCall::ClearTarget
            | GraphicsCall::DropSurface
            | GraphicsCall::SmoothTarget => false,
            _ => true,
        }
    }
}

/// The answer to a call into the graphics system.
#[derive(Debug, Clone, Copy, PartialEq, Eq, Structural)]
pub enum Answer {
    Done,
    Adapter(Luid),
    Failed(ErrorCode),
}

/// What a call that succeeds changes in a renderer.
#[derive(Debug, Clone, Copy, PartialEq, Eq, Structural)]
pub enum Effect {
    Nothing,
    /// It has no bitmaps for effects any more.
    ForgetBitmaps,
    /// Its surface has another size.
    AdoptSize(Size),
    /// It has the bitmaps for effects.
    AdoptBitmaps,
    /// It exists, on a composition surface on the adapter that the answer names.
    BecomeV2 { size: Size, bitmaps: bool },
    /// It exists, on a window.
    BecomeLegacy,
}

/// A call, and what it changes.
#[derive(Debug, Clone, Copy, PartialEq, Eq, Structural)]
pub struct PlanStep {
    pub call: GraphicsCall,
    pub effect: Effect,
}

impl PlanStep {
    /// A call that changes nothing in the renderer by itself.
    #[verifier::allow_in_spec]
    pub fn plain(call: GraphicsCall) -> PlanStep
        returns
            (PlanStep { call, effect: Effect::Nothing }),
    {
        PlanStep { call, effect: Effect::Nothing }
    }
}

impl RenderBackend {
    /// The renderer after an effect.
    pub open spec fn changed(self, effect: Effect, answer: Answer) -> RenderBackend {
        match (effect, self) {
            (Effect::ForgetBitmaps, RenderBackend::V2(backend)) => RenderBackend::V2(
                V2RenderBackend { border_bitmap: false, mask_bitmap: false, ..backend },
            ),
            (Effect::AdoptSize(size), RenderBackend::V2(backend)) => RenderBackend::V2(
                V2RenderBackend { surface_size: size, ..backend },
            ),
            (Effect::AdoptBitmaps, RenderBackend::V2(backend)) => RenderBackend::V2(
                V2RenderBackend { border_bitmap: true, mask_bitmap: true, ..backend },
            ),
            (Effect::BecomeV2 { size, bitmaps }, _) => RenderBackend::V2(
                V2RenderBackend {
                    surface_size: size,
                    border_bitmap: bitmaps,
                    mask_bitmap: bitmaps,
                    adapter_luid: answer.luid(),
                },
            ),
            (Effect::BecomeLegacy, _) => RenderBackend::Legacy(LegacyRenderBackend {  }),
            _ => self,
        }
    }

    /// Changes the renderer.
    fn change(&mut self, effect: Effect, answer: Answer)
        ensures
            *final(self) == old(self).changed(effect, answer),
    {
        let changed = match (effect, *self) {
            (Effect::ForgetBitmaps, RenderBackend::V2(backend)) => RenderBackend::V2(
                V2RenderBackend { border_bitmap: false, mask_bitmap: false, ..backend },
            ),
            (Effect::AdoptSize(size), RenderBackend::V2(backend)) => RenderBackend::V2(
                V2RenderBackend { surface_size: size, ..backend },
            ),
            (Effect::AdoptBitmaps, RenderBackend::V2(backend)) => RenderBackend::V2(
                V2RenderBackend { border_bitmap: true, mask_bitmap: true, ..backend },
            ),
            (Effect::BecomeV2 { size, bitmaps }, _) => RenderBackend::V2(
                V2RenderBackend {
                    surface_size: size,
                    border_bitmap: bitmaps,
                    mask_bitmap: bitmaps,
                    adapter_luid: answer.luid(),
                },
            ),
            (Effect::BecomeLegacy, _) => RenderBackend::Legacy(LegacyRenderBackend {  }),
            (_, backend) => backend,
        };
        *self = changed;
    }
}

impl Answer {
    /// The adapter that the answer names, the one with the null identity if it names none.
    #[verifier::allow_in_spec]
    pub fn luid(&self) -> Luid
        returns
            (match *self {
                Answer::Adapter(luid) => luid,
                _ => Luid { low_part: 0, high_part: 0 },
            }),
    {
        match *self {
            Answer::Adapter(luid) => luid,
            _ => Luid { low_part: 0, high_part: 0 },
        }
    }
}

// Plans.

/// The calls by which a renderer lets go of what it shows.
pub open spec fn release_plan(effect: Effect) -> Seq<PlanStep> {
    seq![
        PlanStep::plain(GraphicsCall::ClearTarget),
        PlanStep::plain(GraphicsCall::EnterMultithread),
        PlanStep::plain(GraphicsCall::ClearContent),
        PlanStep::plain(GraphicsCall::ClearRoot),
        PlanStep::plain(GraphicsCall::Commit),
        PlanStep { call: GraphicsCall::LeaveMultithread, effect },
    ]
}

/// The calls by which a surface is made and shown.
pub open spec fn surface_plan(size: Size) -> Seq<PlanStep> {
    seq![
        PlanStep::plain(GraphicsCall::CreateSurface { size }),
        PlanStep::plain(GraphicsCall::SetContent),
        PlanStep::plain(GraphicsCall::SetRoot),
        PlanStep::plain(GraphicsCall::Commit),
    ]
}

/// The calls by which the bitmaps for effects are made, if they are wanted.
pub open spec fn bitmap_plan(size: Size, wanted: bool, effect: Effect) -> Seq<PlanStep> {
    if wanted {
        seq![
            PlanStep::plain(GraphicsCall::CreateBorderBitmap { size }),
            PlanStep { call: GraphicsCall::CreateMaskBitmap { size }, effect },
        ]
    } else {
        seq![]
    }
}

/// The calls by which a composition on a window is begun.
pub open spec fn opening_plan(window: isize) -> Seq<PlanStep> {
    seq![
        PlanStep::plain(GraphicsCall::CreateContext),
        PlanStep::plain(GraphicsCall::SmoothContext),
        PlanStep::plain(GraphicsCall::EnterMultithread),
        PlanStep::plain(GraphicsCall::GetAdapter),
        PlanStep::plain(GraphicsCall::CreateDesktopDevice),
        PlanStep::plain(GraphicsCall::CreateTarget { window }),
        PlanStep::plain(GraphicsCall::CastDevice),
        PlanStep::plain(GraphicsCall::CreateVisual),
    ]
}

/// The calls by which a renderer on a composition surface is made.
pub open spec fn new_plan(size: Size, window: isize, bitmaps: bool) -> Seq<PlanStep> {
    opening_plan(window) + surface_plan(size) + seq![
        PlanStep::plain(GraphicsCall::LeaveMultithread),
    ] + bitmap_plan(
        size,
        bitmaps,
        Effect::Nothing,
    ) + seq![
        PlanStep {
            call: GraphicsCall::DescribeAdapter,
            effect: Effect::BecomeV2 { size, bitmaps },
        },
    ]
}

/// The calls by which a renderer on a composition surface gets a surface of another size.
pub open spec fn resize_plan(size: Size, bitmaps: bool) -> Seq<PlanStep> {
    release_plan(Effect::ForgetBitmaps) + seq![PlanStep::plain(GraphicsCall::EnterMultithread)]
        + surface_plan(size) + seq![
        PlanStep { call: GraphicsCall::LeaveMultithread, effect: Effect::AdoptSize(size) },
    ] + bitmap_plan(size, bitmaps, Effect::AdoptBitmaps)
}

/// The calls by which a renderer on a window is made.
pub open spec fn window_target_plan(window: isize) -> Seq<PlanStep> {
    seq![
        PlanStep::plain(GraphicsCall::CreateWindowTarget { window }),
        PlanStep { call: GraphicsCall::SmoothTarget, effect: Effect::BecomeLegacy },
    ]
}

/// Appends the calls of `release_plan`.
fn push_release(steps: &mut Vec<PlanStep>, effect: Effect)
    ensures
        final(steps)@ == old(steps)@ + release_plan(effect),
{
    steps.push(PlanStep::plain(GraphicsCall::ClearTarget));
    steps.push(PlanStep::plain(GraphicsCall::EnterMultithread));
    steps.push(PlanStep::plain(GraphicsCall::ClearContent));
    steps.push(PlanStep::plain(GraphicsCall::ClearRoot));
    steps.push(PlanStep::plain(GraphicsCall::Commit));
    steps.push(PlanStep { call: GraphicsCall::LeaveMultithread, effect });
}

/// Appends the calls of `surface_plan`.
fn push_surface(steps: &mut Vec<PlanStep>, size: Size)
    ensures
        final(steps)@ == old(steps)@ + surface_plan(size),
{
    steps.push(PlanStep::plain(GraphicsCall::CreateSurface { size }));
    steps.push(PlanStep::plain(GraphicsCall::SetContent));
    steps.push(PlanStep::plain(GraphicsCall::SetRoot));
    steps.push(PlanStep::plain(GraphicsCall::Commit));
}

/// Appends the calls of `bitmap_plan`.
fn push_bitmaps(steps: &mut Vec<PlanStep>, size: Size, wanted: bool, effect: Effect)
    ensures
        final(steps)@ == old(steps)@ + bitmap_plan(size, wanted, effect),
{
    if wanted {
        steps.push(PlanStep::plain(GraphicsCall::CreateBorderBitmap { size }));
        steps.push(PlanStep { call: GraphicsCall::CreateMaskBitmap { size }, effect });
    }
}

// Jobs.

/// Whether the lock on the graphics system is held after a call that succeeded.
pub open spec fn locked_after(call: GraphicsCall, held: bool) -> bool {
    match call {
        GraphicsCall::EnterMultithread => true,
        GraphicsCall::LeaveMultithread => false,
        _ => held,
    }
}

/// Whether some calls, made one after the other, take the lock only while it is not held and leave
/// it only while it is. `held` says whether it is held at the start, `end` whether it is held in
/// the end.
pub open spec fn is_guarded(plan: Seq<PlanStep>, held: bool, end: bool) -> bool
    decreases plan.len(),
{
    if plan.len() == 0 {
        held == end
    } else {
        let call = plan.first().call;
        &&& call is EnterMultithread ==> !held
        &&& call is LeaveMultithread ==> held
        &&& is_guarded(plan.drop_first(), locked_after(call, held), end)
    }
}

/// Calls that are guarded one part after the other are guarded.
proof fn lemma_parts_are_guarded(
    first: Seq<PlanStep>,
    second: Seq<PlanStep>,
    held: bool,
    between: bool,
    end: bool,
)
    requires
        is_guarded(first, held, between),
        is_guarded(second, between, end),
    ensures
        is_guarded(first + second, held, end),
    decreases first.len(),
{
    if first.len() == 0 {
        assert(first + second =~= second);
    } else {
        let both = first + second;
        assert(both.drop_first() =~= first.drop_first() + second);
        lemma_parts_are_guarded(
            first.drop_first(),
            second,
            locked_after(first.first().call, held),
            between,
            end,
        );
    }
}

/// The calls that are made when one fails: the lock is left, and a renderer that is being given up
/// gives up its surface all the same.
pub open spec fn unwinding(held: bool, parting: bool) -> Seq<PlanStep> {
    let leave = if held {
        seq![PlanStep::plain(GraphicsCall::LeaveMultithread)]
    } else {
        seq![]
    };
    let drop = if parting {
        seq![PlanStep::plain(GraphicsCall::DropSurface)]
    } else {
        seq![]
    };
    leave + drop
}

/// Work on a renderer that is under way.
#[derive(Debug)]
pub struct Job {
    /// The renderer as it is.
    pub backend: RenderBackend,
    /// The calls that are still to be made.
    pub plan: Vec<PlanStep>,
    /// How many of them have been made.
    pub at: usize,
    /// Whether the lock on the graphics system is held.
    pub held: bool,
    /// Whether the renderer is being given up.
    pub parting: bool,
    /// Why the work failed, if it did.
    pub failure: Option<ErrorCode>,
}

impl Job {
    /// The calls that are still to be made.
    pub open spec fn todo(self) -> Seq<PlanStep> {
        self.plan@.skip(self.at as int)
    }

    /// The calls that are still to be made are guarded.
    pub open spec fn well_formed(self) -> bool {
        &&& self.at <= self.plan@.len()
        &&& is_guarded(self.todo(), self.held, false)
    }

    /// Whether the job has just begun with a plan for a renderer.
    pub open spec fn begins(
        self,
        backend: RenderBackend,
        plan: Seq<PlanStep>,
        parting: bool,
    ) -> bool {
        &&& self.backend == backend
        &&& self.todo() == plan
        &&& self.held == false
        &&& self.parting == parting
        &&& self.failure is None
    }

    /// A job that makes some calls.
    fn start(backend: RenderBackend, plan: Vec<PlanStep>, parting: bool) -> (r: Self)
        requires
            is_guarded(plan@, false, false),
        ensures
            r.well_formed(),
            r.begins(backend, plan@, parting),
    {
        let r = Job { backend, plan, at: 0, held: false, parting, failure: None };
        proof {
            assert(r.todo() =~= plan@);
        }
        r
    }

    /// The call that is to be made now, if the job is not done.
    pub fn call(&self) -> (r: Option<GraphicsCall>)
        requires
            self.well_formed(),
        ensures
            self.todo().len() == 0 ==> r is None && !self.held,
            self.todo().len() > 0 ==> r == Some(self.todo().first().call),
    {
        if self.at < self.plan.len() {
            Some(self.plan[self.at].call)
        } else {
            None
        }
    }

    /// Takes the answer to the call. If it failed, the rest of the plan is dropped and the lock
    /// is left; otherwise the call takes effect.
    pub fn answer(&mut self, answer: Answer)
        requires
            old(self).well_formed(),
            old(self).todo().len() > 0,
        ensures
            final(self).well_formed(),
            final(self).parting == old(self).parting,
            ({
                let step = old(self).todo().first();
                match answer {
                    Answer::Failed(code) if step.call.can_fail() => {
                        &&& final(self).failure == Some(code)
                        &&& final(self).todo() == unwinding(old(self).held, old(self).parting)
                        &&& final(self).held == old(self).held
                        &&& final(self).backend == old(self).backend
                    },
                    _ => {
                        &&& final(self).failure == old(self).failure
                        &&& final(self).todo() == old(self).todo().drop_first()
                        &&& final(self).held == locked_after(step.call, old(self).held)
                        &&& final(self).backend == old(self).backend.changed(step.effect, answer)
                    },
                }
            }),
    {
        let step = self.plan[self.at];
        assert(self.at < self.plan.len());
        match answer {
            Answer::Failed(code) if step.call.can_fail() => {
                self.failure = Some(code);
                let mut plan: Vec<PlanStep> = Vec::new();
                if self.held {
                    plan.push(PlanStep::plain(GraphicsCall::LeaveMultithread));
                }
                if self.parting {
                    plan.push(PlanStep::plain(GraphicsCall::DropSurface));
                }
                self.plan = plan;
                self.at = 0;
                proof {
                    assert(self.todo() =~= unwinding(old(self).held, old(self).parting));
                    lemma_unwinding_is_guarded(old(self).held, old(self).parting);
                }
            },
            _ => {
                self.at = self.at + 1;
                match step.call {
                    GraphicsCall::EnterMultithread => {
                        self.held = true;
                    },
                    GraphicsCall::LeaveMultithread => {
                        self.held = false;
                    },
                    _ => {},
                }
                self.backend.change(step.effect, answer);
                proof {
                    assert(self.todo() =~= old(self).todo().drop_first());
                }
            },
        }
    }

    /// How the job ended.
    pub fn result(&self) -> (r: Result<RenderBackend, ErrorCode>)
        ensures
            r == (match self.failure {
                Some(code) => Err::<RenderBackend, ErrorCode>(code),
                None => Ok::<RenderBackend, ErrorCode>(self.backend),
            }),
    {
        match self.failure {
            Some(code) => Err(code),
            None => Ok(self.backend),
        }
    }
}

proof fn lemma_unwinding_is_guarded(held: bool, parting: bool)
    ensures
        is_guarded(unwinding(held, parting), held, false),
{
    reveal_with_fuel(is_guarded, 3);
    let plan = unwinding(held, parting);
    if held && parting {
        assert(plan.drop_first() =~= seq![PlanStep::plain(GraphicsCall::DropSurface)]);
    }
}

proof fn lemma_parts_of_plans_are_guarded(
    size: Size,
    window: isize,
    bitmaps: bool,
    effect: Effect,
)
    ensures
        is_guarded(release_plan(effect), false, false),
        is_guarded(surface_plan(size), true, true),
        is_guarded(bitmap_plan(size, bitmaps, effect), false, false),
        is_guarded(opening_plan(window), false, true),
{
    reveal_with_fuel(is_guarded, 9);
}

proof fn lemma_new_plan_is_guarded(size: Size, window: isize, bitmaps: bool)
    ensures
        is_guarded(new_plan(size, window, bitmaps), false, false),
{
    lemma_parts_of_plans_are_guarded(size, window, bitmaps, Effect::Nothing);
    let opened = opening_plan(window);
    let shown = opened + surface_plan(size);
    let leave = seq![PlanStep::plain(GraphicsCall::LeaveMultithread)];
    let describe = seq![
        PlanStep {
            call: GraphicsCall::DescribeAdapter,
            effect: Effect::BecomeV2 { size, bitmaps },
        },
    ];
    assert(is_guarded(leave, true, false) && is_guarded(describe, false, false)) by {
        reveal_with_fuel(is_guarded, 2);
    }
    lemma_parts_are_guarded(opened, surface_plan(size), false, true, true);
    lemma_parts_are_guarded(shown, leave, false, true, false);
    let bare = bitmap_plan(size, bitmaps, Effect::Nothing);
    lemma_parts_are_guarded(shown + leave, bare, false, false, false);
    lemma_parts_are_guarded(shown + leave + bare, describe, false, false, false);
}

proof fn lemma_resize_plan_is_guarded(size: Size, bitmaps: bool)
    ensures
        is_guarded(resize_plan(size, bitmaps), false, false),
{
    lemma_parts_of_plans_are_guarded(size, 0, bitmaps, Effect::ForgetBitmaps);
    lemma_parts_of_plans_are_guarded(size, 0, bitmaps, Effect::AdoptBitmaps);
    let released = release_plan(Effect::ForgetBitmaps);
    let enter = seq![PlanStep::plain(GraphicsCall::EnterMultithread)];
    let leave = seq![
        PlanStep { call: GraphicsCall::LeaveMultithread, effect: Effect::AdoptSize(size) },
    ];
    assert(is_guarded(enter, false, true) && is_guarded(leave, true, false)) by {
        reveal_with_fuel(is_guarded, 2);
    }
    lemma_parts_are_guarded(released, enter, false, false, true);
    lemma_parts_are_guarded(released + enter, surface_plan(size), false, true, true);
    let shown = released + enter + surface_plan(size);
    lemma_parts_are_guarded(shown, leave, false, true, false);
    lemma_parts_are_guarded(
        shown + leave,
        bitmap_plan(size, bitmaps, Effect::AdoptBitmaps),
        false,
        false,
        false,
    );
}

impl V2RenderBackend {
    /// Makes a renderer on a composition surface on a window, with the bitmaps for effects if
    /// they are wanted.
    pub fn new(width: u32, height: u32, border_window: isize, create_extra_bitmaps: bool) -> (r:
        Job)
        ensures
            r.well_formed(),
            r.begins(
                RenderBackend::Absent,
                new_plan(Size { width, height }, border_window, create_extra_bitmaps),
                false,
            ),
    {
        let size = Size { width, height };
        let mut plan: Vec<PlanStep> = Vec::new();
        plan.push(PlanStep::plain(GraphicsCall::CreateContext));
        plan.push(PlanStep::plain(GraphicsCall::SmoothContext));
        plan.push(PlanStep::plain(GraphicsCall::EnterMultithread));
        plan.push(PlanStep::plain(GraphicsCall::GetAdapter));
        plan.push(PlanStep::plain(GraphicsCall::CreateDesktopDevice));
        plan.push(PlanStep::plain(GraphicsCall::CreateTarget { window: border_window }));
        plan.push(PlanStep::plain(GraphicsCall::CastDevice));
        plan.push(PlanStep::plain(GraphicsCall::CreateVisual));
        push_surface(&mut plan, size);
        plan.push(PlanStep::plain(GraphicsCall::LeaveMultithread));
        push_bitmaps(&mut plan, size, create_extra_bitmaps, Effect::Nothing);
        plan.push(
            PlanStep {
                call: GraphicsCall::DescribeAdapter,
                effect: Effect::BecomeV2 { size, bitmaps: create_extra_bitmaps },
            },
        );
        proof {
            lemma_new_plan_is_guarded(size, border_window, create_extra_bitmaps);
            assert(plan@ =~= new_plan(size, border_window, create_extra_bitmaps));
        }
        Job::start(RenderBackend::Absent, plan, false)
    }

    /// Has the renderer let go of what it shows.
    pub fn release_references(self) -> (r: Job)
        ensures
            r.well_formed(),
            r.begins(RenderBackend::V2(self), release_plan(Effect::Nothing), false),
    {
        let mut plan: Vec<PlanStep> = Vec::new();
        push_release(&mut plan, Effect::Nothing);
        proof {
            lemma_parts_of_plans_are_guarded(self.surface_size, 0, false, Effect::Nothing);
            assert(plan@ =~= release_plan(Effect::Nothing));
        }
        Job::start(RenderBackend::V2(self), plan, false)
    }

    /// Gives the renderer a surface of another size, with the bitmaps for effects if they are
    /// wanted.
    pub fn resize(self, width: u32, height: u32, create_extra_bitmaps: bool) -> (r: Job)
        ensures
            r.well_formed(),
            r.begins(
                RenderBackend::V2(self),
                resize_plan(Size { width, height }, create_extra_bitmaps),
                false,
            ),
    {
        let size = Size { width, height };
        let mut plan: Vec<PlanStep> = Vec::new();
        push_release(&mut plan, Effect::ForgetBitmaps);
        plan.push(PlanStep::plain(GraphicsCall::EnterMultithread));
        push_surface(&mut plan, size);
        plan.push(
            PlanStep { call: GraphicsCall::LeaveMultithread, effect: Effect::AdoptSize(size) },
        );
        push_bitmaps(&mut plan, size, create_extra_bitmaps, Effect::AdoptBitmaps);
        proof {
            lemma_resize_plan_is_guarded(size, create_extra_bitmaps);
            assert(plan@ =~= resize_plan(size, create_extra_bitmaps));
        }
        Job::start(RenderBackend::V2(self), plan, false)
    }

    /// Gives the renderer up. Its surface goes before everything else of it, even if it cannot
    /// let go of what it shows.
    pub fn give_up(self) -> (r: Job)
        ensures
            r.well_formed(),
            r.begins(
                RenderBackend::V2(self),
                release_plan(Effect::Nothing).push(PlanStep::plain(GraphicsCall::DropSurface)),
                true,
            ),
    {
        let mut plan: Vec<PlanStep> = Vec::new();
        push_release(&mut plan, Effect::Nothing);
        plan.push(PlanStep::plain(GraphicsCall::DropSurface));
        proof {
            let release = release_plan(Effect::Nothing);
            let drop = seq![PlanStep::plain(GraphicsCall::DropSurface)];
            lemma_parts_of_plans_are_guarded(self.surface_size, 0, false, Effect::Nothing);
            assert(is_guarded(drop, false, false)) by {
                reveal_with_fuel(is_guarded, 2);
            }
            lemma_parts_are_guarded(release, drop, false, false, false);
            assert(plan@ =~= release + drop);
            assert(plan@ =~= release.push(drop[0]));
        }
        Job::start(RenderBackend::V2(self), plan, true)
    }
}

impl LegacyRenderBackend {
    /// Makes a renderer on a window.
    pub fn new(border_window: isize) -> (r: Job)
        ensures
            r.well_formed(),
            r.begins(RenderBackend::Absent, window_target_plan(border_window), false),
    {
        let mut plan: Vec<PlanStep> = Vec::new();
        plan.push(PlanStep::plain(GraphicsCall::CreateWindowTarget { window: border_window }));
        plan.push(
            PlanStep { call: GraphicsCall::SmoothTarget, effect: Effect::BecomeLegacy },
        );
        proof {
            reveal_with_fuel(is_guarded, 3);
            assert(plan@ =~= window_target_plan(border_window));
        }
        Job::start(RenderBackend::Absent, plan, false)
    }

    /// Gives the render target another size.
    pub fn resize(self, width: u32, height: u32) -> (r: Job)
        ensures
            r.well_formed(),
            r.begins(
                RenderBackend::Legacy(self),
                seq![
                    PlanStep::plain(GraphicsCall::ResizeTarget { size: Size { width, height } }),
                ],
                false,
            ),
    {
        let size = Size { width, height };
        let mut plan: Vec<PlanStep> = Vec::new();
        plan.push(PlanStep::plain(GraphicsCall::ResizeTarget { size }));
        proof {
            reveal_with_fuel(is_guarded, 2);
            assert(plan@ =~= seq![PlanStep::plain(GraphicsCall::ResizeTarget { size })]);
        }
        Job::start(RenderBackend::Legacy(self), plan, false)
    }
}

impl RenderBackendConfig {
    /// Makes the renderer that the configuration asks for.
    pub fn to_render_backend(
        self,
        width: u32,
        height: u32,
        border_window: isize,
        create_extra_bitmaps: bool,
    ) -> (r: Job)
        ensures
            r.well_formed(),
            r.begins(
                RenderBackend::Absent,
                match self {
                    RenderBackendConfig::V2 => new_plan(
                        Size { width, height },
                        border_window,
                        create_extra_bitmaps,
                    ),
                    RenderBackendConfig::Legacy => window_target_plan(border_window),
                },
                false,
            ),
    {
        match self {
            RenderBackendConfig::V2 => V2RenderBackend::new(
                width,
                height,
                border_window,
                create_extra_bitmaps,
            ),
            RenderBackendConfig::Legacy => LegacyRenderBackend::new(border_window),
        }
    }
}

impl RenderBackend {
    /// Gives the renderer another size. Fails if there is none.
    pub fn resize(self, width: u32, height: u32, create_extra_bitmaps: bool) -> (r: Result<
        Job,
        ErrorCode,
    >)
        ensures
            match self {
                RenderBackend::V2(_) => r matches Ok(job) && job.well_formed() && job.begins(
                    self,
                    resize_plan(Size { width, height }, create_extra_bitmaps),
                    false,
                ),
                RenderBackend::Legacy(_) => r matches Ok(job) && job.well_formed() && job.begins(
                    self,
                    seq![
                        PlanStep::plain(
                            GraphicsCall::ResizeTarget { size: Size { width, height } },
                        ),
                    ],
                    false,
                ),
                RenderBackend::Absent => r matches Err(code) && code == ErrorCode::Uninit,
            },
    {
        match self {
            RenderBackend::V2(backend) => Ok(backend.resize(width, height, create_extra_bitmaps)),
            RenderBackend::Legacy(backend) => Ok(backend.resize(width, height)),
            RenderBackend::Absent => Err(ErrorCode::Uninit),
        }
    }
}

// What becomes of a renderer.

/// The renderer after some calls that succeed, where the adapter is found to be `luid`.
pub open spec fn after_calls(
    backend: RenderBackend,
    plan: Seq<PlanStep>,
    luid: Luid,
) -> RenderBackend
    decreases plan.len(),
{
    if plan.len() == 0 {
        backend
    } else {
        after_calls(
            backend.changed(plan.first().effect, Answer::Adapter(luid)),
            plan.drop_first(),
            luid,
        )
    }
}

/// A renderer on a composition surface that could be made has the size that was asked for, the
/// bitmaps for effects if and only if they were wanted, and knows its adapter.
pub proof fn a_new_renderer_is_what_was_asked_for(
    size: Size,
    window: isize,
    bitmaps: bool,
    luid: Luid,
)
    ensures
        after_calls(RenderBackend::Absent, new_plan(size, window, bitmaps), luid)
            == RenderBackend::V2(
            V2RenderBackend {
                surface_size: size,
                border_bitmap: bitmaps,
                mask_bitmap: bitmaps,
                adapter_luid: luid,
            },
        ),
{
    reveal_with_fuel(after_calls, 17);
}

/// A renderer on a composition surface that could be resized has the new size, the bitmaps for
/// effects if and only if they were wanted, and the adapter that it had.
pub proof fn a_resized_renderer_is_what_was_asked_for(
    backend: V2RenderBackend,
    size: Size,
    bitmaps: bool,
    luid: Luid,
)
    ensures
        after_calls(RenderBackend::V2(backend), resize_plan(size, bitmaps), luid)
            == RenderBackend::V2(
            V2RenderBackend {
                surface_size: size,
                border_bitmap: bitmaps,
                mask_bitmap: bitmaps,
                adapter_luid: backend.adapter_luid,
            },
        ),
{
    reveal_with_fuel(after_calls, 15);
}

/// Whether a renderer is on a composition surface of one of two sizes, with both bitmaps for
/// effects or with neither.
pub open spec fn is_whole(backend: RenderBackend, before: Size, after: Size) -> bool {
    backend matches RenderBackend::V2(backend) && backend.border_bitmap == backend.mask_bitmap && (
    backend.surface_size == before || backend.surface_size == after)
}

/// However far resizing gets, the renderer has both bitmaps for effects or neither, and its
/// surface has the old size or the new one.
pub proof fn a_renderer_is_whole_at_all_times(
    backend: RenderBackend,
    before: Size,
    size: Size,
    bitmaps: bool,
    luid: Luid,
    calls: int,
)
    requires
        is_whole(backend, before, size),
        0 <= calls <= resize_plan(size, bitmaps).len(),
    ensures
        is_whole(
            after_calls(backend, resize_plan(size, bitmaps).take(calls), luid),
            before,
            size,
        ),
{
    let plan = resize_plan(size, bitmaps).take(calls);
    assert forall|i: int| 0 <= i < plan.len() implies keeps_whole(
        #[trigger] plan[i].effect,
        size,
    ) by {
    }
    lemma_stays_whole(backend, plan, before, size, luid);
}

spec fn keeps_whole(effect: Effect, size: Size) -> bool {
    effect is Nothing || effect is ForgetBitmaps || effect is AdoptBitmaps || effect
        == Effect::AdoptSize(size)
}

proof fn lemma_stays_whole(
    backend: RenderBackend,
    plan: Seq<PlanStep>,
    before: Size,
    size: Size,
    luid: Luid,
)
    requires
        is_whole(backend, before, size),
        forall|i: int| 0 <= i < plan.len() ==> keeps_whole(#[trigger] plan[i].effect, size),
    ensures
        is_whole(after_calls(backend, plan, luid), before, size),
    decreases plan.len(),
{
    if plan.len() > 0 {
        assert(keeps_whole(plan[0].effect, size));
        assert forall|i: int| 0 <= i < plan.drop_first().len() implies keeps_whole(
            #[trigger] plan.drop_first()[i].effect,
            size,
        ) by {
            assert(plan.drop_first()[i] == plan[i + 1]);
        }
        lemma_stays_whole(
            backend.changed(plan.first().effect, Answer::Adapter(luid)),
            plan.drop_first(),
            before,
            size,
            luid,
        );
    }
}

/// A job that has ended does not hold the lock, whether it failed or not.
pub proof fn a_job_leaves_the_lock(job: Job)
    requires
        job.well_formed(),
        job.todo().len() == 0,
    ensures
        !job.held,
{
}

/// After a failure only calls that cannot fail are made: at most one to leave the lock and one to
/// give up the surface.
pub proof fn a_failed_job_only_cleans_up(held: bool, parting: bool)
    ensures
        unwinding(held, parting).len() <= 2,
        forall|i: int|
            0 <= i < unwinding(held, parting).len()
                ==> !(#[trigger] unwinding(held, parting)[i]).call.can_fail(),
        parting ==> unwinding(held, parting).last().call is DropSurface,
        held ==> unwinding(held, parting).first().call is LeaveMultithread,
{
}

/// The drawing that one guard stands for, from its beginning until it is ended.
#[derive(Debug, PartialEq, Eq)]
pub struct DrawGuard {
    pub active: bool,
}

impl DrawGuard {
    /// Drawing has begun.
    pub fn begin() -> (r: Self)
        ensures
            r.active,
    {
        DrawGuard { active: true }
    }

    /// Whether the drawing is to be ended now, because it is finished or because the guard goes
    /// away: once, whichever comes first.
    pub fn end(&mut self) -> (r: bool)
        ensures
            r == old(self).active,
            !final(self).active,
    {
        let active = self.active;
        self.active = false;
        active
    }
}

} // verus!
