use vstd::prelude::*;

use crate::frame::{frame_plan_spec, FramePlan};
use crate::surface::{
    configured, resized, size_ok, Capabilities, LifecycleError, SurfaceConfig,
};

verus! {

/// Where a frame stands between the request to draw it and its rendering.
#[derive(Clone, Copy, Debug, PartialEq, Eq, Structural)]
pub enum Acquire {
    /// No frame is being acquired.
    Idle,
    /// The first request for the next image is outstanding.
    FirstTry,
    /// The surface was configured again and the request repeated once.
    Retried,
}

/// The controller's state. The surface configuration exists exactly in the
/// states that own a configured surface.
#[derive(Clone, Copy, Debug, PartialEq, Eq, Structural)]
pub enum Phase {
    Uninitialized,
    Active { config: SurfaceConfig, acquire: Acquire },
    Suspended { config: SurfaceConfig },
    Exited,
}

/// A signal delivered to the controller: a platform signal, or the outcome
/// of GPU work that an earlier action asked for.
#[derive(Debug)]
pub enum Event {
    /// A window is available at the given size; `init` is the outcome of
    /// acquiring a device and surface for it, with what the surface supports.
    Resumed { width: u32, height: u32, init: Result<Capabilities, LifecycleError> },
    Resized { width: u32, height: u32 },
    RedrawRequested,
    /// No events are pending.
    Idle,
    CloseRequested,
    Suspended,
    /// Whether the request for the next presentable image succeeded.
    FrameAcquired { ok: bool },
    /// GPU work that an action asked for failed.
    Failed { error: LifecycleError },
    /// Any other signal: accepted and ignored.
    Other,
}

/// What the caller must do after an event.
#[derive(Clone, Copy, Debug, PartialEq, Eq, Structural)]
pub enum Action {
    Nothing,
    /// Apply `config` to the surface; on resumption also build the pipeline
    /// for its format.
    Configure { config: SurfaceConfig, build_pipeline: bool },
    /// Request the next presentable image, then report it.
    AcquireFrame,
    /// Apply `config` to the surface again, request the next image once more,
    /// then report it.
    ReconfigureAndAcquire { config: SurfaceConfig },
    /// Draw the acquired frame by `plan` and present it.
    Render { plan: FramePlan },
    /// Stop the event loop.
    Exit,
    /// Stop on an unrecoverable error.
    Fatal { error: LifecycleError },
}

/// The state that follows `p` on `e`, and the action to take.
pub open spec fn step(p: Phase, e: Event) -> (Phase, Action) {
    match p {
        Phase::Exited => (p, Action::Nothing),
        Phase::Uninitialized | Phase::Suspended { .. } => match e {
            Event::Resumed { width, height, init } => resume_step(width, height, init),
            Event::Failed { error } => (Phase::Exited, Action::Fatal { error }),
            _ => (p, Action::Nothing),
        },
        Phase::Active { config, acquire } => match e {
            Event::Resized { width, height } => {
                if size_ok(width, height) {
                    let c = resized(config, width, height);
                    (
                        Phase::Active { config: c, acquire },
                        Action::Configure { config: c, build_pipeline: false },
                    )
                } else {
                    (p, Action::Nothing)
                }
            },
            Event::RedrawRequested | Event::Idle => {
                if acquire == Acquire::Idle {
                    (Phase::Active { config, acquire: Acquire::FirstTry }, Action::AcquireFrame)
                } else {
                    (p, Action::Nothing)
                }
            },
            Event::FrameAcquired { ok } => {
                if acquire == Acquire::Idle {
                    (p, Action::Nothing)
                } else if ok {
                    (
                        Phase::Active { config, acquire: Acquire::Idle },
                        Action::Render { plan: frame_plan_spec() },
                    )
                } else if acquire == Acquire::FirstTry {
                    (
                        Phase::Active { config, acquire: Acquire::Retried },
                        Action::ReconfigureAndAcquire { config },
                    )
                } else {
                    (
                        Phase::Exited,
                        Action::Fatal { error: LifecycleError::SurfaceAcquireFailed },
                    )
                }
            },
            Event::CloseRequested => (Phase::Exited, Action::Exit),
            Event::Suspended => (Phase::Suspended { config }, Action::Nothing),
            Event::Failed { error } => (Phase::Exited, Action::Fatal { error }),
            _ => (p, Action::Nothing),
        },
    }
}

/// Resumption: with a device and surface at hand, configure the surface and
/// build the pipeline; any failure is fatal.
pub open spec fn resume_step(
    width: u32,
    height: u32,
    init: Result<Capabilities, LifecycleError>,
) -> (Phase, Action) {
    match init {
        Err(error) => (Phase::Exited, Action::Fatal { error }),
        Ok(caps) => match configured(caps, width, height) {
            Ok(config) => (
                Phase::Active { config, acquire: Acquire::Idle },
                Action::Configure { config, build_pipeline: true },
            ),
            Err(error) => (Phase::Exited, Action::Fatal { error }),
        },
    }
}

/// The lifecycle controller of a window's rendering surface.
pub struct AppHandler {
    phase: Phase,
}

impl AppHandler {
    /// The state the controller is in.
    pub closed spec fn view_phase(&self) -> Phase {
        self.phase
    }

    /// A controller that has no window yet.
    pub fn new() -> (r: AppHandler)
        ensures
            r.view_phase() == Phase::Uninitialized,
    {
        AppHandler { phase: Phase::Uninitialized }
    }

    pub fn phase(&self) -> (r: Phase)
        ensures
            r == self.view_phase(),
    {
        self.phase
    }

    /// Takes one signal and returns what the caller must do next.
    pub fn handle(&mut self, e: Event) -> (r: Action)
        ensures
            (final(self).view_phase(), r) == step(old(self).view_phase(), e),
    {
        let p = self.phase;
        match p {
            Phase::Exited => Action::Nothing,
            Phase::Uninitialized | Phase::Suspended { .. } => match e {
                Event::Resumed { width, height, init } => self.resume(width, height, init),
                Event::Failed { error } => {
                    self.phase = Phase::Exited;
                    Action::Fatal { error }
                },
                _ => Action::Nothing,
            },
            Phase::Active { config, acquire } => match e {
                Event::Resized { width, height } => {
                    let mut c = config;
                    if c.resize(width, height) {
                        self.phase = Phase::Active { config: c, acquire };
                        Action::Configure { config: c, build_pipeline: false }
                    } else {
                        Action::Nothing
                    }
                },
                Event::RedrawRequested | Event::Idle => {
                    if acquire == Acquire::Idle {
                        self.phase = Phase::Active { config, acquire: Acquire::FirstTry };
                        Action::AcquireFrame
                    } else {
                        Action::Nothing
                    }
                },
                Event::FrameAcquired { ok } => self.frame_acquired(config, acquire, ok),
                Event::CloseRequested => {
                    self.phase = Phase::Exited;
                    Action::Exit
                },
                Event::Suspended => {
                    self.phase = Phase::Suspended { config };
                    Action::Nothing
                },
                Event::Failed { error } => {
                    self.phase = Phase::Exited;
                    Action::Fatal { error }
                },
                _ => Action::Nothing,
            },
        }
    }

    fn resume(&mut self, width: u32, height: u32, init: Result<Capabilities, LifecycleError>) -> (r: Action)
        ensures
            (final(self).view_phase(), r) == resume_step(width, height, init),
    {
        match init {
            Err(error) => {
                self.phase = Phase::Exited;
                Action::Fatal { error }
            },
            Ok(caps) => match SurfaceConfig::configure(&caps, width, height) {
                Ok(config) => {
                    self.phase = Phase::Active { config, acquire: Acquire::Idle };
                    Action::Configure { config, build_pipeline: true }
                },
                Err(error) => {
                    self.phase = Phase::Exited;
                    Action::Fatal { error }
                },
            },
        }
    }

    /// The bounded retry: one reconfiguration after a failed request for the
    /// next image, and a fatal error when the repeated request fails too.
    fn frame_acquired(&mut self, config: SurfaceConfig, acquire: Acquire, ok: bool) -> (r: Action)
        requires
            old(self).view_phase() == (Phase::Active { config, acquire }),
        ensures
            (final(self).view_phase(), r) == step(
                old(self).view_phase(),
                Event::FrameAcquired { ok },
            ),
    {
        if acquire == Acquire::Idle {
            Action::Nothing
        } else if ok {
            self.phase = Phase::Active { config, acquire: Acquire::Idle };
            Action::Render { plan: FramePlan::standard() }
        } else if acquire == Acquire::FirstTry {
            self.phase = Phase::Active { config, acquire: Acquire::Retried };
            Action::ReconfigureAndAcquire { config }
        } else {
            self.phase = Phase::Exited;
            Action::Fatal { error: LifecycleError::SurfaceAcquireFailed }
        }
    }
}

/// The state reached from `p` through the events `es`, taken in order, and
/// the action returned for each of them.
pub open spec fn run(p: Phase, es: Seq<Event>) -> (Phase, Seq<Action>)
    decreases es.len(),
{
    if es.len() == 0 {
        (p, Seq::empty())
    } else {
        let (q, acts) = run(p, es.drop_last());
        let (r, a) = step(q, es.last());
        (r, acts.push(a))
    }
}

pub open spec fn resize_event(s: (u32, u32)) -> Event {
    Event::Resized { width: s.0, height: s.1 }
}

/// The last size in `sizes` with no zero dimension, or `(width, height)`
/// when there is none.
pub open spec fn latest_size(width: u32, height: u32, sizes: Seq<(u32, u32)>) -> (u32, u32)
    decreases sizes.len(),
{
    if sizes.len() == 0 {
        (width, height)
    } else if size_ok(sizes.last().0, sizes.last().1) {
        sizes.last()
    } else {
        latest_size(width, height, sizes.drop_last())
    }
}

/// After any sequence of resizes, an active surface is configured to the
/// last size delivered with no zero dimension; sizes with a zero dimension
/// leave the configuration as it was.
pub proof fn lemma_resizes_keep_latest(
    config: SurfaceConfig,
    acquire: Acquire,
    sizes: Seq<(u32, u32)>,
)
    ensures
        ({
            let l = latest_size(config.width, config.height, sizes);
            run(Phase::Active { config, acquire }, sizes.map_values(|s: (u32, u32)| resize_event(s))).0
                == (Phase::Active { config: SurfaceConfig { width: l.0, height: l.1, ..config }, acquire })
        }),
    decreases sizes.len(),
{
    let es = sizes.map_values(|s: (u32, u32)| resize_event(s));
    if sizes.len() > 0 {
        let rest = sizes.drop_last();
        assert(es.drop_last() =~= rest.map_values(|s: (u32, u32)| resize_event(s)));
        lemma_resizes_keep_latest(config, acquire, rest);
        assert(es.last() == resize_event(sizes.last()));
    } else {
        assert(SurfaceConfig { width: config.width, height: config.height, ..config } == config);
    }
}

/// A close request while active stops the controller and asks for the loop
/// to end, once: every later event is ignored.
pub proof fn lemma_close_exits_once(config: SurfaceConfig, acquire: Acquire, es: Seq<Event>)
    ensures
        ({
            let (q, acts) = run(Phase::Active { config, acquire }, seq![Event::CloseRequested] + es);
            &&& q == Phase::Exited
            &&& acts.len() == es.len() + 1
            &&& acts[0] == Action::Exit
            &&& forall|i: int| 1 <= i < acts.len() ==> acts[i] == Action::Nothing
        }),
    decreases es.len(),
{
    let p = Phase::Active { config, acquire };
    let all = seq![Event::CloseRequested] + es;
    if es.len() == 0 {
        assert(all.drop_last() =~= Seq::<Event>::empty());
        assert(all.last() == Event::CloseRequested);
        assert(run(p, Seq::<Event>::empty()) == (p, Seq::<Action>::empty()));
    } else {
        assert(all.drop_last() =~= seq![Event::CloseRequested] + es.drop_last());
        assert(all.last() == es.last());
        lemma_close_exits_once(config, acquire, es.drop_last());
    }
}

/// A failed request for the next image is followed by one reconfiguration
/// and one more request: when that succeeds the frame is rendered, when it
/// fails too the error is fatal.
pub proof fn lemma_acquire_retries_once(config: SurfaceConfig)
    ensures
        run(
            Phase::Active { config, acquire: Acquire::Idle },
            seq![
                Event::RedrawRequested,
                Event::FrameAcquired { ok: false },
                Event::FrameAcquired { ok: true },
            ],
        ) == (
            Phase::Active { config, acquire: Acquire::Idle },
            seq![
                Action::AcquireFrame,
                Action::ReconfigureAndAcquire { config },
                Action::Render { plan: frame_plan_spec() },
            ],
        ),
        run(
            Phase::Active { config, acquire: Acquire::Idle },
            seq![
                Event::RedrawRequested,
                Event::FrameAcquired { ok: false },
                Event::FrameAcquired { ok: false },
            ],
        ) == (
            Phase::Exited,
            seq![
                Action::AcquireFrame,
                Action::ReconfigureAndAcquire { config },
                Action::Fatal { error: LifecycleError::SurfaceAcquireFailed },
            ],
        ),
{
    let p = Phase::Active { config, acquire: Acquire::Idle };
    let a = Event::RedrawRequested;
    let f = Event::FrameAcquired { ok: false };
    let t = Event::FrameAcquired { ok: true };
    assert(seq![a, f, t].drop_last() =~= seq![a, f]);
    assert(seq![a, f, f].drop_last() =~= seq![a, f]);
    assert(seq![a, f].drop_last() =~= seq![a]);
    assert(seq![a].drop_last() =~= Seq::<Event>::empty());
    assert(seq![a, f, t].last() == t);
    assert(seq![a, f, f].last() == f);
    assert(seq![a, f].last() == f);
    assert(seq![a].last() == a);
    assert(run(p, Seq::<Event>::empty()) == (p, Seq::<Action>::empty()));
    let q1 = Phase::Active { config, acquire: Acquire::FirstTry };
    assert(run(p, seq![a]).0 == q1);
    assert(run(p, seq![a]).1 =~= seq![Action::AcquireFrame]);
    let q2 = Phase::Active { config, acquire: Acquire::Retried };
    assert(run(p, seq![a, f]).0 == q2);
    assert(run(p, seq![a, f]).1 =~= seq![
        Action::AcquireFrame,
        Action::ReconfigureAndAcquire { config },
    ]);
    assert(run(p, seq![a, f, t]).1 =~= seq![
        Action::AcquireFrame,
        Action::ReconfigureAndAcquire { config },
        Action::Render { plan: frame_plan_spec() },
    ]);
    assert(run(p, seq![a, f, f]).1 =~= seq![
        Action::AcquireFrame,
        Action::ReconfigureAndAcquire { config },
        Action::Fatal { error: LifecycleError::SurfaceAcquireFailed },
    ]);
}

/// Every frame the controller asks to render follows the standard plan: the
/// background clear and a single draw of three vertices.
pub proof fn lemma_render_uses_standard_plan(p: Phase, e: Event)
    ensures
        step(p, e).1 matches Action::Render { plan } ==> plan == frame_plan_spec(),
{
}

} // verus!
