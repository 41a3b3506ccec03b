//! Decisions of the frame lifecycle: when to acquire the next surface image,
//! when to reconfigure the surface and retry, when to give up, and the order
//! in which a finished frame is ended, submitted and presented. The caller
//! performs each action on the rendering device and reports back.
use vstd::prelude::*;

verus! {

/// How many times one frame reconfigures the surface and retries after a
/// failed acquisition before it gives up.
pub const MAX_ACQUIRE_RETRIES: u32 = 3;

/// Where the current frame stands.
#[derive(Clone, Copy, Debug, PartialEq, Eq, Structural)]
pub enum FramePhase {
    /// No frame is open.
    Idle,
    /// Waiting for the next surface image.
    Acquiring,
    /// A render pass is open and being recorded.
    Recording,
}

/// What the caller reports.
#[derive(Clone, Copy, Debug, PartialEq, Eq, Structural)]
pub enum FrameEvent {
    /// A redraw wants a frame.
    Begin,
    /// The surface handed out its next image.
    Acquired,
    /// The surface could not hand out an image (lost or outdated).
    AcquireFailed,
    /// Drawing is done.
    Finish,
}

/// What the caller is to do, in the order given.
#[derive(Clone, Copy, Debug, PartialEq, Eq, Structural)]
pub enum FrameAction {
    /// Configure the surface with this size and the kept settings.
    Configure { width: u32, height: u32 },
    /// Ask the surface for its next image.
    Acquire,
    /// Open a command recording and a render pass that clears the acquired
    /// image to opaque black.
    OpenPass,
    /// End the render pass, releasing the command recorder.
    EndPass,
    /// Submit the recorded commands to the device queue.
    Submit,
    /// Present the acquired image.
    Present,
}

/// Why a frame event was refused.
#[derive(Clone, Copy, Debug, PartialEq, Eq, Structural)]
pub enum FrameError {
    /// Acquisition kept failing after every retry; the frame is skipped.
    SurfaceUnavailable,
    /// The event does not fit the current phase (finishing twice, say).
    OutOfOrder,
}

/// The lifecycle of the frames drawn to one surface, with the surface size
/// it is configured with.
#[derive(Clone, Copy, Debug, PartialEq, Eq, Structural)]
pub struct FrameLifecycle {
    pub phase: FramePhase,
    pub retries: u32,
    pub width: u32,
    pub height: u32,
}

impl FrameLifecycle {
    /// No frame open, the surface configured with `width` × `height`.
    pub fn new(width: u32, height: u32) -> (r: FrameLifecycle)
        ensures
            r == (FrameLifecycle { phase: FramePhase::Idle, retries: 0, width, height }),
    {
        FrameLifecycle { phase: FramePhase::Idle, retries: 0, width, height }
    }

    /// The next state and the actions, or the refusal, for `ev`.
    pub open spec fn step(self, ev: FrameEvent) -> (FrameLifecycle, Result<Seq<FrameAction>, FrameError>) {
        match (self.phase, ev) {
            (FramePhase::Idle, FrameEvent::Begin) => (
                FrameLifecycle { phase: FramePhase::Acquiring, retries: 0, ..self },
                Ok(seq![FrameAction::Acquire]),
            ),
            (FramePhase::Acquiring, FrameEvent::Acquired) => (
                FrameLifecycle { phase: FramePhase::Recording, ..self },
                Ok(seq![FrameAction::OpenPass]),
            ),
            (FramePhase::Acquiring, FrameEvent::AcquireFailed) => if self.retries < MAX_ACQUIRE_RETRIES {
                (
                    FrameLifecycle { retries: (self.retries + 1) as u32, ..self },
                    Ok(
                        seq![
                            FrameAction::Configure { width: self.width, height: self.height },
                            FrameAction::Acquire,
                        ],
                    ),
                )
            } else {
                (
                    FrameLifecycle { phase: FramePhase::Idle, retries: 0, ..self },
                    Err(FrameError::SurfaceUnavailable),
                )
            },
            (FramePhase::Recording, FrameEvent::Finish) => (
                FrameLifecycle { phase: FramePhase::Idle, ..self },
                Ok(seq![FrameAction::EndPass, FrameAction::Submit, FrameAction::Present]),
            ),
            _ => (self, Err(FrameError::OutOfOrder)),
        }
    }

    /// Applies `ev`: returns the actions to perform, in order, or why the
    /// event is refused.
    ///
    /// `Begin` asks for an image; a failed acquisition reconfigures the
    /// surface with the last size and asks again, at most
    /// `MAX_ACQUIRE_RETRIES` times per frame, then gives up with
    /// `SurfaceUnavailable`; an acquired image opens the pass; `Finish` ends
    /// the pass, submits, then presents. Any other event leaves the state as
    /// it was and is refused with `OutOfOrder`.
    pub fn handle(&mut self, ev: FrameEvent) -> (r: Result<Vec<FrameAction>, FrameError>)
        ensures
            *final(self) == old(self).step(ev).0,
            match r {
                Ok(actions) => old(self).step(ev).1 == Ok::<Seq<FrameAction>, FrameError>(actions@),
                Err(e) => old(self).step(ev).1 == Err::<Seq<FrameAction>, FrameError>(e),
            },
    {
        match (self.phase, ev) {
            (FramePhase::Idle, FrameEvent::Begin) => {
                self.phase = FramePhase::Acquiring;
                self.retries = 0;
                let actions = vec![FrameAction::Acquire];
                assert(actions@ == seq![FrameAction::Acquire]);
                Ok(actions)
            },
            (FramePhase::Acquiring, FrameEvent::Acquired) => {
                self.phase = FramePhase::Recording;
                let actions = vec![FrameAction::OpenPass];
                assert(actions@ == seq![FrameAction::OpenPass]);
                Ok(actions)
            },
            (FramePhase::Acquiring, FrameEvent::AcquireFailed) => {
                if self.retries < MAX_ACQUIRE_RETRIES {
                    self.retries = self.retries + 1;
                    let actions = vec![
                        FrameAction::Configure { width: self.width, height: self.height },
                        FrameAction::Acquire,
                    ];
                    assert(actions@ == seq![
                        FrameAction::Configure { width: self.width, height: self.height },
                        FrameAction::Acquire,
                    ]);
                    Ok(actions)
                } else {
                    self.phase = FramePhase::Idle;
                    self.retries = 0;
                    Err(FrameError::SurfaceUnavailable)
                }
            },
            (FramePhase::Recording, FrameEvent::Finish) => {
                self.phase = FramePhase::Idle;
                let actions = vec![FrameAction::EndPass, FrameAction::Submit, FrameAction::Present];
                assert(actions@ == seq![FrameAction::EndPass, FrameAction::Submit, FrameAction::Present]);
                Ok(actions)
            },
            _ => Err(FrameError::OutOfOrder),
        }
    }

    /// The window was resized to `width` × `height`. A size with a zero side
    /// (a minimised window) is ignored and gives no action; otherwise the
    /// new size is kept and the surface is to be configured with it.
    pub fn resize(&mut self, width: u32, height: u32) -> (r: Option<FrameAction>)
        ensures
            width == 0 || height == 0 ==> *final(self) == *old(self) && r is None,
            width != 0 && height != 0 ==> *final(self) == (FrameLifecycle { width, height, ..*old(self) })
                && r == Some(FrameAction::Configure { width, height }),
    {
        if width == 0 || height == 0 {
            return None;
        }
        self.width = width;
        self.height = height;
        Some(FrameAction::Configure { width, height })
    }
}

/// Picks the surface format among those offered, given for each whether it
/// is sRGB-encoded: the first sRGB one, else the first one; `None` when none
/// is offered.
pub fn preferred_format(srgb: &Vec<bool>) -> (r: Option<usize>)
    ensures
        r is None <==> srgb@.len() == 0,
        r matches Some(i) ==> i < srgb@.len() && (forall|j: int| 0 <= j < i ==> !srgb@[j]),
        r matches Some(i) ==> srgb@[i as int] || (i == 0 && forall|j: int|
            0 <= j < srgb@.len() ==> !srgb@[j]),
{
    let mut i: usize = 0;
    while i < srgb.len()
        invariant
            i <= srgb@.len(),
            forall|j: int| 0 <= j < i ==> !srgb@[j],
        decreases srgb@.len() - i,
    {
        if srgb[i] {
            return Some(i);
        }
        i += 1;
    }
    if srgb.len() == 0 {
        None
    } else {
        Some(0)
    }
}

impl FrameLifecycle {
    /// The state after `n` failed acquisitions in a row.
    pub open spec fn after_failures(self, n: nat) -> FrameLifecycle
        decreases n,
    {
        if n == 0 {
            self
        } else {
            self.after_failures((n - 1) as nat).step(FrameEvent::AcquireFailed).0
        }
    }
}

/// Once a frame has begun, each of the first `MAX_ACQUIRE_RETRIES` failed
/// acquisitions reconfigures the surface with the kept size and asks again,
/// and the failure after them gives up with `SurfaceUnavailable` and closes
/// the frame: retrying is bounded.
pub proof fn lemma_retries_are_bounded(f: FrameLifecycle, n: nat)
    requires
        f.phase == FramePhase::Idle,
        n <= MAX_ACQUIRE_RETRIES,
    ensures
        f.step(FrameEvent::Begin).0.after_failures(n) == (FrameLifecycle {
            phase: FramePhase::Acquiring,
            retries: n as u32,
            ..f
        }),
        n < MAX_ACQUIRE_RETRIES ==> f.step(FrameEvent::Begin).0.after_failures(n).step(
            FrameEvent::AcquireFailed,
        ).1 == Ok::<Seq<FrameAction>, FrameError>(
            seq![FrameAction::Configure { width: f.width, height: f.height }, FrameAction::Acquire],
        ),
        n == MAX_ACQUIRE_RETRIES ==> f.step(FrameEvent::Begin).0.after_failures(n).step(
            FrameEvent::AcquireFailed,
        ) == (
            FrameLifecycle { phase: FramePhase::Idle, retries: 0, ..f },
            Err::<Seq<FrameAction>, FrameError>(FrameError::SurfaceUnavailable),
        ),
    decreases n,
{
    if n > 0 {
        lemma_retries_are_bounded(f, (n - 1) as nat);
    }
}

} // verus!
