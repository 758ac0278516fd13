//! The Lifecycle Controller: sole owner of the instance and diagnostics
//! handles from activation to ordered teardown, and the decision rule the
//! host's event loop follows.

use vstd::prelude::*;

verus! {

/// The controller's states; `Destroyed` is terminal.
#[derive(Clone, Copy, Debug, PartialEq, Eq, Structural)]
pub enum LifecycleState {
    Uninitialized,
    Live,
    Destroyed,
}

/// One step of ordered teardown, for the host to perform.
#[derive(Debug)]
pub enum ReleaseStep<I, D> {
    /// Release the diagnostics handle.
    Diagnostics(D),
    /// Release the instance handle.
    Instance(I),
}

/// Owns the driver-issued handles end-to-end. `I` is the host's instance
/// handle type and `D` its diagnostics handle type; the controller never
/// looks inside either.
pub struct Controller<I, D> {
    state: LifecycleState,
    instance: Option<I>,
    diagnostics: Option<D>,
}

impl<I, D> Controller<I, D> {
    /// The controller's current state.
    pub closed spec fn spec_state(&self) -> LifecycleState {
        self.state
    }

    /// The instance handle held, if any.
    pub closed spec fn spec_instance(&self) -> Option<I> {
        self.instance
    }

    /// The diagnostics handle held, if any.
    pub closed spec fn spec_diagnostics(&self) -> Option<D> {
        self.diagnostics
    }

    /// Well-formedness: exactly while live an instance handle is held, and
    /// a diagnostics handle is never held without an instance.
    pub closed spec fn wf(&self) -> bool {
        match self.state {
            LifecycleState::Live => self.instance is Some,
            _ => self.instance is None && self.diagnostics is None,
        }
    }

    /// A fresh, uninitialized controller holding nothing.
    pub fn new() -> (r: Controller<I, D>)
        ensures
            r.wf(),
            r.spec_state() == LifecycleState::Uninitialized,
            r.spec_instance() is None,
            r.spec_diagnostics() is None,
    {
        Controller { state: LifecycleState::Uninitialized, instance: None, diagnostics: None }
    }

    /// The current state, for the host's own check before it calls in.
    pub fn state(&self) -> (r: LifecycleState)
        ensures
            r == self.spec_state(),
    {
        self.state
    }

    /// Whether a diagnostics handle is currently held.
    pub fn has_diagnostics(&self) -> (r: bool)
        ensures
            r == (self.spec_diagnostics() is Some),
    {
        self.diagnostics.is_some()
    }

    /// Brings the controller live with the handles bootstrap produced:
    /// valid only from `Uninitialized`, once. The diagnostics handle is
    /// present exactly when validation mode was active.
    pub fn activate(&mut self, instance: I, diagnostics: Option<D>)
        requires
            old(self).wf(),
            old(self).spec_state() == LifecycleState::Uninitialized,
        ensures
            final(self).wf(),
            final(self).spec_state() == LifecycleState::Live,
            final(self).spec_instance() == Some(instance),
            final(self).spec_diagnostics() == diagnostics,
    {
        self.instance = Some(instance);
        self.diagnostics = diagnostics;
        self.state = LifecycleState::Live;
    }

    /// The per-frame hook: valid only while live; a placeholder that
    /// changes nothing.
    pub fn render_tick(&self)
        requires
            self.wf(),
            self.spec_state() == LifecycleState::Live,
    {
    }

    /// Ordered teardown: valid only while `Live`, and therefore at most
    /// once — a second call is a precondition violation, not a silent
    /// no-op. Afterwards the controller is terminally `Destroyed` and holds
    /// nothing. The returned steps are for the host to perform in order:
    /// the diagnostics handle, when one exists, strictly before the
    /// instance handle.
    pub fn destroy(&mut self) -> (steps: Vec<ReleaseStep<I, D>>)
        requires
            old(self).wf(),
            old(self).spec_state() == LifecycleState::Live,
        ensures
            final(self).wf(),
            final(self).spec_state() == LifecycleState::Destroyed,
            final(self).spec_instance() is None,
            final(self).spec_diagnostics() is None,
            old(self).spec_instance() matches Some(inst) ==> match old(self).spec_diagnostics() {
                Some(d) => steps@ == seq![
                    ReleaseStep::<I, D>::Diagnostics(d),
                    ReleaseStep::<I, D>::Instance(inst),
                ],
                None => steps@ == seq![ReleaseStep::<I, D>::Instance(inst)],
            },
    {
        let mut steps: Vec<ReleaseStep<I, D>> = Vec::new();
        let diagnostics = self.diagnostics.take();
        match diagnostics {
            Some(d) => steps.push(ReleaseStep::Diagnostics(d)),
            None => {},
        }
        let instance = self.instance.take();
        match instance {
            Some(i) => steps.push(ReleaseStep::Instance(i)),
            None => {},
        }
        self.state = LifecycleState::Destroyed;
        proof {
            match old(self).spec_diagnostics() {
                Some(d) => {
                    assert(steps@ =~= seq![
                        ReleaseStep::<I, D>::Diagnostics(d),
                        ReleaseStep::<I, D>::Instance(old(self).spec_instance().unwrap()),
                    ]);
                },
                None => {
                    assert(steps@ =~= seq![
                        ReleaseStep::<I, D>::Instance(old(self).spec_instance().unwrap()),
                    ]);
                },
            }
        }
        steps
    }
}

/// A window-system event, as the host's event loop reports it.
#[derive(Clone, Copy, Debug, PartialEq, Eq, Structural)]
pub enum HostEvent {
    /// The window exists and the application was resumed.
    Resumed,
    /// The user asked the window to close.
    CloseRequested,
    /// The window system asked for a redraw.
    RedrawRequested,
    /// Anything else.
    Other,
}

/// What the host must do in response to an event.
#[derive(Clone, Copy, Debug, PartialEq, Eq, Structural)]
pub enum HostAction {
    /// Run bootstrap and activate the controller.
    CreateAndActivate,
    /// Leave the event loop and perform ordered teardown.
    ExitAndDestroy,
    /// Render one frame, then request the next redraw.
    RenderAndRequestRedraw,
    /// Do nothing.
    Ignore,
}

/// The host loop's decision rule: bootstrap on the first resume, tear down
/// on a close request while live, render on redraw requests while live and
/// not already exiting, and ignore everything else.
pub open spec fn spec_host_action(
    event: HostEvent,
    state: LifecycleState,
    exiting: bool,
) -> HostAction {
    match event {
        HostEvent::Resumed => if state == LifecycleState::Uninitialized {
            HostAction::CreateAndActivate
        } else {
            HostAction::Ignore
        },
        HostEvent::CloseRequested => if state == LifecycleState::Live {
            HostAction::ExitAndDestroy
        } else {
            HostAction::Ignore
        },
        HostEvent::RedrawRequested => if state == LifecycleState::Live && !exiting {
            HostAction::RenderAndRequestRedraw
        } else {
            HostAction::Ignore
        },
        HostEvent::Other => HostAction::Ignore,
    }
}

/// Decides the host's response to one window-system event.
pub fn decide_host_action(event: HostEvent, state: LifecycleState, exiting: bool) -> (r:
    HostAction)
    ensures
        r == spec_host_action(event, state, exiting),
{
    match event {
        HostEvent::Resumed => if matches!(state, LifecycleState::Uninitialized) {
            HostAction::CreateAndActivate
        } else {
            HostAction::Ignore
        },
        HostEvent::CloseRequested => if matches!(state, LifecycleState::Live) {
            HostAction::ExitAndDestroy
        } else {
            HostAction::Ignore
        },
        HostEvent::RedrawRequested => if matches!(state, LifecycleState::Live) && !exiting {
            HostAction::RenderAndRequestRedraw
        } else {
            HostAction::Ignore
        },
        HostEvent::Other => HostAction::Ignore,
    }
}

} // verus!
