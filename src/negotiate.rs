use vstd::prelude::*;

verus! {

/// The GPU API family a context is created for.
#[derive(PartialEq, Eq, Structural, Clone, Copy, Debug)]
pub enum GlApi {
    /// The desktop-class API, tried first.
    Desktop,
    /// The embedded-class API, tried when the desktop one cannot be created.
    Embedded,
}

/// Why no usable context could be negotiated.
#[derive(PartialEq, Eq, Structural, Clone, Copy, Debug)]
pub enum ContextCreationError {
    /// Neither the desktop-class nor the embedded-class context could be created.
    NoContext,
    /// A context was created but could not be bound to the window's surface.
    NotCurrent,
}

/// A negotiated context, as a token threaded through every GPU-touching step.
#[derive(PartialEq, Eq, Structural, Clone, Copy, Debug)]
pub struct RenderContext {
    pub api: GlApi,
    pub current: bool,
}

impl RenderContext {
    pub open spec fn spec_is_current(self) -> bool {
        self.current
    }

    /// Whether the context is bound to this thread and the window's surface.
    pub fn is_current(&self) -> (r: bool)
        ensures
            r == self.spec_is_current(),
    {
        self.current
    }
}

/// What the caller must do next to go on negotiating.
#[derive(PartialEq, Eq, Structural, Clone, Copy, Debug)]
pub enum NegotiationStep {
    /// Create a context of this API against the chosen configuration.
    Create(GlApi),
    /// Make the created context of this API current on the window's surface.
    MakeCurrent(GlApi),
    /// Negotiation is over; `Negotiator::outcome` holds the result.
    Finished,
}

/// Where negotiation stands.
#[derive(PartialEq, Eq, Clone, Copy, Debug)]
pub enum Stage {
    /// The desktop-class context is to be created.
    TryPrimary,
    /// The desktop-class context failed; the embedded-class one is to be created.
    TryFallback,
    /// A context of this API exists and is to be made current.
    Binding(GlApi),
    /// Negotiation is over, with this result.
    Done(Result<RenderContext, ContextCreationError>),
}

/// Context negotiation as a state machine: the desktop-class API first, the
/// embedded-class API when that fails, then binding the created context as
/// current. The caller performs each step and reports whether it succeeded.
pub struct Negotiator {
    stage: Stage,
}

/// The result of negotiation, given whether the desktop-class context could be
/// created, whether the embedded-class one could (asked only where the first
/// failed), and whether the created context could be made current.
pub open spec fn negotiated(primary_ok: bool, fallback_ok: bool, current_ok: bool) -> Result<
    RenderContext,
    ContextCreationError,
> {
    if !primary_ok && !fallback_ok {
        Err(ContextCreationError::NoContext)
    } else if !current_ok {
        Err(ContextCreationError::NotCurrent)
    } else {
        Ok(RenderContext { api: if primary_ok { GlApi::Desktop } else { GlApi::Embedded }, current: true })
    }
}

impl Negotiator {
    pub closed spec fn stage(&self) -> Stage {
        self.stage
    }

    /// The step that the caller must perform in a given stage.
    pub open spec fn step_of(stage: Stage) -> NegotiationStep {
        match stage {
            Stage::TryPrimary => NegotiationStep::Create(GlApi::Desktop),
            Stage::TryFallback => NegotiationStep::Create(GlApi::Embedded),
            Stage::Binding(api) => NegotiationStep::MakeCurrent(api),
            Stage::Done(_) => NegotiationStep::Finished,
        }
    }

    /// The stage that follows `stage` once its step succeeded or failed.
    pub open spec fn advance(stage: Stage, ok: bool) -> Stage {
        match stage {
            Stage::TryPrimary => if ok {
                Stage::Binding(GlApi::Desktop)
            } else {
                Stage::TryFallback
            },
            Stage::TryFallback => if ok {
                Stage::Binding(GlApi::Embedded)
            } else {
                Stage::Done(Err(ContextCreationError::NoContext))
            },
            Stage::Binding(api) => if ok {
                Stage::Done(Ok(RenderContext { api, current: true }))
            } else {
                Stage::Done(Err(ContextCreationError::NotCurrent))
            },
            Stage::Done(r) => Stage::Done(r),
        }
    }

    pub fn new() -> (n: Negotiator)
        ensures
            n.stage() == Stage::TryPrimary,
    {
        Negotiator { stage: Stage::TryPrimary }
    }

    /// What to do next.
    pub fn next_step(&self) -> (s: NegotiationStep)
        ensures
            s == Self::step_of(self.stage()),
    {
        match self.stage {
            Stage::TryPrimary => NegotiationStep::Create(GlApi::Desktop),
            Stage::TryFallback => NegotiationStep::Create(GlApi::Embedded),
            Stage::Binding(api) => NegotiationStep::MakeCurrent(api),
            Stage::Done(_) => NegotiationStep::Finished,
        }
    }

    /// Records whether the step last asked for succeeded. After `Finished`
    /// nothing changes.
    pub fn report(&mut self, ok: bool)
        ensures
            final(self).stage() == Self::advance(old(self).stage(), ok),
    {
        self.stage = match self.stage {
            Stage::TryPrimary => if ok {
                Stage::Binding(GlApi::Desktop)
            } else {
                Stage::TryFallback
            },
            Stage::TryFallback => if ok {
                Stage::Binding(GlApi::Embedded)
            } else {
                Stage::Done(Err(ContextCreationError::NoContext))
            },
            Stage::Binding(api) => if ok {
                Stage::Done(Ok(RenderContext { api, current: true }))
            } else {
                Stage::Done(Err(ContextCreationError::NotCurrent))
            },
            Stage::Done(r) => Stage::Done(r),
        };
    }

    /// The result, once negotiation has finished.
    pub fn outcome(&self) -> (r: Option<Result<RenderContext, ContextCreationError>>)
        ensures
            r == (match self.stage() {
                Stage::Done(res) => Some(res),
                _ => None::<Result<RenderContext, ContextCreationError>>,
            }),
    {
        match self.stage {
            Stage::Done(res) => Some(res),
            _ => None,
        }
    }
}

/// Runs negotiation over the platform's answers: whether the desktop-class
/// context was created, whether the embedded-class one was (read only where
/// the first failed), and whether the created context was made current.
pub fn negotiate(primary_ok: bool, fallback_ok: bool, current_ok: bool) -> (r: Result<
    RenderContext,
    ContextCreationError,
>)
    ensures
        r == negotiated(primary_ok, fallback_ok, current_ok),
{
    let mut n = Negotiator::new();
    let mut rounds: u8 = 0;
    while rounds < 3
        invariant
            rounds <= 3,
            rounds == 0 ==> n.stage() == Stage::TryPrimary,
            rounds == 1 ==> n.stage() == (if primary_ok {
                Stage::Binding(GlApi::Desktop)
            } else {
                Stage::TryFallback
            }),
            rounds == 2 ==> n.stage() == (if primary_ok {
                Negotiator::advance(Stage::Binding(GlApi::Desktop), current_ok)
            } else {
                Negotiator::advance(Stage::TryFallback, fallback_ok)
            }),
            rounds == 3 ==> n.stage() == Stage::Done(negotiated(primary_ok, fallback_ok, current_ok)),
        decreases 3 - rounds,
    {
        let ok = match n.next_step() {
            NegotiationStep::Create(GlApi::Desktop) => primary_ok,
            NegotiationStep::Create(GlApi::Embedded) => fallback_ok,
            NegotiationStep::MakeCurrent(_) => current_ok,
            NegotiationStep::Finished => true,
        };
        n.report(ok);
        rounds = rounds + 1;
    }
    match n.outcome() {
        Some(res) => res,
        None => Err(ContextCreationError::NoContext),
    }
}

/// Whenever one of the two APIs yields a context and the platform can bind it,
/// negotiation succeeds and the context it hands out is current; in no case
/// does it hand out one that is not.
pub proof fn lemma_negotiated_context_is_current(primary_ok: bool, fallback_ok: bool, current_ok: bool)
    ensures
        ((primary_ok || fallback_ok) && current_ok) ==> (negotiated(primary_ok, fallback_ok, current_ok) matches Ok(c)
            && c.spec_is_current()),
        negotiated(primary_ok, fallback_ok, current_ok) matches Ok(c) ==> c.spec_is_current(),
        negotiated(primary_ok, fallback_ok, current_ok) is Ok <==> ((primary_ok || fallback_ok)
            && current_ok),
{
}

/// When the desktop-class context cannot be created, negotiation falls back
/// to the embedded-class API, and the context it hands out is current.
pub proof fn lemma_fallback_when_primary_fails(fallback_ok: bool, current_ok: bool)
    requires
        fallback_ok,
        current_ok,
    ensures
        negotiated(false, fallback_ok, current_ok) matches Ok(c) && c.api == GlApi::Embedded
            && c.spec_is_current(),
{
}

} // verus!
