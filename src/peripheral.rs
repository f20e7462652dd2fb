use vstd::prelude::*;

verus! {

/// One interrupt line of the processor, as far as the drivers see it:
/// whether it is unmasked, whether a handler is bound to it, and whether
/// an invocation is pending.
#[derive(Clone, Copy, PartialEq, Eq, Structural, Debug)]
pub struct Irq {
    pub number: u32,
    pub enabled: bool,
    pub handler_installed: bool,
    pub pending: bool,
}

impl Irq {
    /// A line with no handler, masked and not pending.
    pub fn new(number: u32) -> (r: Irq)
        ensures
            r == (Irq { number, enabled: false, handler_installed: false, pending: false }),
    {
        Irq { number, enabled: false, handler_installed: false, pending: false }
    }

    pub fn disable(&mut self)
        ensures
            *final(self) == (Irq { enabled: false, ..*old(self) }),
        opens_invariants none
        no_unwind
    {
        self.enabled = false;
    }

    pub fn enable(&mut self)
        ensures
            *final(self) == (Irq { enabled: true, ..*old(self) }),
    {
        self.enabled = true;
    }

    pub fn set_handler(&mut self)
        ensures
            *final(self) == (Irq { handler_installed: true, ..*old(self) }),
    {
        self.handler_installed = true;
    }

    pub fn remove_handler(&mut self)
        ensures
            *final(self) == (Irq { handler_installed: false, ..*old(self) }),
        opens_invariants none
        no_unwind
    {
        self.handler_installed = false;
    }

    pub fn unpend(&mut self)
        ensures
            *final(self) == (Irq { pending: false, ..*old(self) }),
    {
        self.pending = false;
    }

    /// Whether an invocation of the line would reach its handler now.
    pub open spec fn delivers(self) -> bool {
        self.enabled && self.handler_installed
    }
}

/// State that is shared between foreground code and the handler of one
/// interrupt line.
pub trait PeripheralState: Sized {
    /// The state after one run of the handler on it.
    spec fn interrupted(&self) -> Self;

    /// Runs in interrupt context each time the bound line fires.
    fn on_interrupt(&mut self)
        ensures
            *final(self) == old(self).interrupted(),
    ;
}

/// The stages of a `PeripheralMutex`.
#[derive(Clone, Copy, PartialEq, Eq, Structural, Debug)]
pub enum Life {
    Created,
    InUse,
    Freed,
}

/// Exclusive access to state shared with an interrupt handler, obtained by
/// masking that one interrupt line for the length of each access.
///
/// The handler is bound to the state on each access (`with`, `setup`), so a
/// mutex that was moved between accesses never leaves a handler pointing at
/// its old place.
pub struct PeripheralMutex<S: PeripheralState> {
    life: Life,
    inner: Option<(S, Irq)>,
}

impl<S: PeripheralState> PeripheralMutex<S> {
    pub closed spec fn life(&self) -> Life {
        self.life
    }

    /// The state and the line, until the mutex is freed.
    pub closed spec fn inner(&self) -> Option<(S, Irq)> {
        self.inner
    }

    /// The stage and the contents agree: only a freed mutex is empty, and a
    /// mutex in use has its handler bound.
    pub open spec fn wf(&self) -> bool {
        &&& (self.life() == Life::Freed <==> self.inner() is None)
        &&& (self.life() == Life::InUse ==> self.inner().unwrap().1.handler_installed)
    }

    pub open spec fn is_freed(&self) -> bool {
        self.inner() is None
    }

    /// The line, once the mutex is freed, is masked and has no handler.
    pub open spec fn released(irq: Irq, before: Irq) -> bool {
        irq == (Irq { enabled: false, handler_installed: false, ..before })
    }

    /// What `try_free` does: from a mutex that holds its state, hand the
    /// state back with the line masked and unbound; from a freed one, nothing.
    pub open spec fn try_free_post(
        before: PeripheralMutex<S>,
        after: PeripheralMutex<S>,
        r: Option<(S, Irq)>,
    ) -> bool {
        &&& after.life() == Life::Freed
        &&& after.inner() is None
        &&& match before.inner() {
            Some((s, irq)) => r matches Some((s2, irq2)) && s2 == s && Self::released(irq2, irq),
            None => r is None,
        }
    }

    /// What tearing the mutex down does to it: a held line is masked and
    /// unbound; a freed mutex is left as it is.
    pub open spec fn teardown_post(before: PeripheralMutex<S>, after: PeripheralMutex<S>) -> bool {
        &&& after.life() == before.life()
        &&& match before.inner() {
            Some((s, irq)) => after.inner() matches Some((s2, irq2)) && s2 == s && Self::released(
                irq2,
                irq,
            ),
            None => after.inner() is None,
        }
    }

    /// A mutex in the created stage: the state and the line are held as
    /// given; nothing is done to the line until the first access.
    pub fn new(state: S, irq: Irq) -> (r: Self)
        ensures
            r.wf(),
            r.life() == Life::Created,
            r.inner() == Some((state, irq)),
    {
        PeripheralMutex { life: Life::Created, inner: Some((state, irq)) }
    }

    /// The stage the mutex is in.
    pub fn stage(&self) -> (r: Life)
        ensures
            r == self.life(),
    {
        self.life
    }

    /// The line, while the mutex holds it.
    pub fn line(&self) -> (r: Option<Irq>)
        ensures
            r == match self.inner() {
                Some((_, irq)) => Some(irq),
                None => None::<Irq>,
            },
    {
        match &self.inner {
            Some((_, irq)) => Some(*irq),
            None => None,
        }
    }

    /// Binds the line's handler to the state and marks the mutex in use.
    pub fn setup(&mut self)
        requires
            old(self).wf(),
            !old(self).is_freed(),
        ensures
            final(self).wf(),
            final(self).life() == Life::InUse,
            final(self).inner() == Some(
                (old(self).inner().unwrap().0, Irq { handler_installed: true, ..old(self).inner().unwrap().1 }),
            ),
    {
        match &mut self.inner {
            Some((_, irq)) => irq.set_handler(),
            None => {},
        }
        self.life = Life::InUse;
    }

    /// Runs `f` on the state and the line with that line masked, so that the
    /// handler cannot preempt it. The handler is (re)bound to the state
    /// first; `f` hands both back, and the line is unmasked again.
    pub fn with<R, F: FnOnce(S, Irq) -> (S, Irq, R)>(&mut self, f: F) -> (r: R)
        requires
            old(self).wf(),
            !old(self).is_freed(),
            f.requires((old(self).inner().unwrap().0, Self::masked(old(self).inner().unwrap().1))),
        ensures
            final(self).wf(),
            final(self).life() == Life::InUse,
            exists|s: S, irq: Irq|
                {
                    &&& #[trigger] f.ensures(
                        (old(self).inner().unwrap().0, Self::masked(old(self).inner().unwrap().1)),
                        (s, irq, r),
                    )
                    &&& final(self).inner() == Some(
                        (s, Irq { enabled: true, handler_installed: true, ..irq }),
                    )
                },
    {
        self.setup();
        let (state, mut irq) = self.inner.take().unwrap();
        irq.disable();
        let (state2, mut irq2, r) = f(state, irq);
        irq2.set_handler();
        irq2.enable();
        self.inner = Some((state2, irq2));
        r
    }

    /// The line as `with` hands it to its callback: masked, handler bound.
    pub open spec fn masked(irq: Irq) -> Irq {
        Irq { enabled: false, handler_installed: true, ..irq }
    }

    /// Hands the state and the line back, the line masked and unbound, and
    /// leaves the mutex freed; a mutex that is already freed gives nothing.
    pub fn try_free(&mut self) -> (r: Option<(S, Irq)>)
        requires
            old(self).wf(),
        ensures
            final(self).wf(),
            Self::try_free_post(*old(self), *final(self), r),
    {
        self.life = Life::Freed;
        match self.inner.take() {
            Some((state, mut irq)) => {
                irq.disable();
                irq.remove_handler();
                Some((state, irq))
            },
            None => None,
        }
    }

    /// As `try_free`, for a mutex that has not been freed yet.
    pub fn free(&mut self) -> (r: (S, Irq))
        requires
            old(self).wf(),
            !old(self).is_freed(),
        ensures
            final(self).wf(),
            Self::try_free_post(*old(self), *final(self), Some(r)),
    {
        self.try_free().unwrap()
    }

    /// What destruction does: masks the line and unbinds its handler if the
    /// mutex still holds them; nothing once it is freed.
    pub fn teardown(&mut self)
        ensures
            Self::teardown_post(*old(self), *final(self)),
        opens_invariants none
        no_unwind
    {
        match &mut self.inner {
            Some((_, irq)) => {
                irq.disable();
                irq.remove_handler();
            },
            None => {},
        }
    }

    /// Whether a firing of the line reaches the state's handler: the mutex
    /// is in use (so the handler is bound to this state), and the line is
    /// unmasked.
    pub open spec fn routes(&self) -> bool {
        self.life() == Life::InUse && self.inner().unwrap().1.delivers()
    }

    /// What one firing of the line does to the mutex.
    pub open spec fn on_irq_post(before: PeripheralMutex<S>, after: PeripheralMutex<S>) -> bool {
        &&& after.life() == before.life()
        &&& before.routes() ==> after.inner() == Some(
            (before.inner().unwrap().0.interrupted(), before.inner().unwrap().1),
        )
        &&& !before.routes() ==> after.inner() == before.inner()
    }

    /// One firing of the line: when it is routed to this mutex, the state's
    /// handler runs on the state; the stage and the line are left as they
    /// were.
    pub fn on_irq(&mut self)
        requires
            old(self).wf(),
        ensures
            final(self).wf(),
            Self::on_irq_post(*old(self), *final(self)),
    {
        if self.life == Life::InUse {
            match self.inner.take() {
                Some((mut state, irq)) => {
                    if irq.enabled && irq.handler_installed {
                        state.on_interrupt();
                    }
                    self.inner = Some((state, irq));
                },
                None => {},
            }
        }
    }
}

impl<S: PeripheralState> Drop for PeripheralMutex<S> {
    fn drop(&mut self)
        opens_invariants none
        no_unwind
    {
        self.teardown();
    }
}

/// Releasing is idempotent: after one release the mutex is freed (so the
/// required release is refused), a second non-blocking release returns
/// nothing and leaves the mutex as it was, and destruction then touches
/// nothing.
pub proof fn lemma_release_idempotent<S: PeripheralState>(
    m0: PeripheralMutex<S>,
    m1: PeripheralMutex<S>,
    m2: PeripheralMutex<S>,
    m3: PeripheralMutex<S>,
    r1: Option<(S, Irq)>,
    r2: Option<(S, Irq)>,
)
    requires
        PeripheralMutex::try_free_post(m0, m1, r1),
        PeripheralMutex::try_free_post(m1, m2, r2),
        PeripheralMutex::teardown_post(m1, m3),
    ensures
        m1.is_freed(),
        r2 is None,
        m2.life() == m1.life(),
        m2.inner() == m1.inner(),
        m3.life() == m1.life(),
        m3.inner() == m1.inner(),
{
}

/// After an access the line is routed to the mutex's own state: each firing
/// runs the state's handler on it, and a release then hands back the state
/// as the handler left it.
pub proof fn lemma_firing_reaches_own_state<S: PeripheralState>(
    m1: PeripheralMutex<S>,
    m2: PeripheralMutex<S>,
    m3: PeripheralMutex<S>,
    r: Option<(S, Irq)>,
)
    requires
        m1.wf(),
        m1.life() == Life::InUse,
        m1.inner() matches Some((_, irq)) && irq.enabled,
        PeripheralMutex::on_irq_post(m1, m2),
        PeripheralMutex::try_free_post(m2, m3, r),
    ensures
        m1.routes(),
        r matches Some((s, irq)) && s == m1.inner().unwrap().0.interrupted()
            && PeripheralMutex::<S>::released(irq, m1.inner().unwrap().1),
{
}

} // verus!
