//! Sharing a peripheral's state between a task and the peripheral's
//! interrupt handler: the task only touches the state with the interrupt
//! disabled.
use vstd::prelude::*;

verus! {

/// An interrupt line owned by a driver.
pub trait OwnedInterrupt {
    /// The line's interrupt number.
    spec fn number(&self) -> u16;

    /// Whether the line may fire.
    spec fn is_enabled(&self) -> bool;

    /// Whether a handler is attached to the line.
    spec fn has_handler(&self) -> bool;

    /// Stops the line from firing.
    fn disable(&mut self)
        ensures
            !final(self).is_enabled(),
            final(self).number() == old(self).number(),
            final(self).has_handler() == old(self).has_handler(),
    ;

    /// Lets the line fire again.
    fn enable(&mut self)
        ensures
            final(self).is_enabled(),
            final(self).number() == old(self).number(),
            final(self).has_handler() == old(self).has_handler(),
    ;

    /// Detaches the handler from the line.
    fn remove_handler(&mut self)
        ensures
            !final(self).has_handler(),
            final(self).number() == old(self).number(),
            final(self).is_enabled() == old(self).is_enabled(),
    ;
}

/// State of a peripheral that its interrupt handler updates.
pub trait PeripheralState {
    type Interrupt: OwnedInterrupt;

    /// Whether `after` is a state that handling one interrupt in state
    /// `before` may leave. Implementations say what their handler does by
    /// overriding it; by default it says nothing.
    open spec fn interrupt_handled(before: &Self, after: &Self) -> bool {
        true
    }

    /// Handles one interrupt.
    fn on_interrupt(&mut self)
        ensures
            Self::interrupt_handled(old(self), final(self)),
    ;
}

/// Owns a peripheral's state and its interrupt line until freed.
pub struct PeripheralMutex<S: PeripheralState> {
    inner: Option<(S, S::Interrupt)>,
}

impl<S: PeripheralState> PeripheralMutex<S> {
    /// Whether the state and line are still held.
    pub closed spec fn is_held(&self) -> bool {
        self.inner is Some
    }

    /// The held state.
    pub closed spec fn state(&self) -> S {
        self.inner->Some_0.0
    }

    /// The held interrupt line.
    pub closed spec fn line(&self) -> S::Interrupt {
        self.inner->Some_0.1
    }

    /// Whether the state and line are still held.
    pub fn held(&self) -> (r: bool)
        ensures
            r == self.is_held(),
    {
        self.inner.is_some()
    }

    /// Takes ownership of `state` and its interrupt line.
    pub fn new(state: S, irq: S::Interrupt) -> (r: Self)
        ensures
            r.is_held(),
            r.state() == state,
            r.line() == irq,
    {
        PeripheralMutex { inner: Some((state, irq)) }
    }

    /// Runs `f` on the state and line with the line disabled, then enables
    /// the line again. The mutex must still hold them. `f` takes the state
    /// and line and hands them back with its result.
    pub fn with<R, F: FnOnce(S, S::Interrupt) -> (S, S::Interrupt, R)>(&mut self, f: F) -> (r: R)
        requires
            old(self).is_held(),
            forall|s: S, i: S::Interrupt| !i.is_enabled() ==> #[trigger] f.requires((s, i)),
        ensures
            final(self).is_held(),
            final(self).line().is_enabled(),
            exists|s: S, i: S::Interrupt, s2: S, i2: S::Interrupt|
                #[trigger] f.ensures((s, i), (s2, i2, r)) && s == old(self).state() && !i.is_enabled()
                    && i.number() == old(self).line().number() && final(self).state() == s2
                    && final(self).line().number() == i2.number(),
    {
        let (state, mut irq) = self.inner.take().unwrap();
        irq.disable();
        let (state2, mut irq2, r) = f(state, irq);
        irq2.enable();
        self.inner = Some((state2, irq2));
        r
    }

    /// The body of the interrupt handler: lets the state handle the
    /// interrupt, if the mutex still holds it.
    pub fn on_interrupt(&mut self)
        ensures
            final(self).is_held() == old(self).is_held(),
            old(self).is_held() ==> S::interrupt_handled(&old(self).state(), &final(self).state())
                && final(self).line() == old(self).line(),
            !old(self).is_held() ==> *final(self) == *old(self),
    {
        match self.inner.take() {
            Some((mut state, irq)) => {
                state.on_interrupt();
                self.inner = Some((state, irq));
            },
            None => {},
        }
    }

    /// Gives back the state and line, with the line disabled and its handler
    /// removed; `None` when they were already given back.
    pub fn try_free(&mut self) -> (r: Option<(S, S::Interrupt)>)
        ensures
            !final(self).is_held(),
            old(self).is_held() ==> {
                &&& r is Some
                &&& r->Some_0.0 == old(self).state()
                &&& r->Some_0.1.number() == old(self).line().number()
                &&& !r->Some_0.1.is_enabled()
                &&& !r->Some_0.1.has_handler()
            },
            !old(self).is_held() ==> r is None,
    {
        match self.inner.take() {
            Some((state, mut irq)) => {
                irq.disable();
                irq.remove_handler();
                Some((state, irq))
            },
            None => None,
        }
    }

    /// Gives back the state and line, which the mutex must still hold.
    pub fn free(&mut self) -> (r: (S, S::Interrupt))
        requires
            old(self).is_held(),
        ensures
            !final(self).is_held(),
            r.0 == old(self).state(),
            r.1.number() == old(self).line().number(),
            !r.1.is_enabled(),
            !r.1.has_handler(),
    {
        self.try_free().unwrap()
    }
}

} // verus!
