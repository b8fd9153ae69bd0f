//! The handle of a machine: its lifecycle and the ownership of the runtime
//! behind it.
//!
//! A handle starts out uninitialised, able to compile code but not to run any,
//! and turns into an initialised one exactly once. The two states are two
//! types, so that running code on an uninitialised machine does not compile.
//! A handle also records whether it owns the runtime: only the owner frees it.
use vstd::prelude::*;
use std::marker::PhantomData;

verus! {

/// Marker of a machine without a language runtime.
///
/// Such a machine can only do what needs no runtime, such as compiling
/// code. [`VM::init_runtime`] turns it into one that can execute code.
pub struct Uninit;

/// Marker of a fully initialised machine: it can execute code, and do
/// whatever an [`Uninit`] machine can.
pub struct Init;

/// Who is responsible for the runtime behind a handle.
///
/// A handle may have to be made from nothing but the raw handle, for
/// example inside a callback. Such a handle borrows the runtime; the one
/// that was constructed with it owns it, together with the state `T` that
/// the runtime's callbacks depend on.
pub enum Ownership<T> {
    /// The handle owns the runtime and the state of its callbacks.
    Owned(T),
    /// The handle borrows a runtime that another handle owns.
    Borrowed,
}

/// The handle of a J* machine.
///
/// `H` is the raw handle by which the runtime is reached, `T` the state of
/// the callbacks that were registered with it, and `State` is [`Uninit`] or
/// [`Init`].
pub struct VM<H, T, State> {
    handle: H,
    ownership: Ownership<T>,
    state: PhantomData<State>,
}

impl<H: Copy, T, State> VM<H, T, State> {
    /// The raw handle.
    pub closed spec fn raw(self) -> H {
        self.handle
    }

    /// Who is responsible for the runtime.
    pub closed spec fn ownership(self) -> Ownership<T> {
        self.ownership
    }

    /// The raw handle by which the runtime is reached.
    pub fn handle(&self) -> (handle: H)
        ensures
            handle == self.raw(),
    {
        self.handle
    }

    /// Tells whether this handle owns the runtime.
    pub fn owns_runtime(&self) -> (owned: bool)
        ensures
            owned == (self.ownership() is Owned),
    {
        match &self.ownership {
            Ownership::Owned(_) => true,
            Ownership::Borrowed => false,
        }
    }

    /// The state of the callbacks, which only the owner holds.
    pub fn trampolines(&self) -> (state: Option<&T>)
        ensures
            match self.ownership() {
                Ownership::Owned(t) => state == Some(&t),
                Ownership::Borrowed => state is None,
            },
    {
        match &self.ownership {
            Ownership::Owned(t) => Some(t),
            Ownership::Borrowed => None,
        }
    }

    /// Gives up the runtime at the end of the handle's life.
    ///
    /// The owner is handed the raw handle, to free the runtime, and the
    /// state of the callbacks, to release it after that. The handle owns
    /// nothing afterwards, so a runtime is given up at most once. A handle
    /// that borrows its runtime is handed nothing and frees nothing.
    pub fn release(&mut self) -> (freed: Option<(H, T)>)
        ensures
            final(self).raw() == old(self).raw(),
            final(self).ownership() is Borrowed,
            match old(self).ownership() {
                Ownership::Owned(t) => freed == Some((old(self).raw(), t)),
                Ownership::Borrowed => freed is None,
            },
    {
        let mut ownership = Ownership::Borrowed;
        std::mem::swap(&mut self.ownership, &mut ownership);
        match ownership {
            Ownership::Owned(t) => Some((self.handle, t)),
            Ownership::Borrowed => None,
        }
    }
}

impl<H: Copy, T> VM<H, T, Uninit> {
    /// The handle of a freshly constructed runtime. It owns the runtime
    /// and the state `trampolines` of its callbacks.
    pub fn new(handle: H, trampolines: T) -> (vm: Self)
        ensures
            vm.raw() == handle,
            vm.ownership() == Ownership::Owned(trampolines),
    {
        VM { handle, ownership: Ownership::Owned(trampolines), state: PhantomData }
    }

    /// Turns the handle into that of an initialised machine, once the
    /// runtime has been bootstrapped. The handle is consumed: the change is
    /// one-way, and the new handle has the raw handle and the ownership of
    /// the old one.
    pub fn init_runtime(self) -> (vm: VM<H, T, Init>)
        ensures
            vm.raw() == self.raw(),
            vm.ownership() == self.ownership(),
    {
        VM { handle: self.handle, ownership: self.ownership, state: PhantomData }
    }
}

impl<H: Copy, T> VM<H, T, Init> {
    /// A handle made from a raw handle alone, as it is available inside a
    /// native function or a callback. It borrows the runtime and never
    /// frees it.
    ///
    /// The caller must see to it that this handle lives only as long as the
    /// handle that owns the runtime does.
    pub fn from_ptr(handle: H) -> (vm: Self)
        ensures
            vm.raw() == handle,
            vm.ownership() is Borrowed,
    {
        VM { handle, ownership: Ownership::Borrowed, state: PhantomData }
    }
}

} // verus!
