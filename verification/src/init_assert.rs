//! A cell for a value that is built in place, exactly once.

use vstd::prelude::*;

verus! {

/// Where a value stands on its way from storage to use.
#[derive(Clone, Copy, Debug, PartialEq, Eq, Structural)]
pub enum InitState {
    /// Storage only; nothing was built yet.
    Uninit,
    /// The one initialisation has started and has not ended.
    InProgress,
    /// The value is built and may be read.
    Init,
}

/// Storage for a `T` that is initialised once and read afterwards.
///
/// The state only moves forward: `Uninit`, then `InProgress`, then `Init`.
/// Dropping the cell drops the value if there is one.
pub struct InitAssert<T = ()> {
    started: bool,
    data: Option<T>,
}

impl<T> InitAssert<T> {
    /// The state of the cell.
    pub closed spec fn state(&self) -> InitState {
        if self.data is Some {
            InitState::Init
        } else if self.started {
            InitState::InProgress
        } else {
            InitState::Uninit
        }
    }

    /// The value behind the cell; meaningful once the cell is initialised.
    pub closed spec fn value(&self) -> T
        recommends
            self.is_init(),
    {
        self.data->0
    }

    /// Whether the value may be read.
    pub open spec fn is_init(&self) -> bool {
        self.state() == InitState::Init
    }

    /// A cell with nothing behind it.
    pub fn new() -> (r: Self)
        ensures
            r.state() == InitState::Uninit,
    {
        InitAssert { started: false, data: None }
    }

    /// Reports the state of the cell.
    pub fn current(&self) -> (s: InitState)
        ensures
            s == self.state(),
    {
        if self.data.is_some() {
            InitState::Init
        } else if self.started {
            InitState::InProgress
        } else {
            InitState::Uninit
        }
    }

    /// Opens the one initialisation. From here on no second one can start.
    pub fn begin_init(&mut self)
        requires
            old(self).state() == InitState::Uninit,
        ensures
            final(self).state() == InitState::InProgress,
    {
        self.started = true;
    }

    /// Closes the initialisation that `begin_init` opened, with the value built.
    pub fn finish_init(&mut self, value: T)
        requires
            old(self).state() == InitState::InProgress,
        ensures
            final(self).is_init(),
            final(self).value() == value,
    {
        self.data = Some(value);
    }

    /// Builds the value with `f` and stores it.
    ///
    /// The cell must be untouched: a second initialisation is a usage error.
    pub fn init<F>(&mut self, f: F) where F: FnOnce() -> T
        requires
            old(self).state() == InitState::Uninit,
            f.requires(()),
        ensures
            final(self).is_init(),
            f.ensures((), final(self).value()),
    {
        self.begin_init();
        let value = f();
        self.finish_init(value);
    }

    /// The value, shared. Reading before initialisation is a usage error.
    pub fn get_ref(&self) -> (r: &T)
        requires
            self.is_init(),
        ensures
            *r == self.value(),
    {
        match &self.data {
            Some(value) => value,
            None => vstd::pervasive::unreached(),
        }
    }

    /// The value, for writing. The cell stays initialised, and holds
    /// whatever the caller leaves behind the reference.
    pub fn get(&mut self) -> (r: &mut T)
        requires
            old(self).is_init(),
        ensures
            *r == old(self).value(),
            final(self).is_init(),
            final(self).value() == *final(r),
    {
        match &mut self.data {
            Some(value) => value,
            None => vstd::pervasive::unreached(),
        }
    }
}

} // verus!
