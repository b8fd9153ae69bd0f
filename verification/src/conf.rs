//! Configuration of a machine.
use vstd::prelude::*;
use crate::trampoline::Trampolines;

verus! {

/// The scalar settings of a machine, as the runtime takes them.
#[derive(Clone, Copy, Debug, PartialEq, Eq, Structural)]
pub struct Settings {
    /// The initial size of the stack.
    pub starting_stack_sz: usize,
    /// The heap size at which the first garbage collection happens.
    pub first_gc_collection_point: usize,
    /// The rate at which the heap grows after a collection.
    pub heap_grow_rate: i32,
}

/// A set of configurations for a machine.
///
/// `E` is the type of the error callback and `I` that of the import
/// callback.
pub struct Conf<E, I> {
    /// The initial size of the stack.
    pub starting_stack_sz: usize,
    /// The heap size at which the first garbage collection happens.
    pub first_gc_collection_point: usize,
    /// The rate at which the heap grows after a collection.
    pub heap_grow_rate: i32,
    /// Called when an error is reported.
    pub error_callback: Option<E>,
    /// Called to resolve a module.
    pub import_callback: Option<I>,
}

impl<E, I> Default for Conf<E, I> {
    /// A configuration with every scalar at zero and no callback.
    fn default() -> (conf: Self)
        ensures
            conf.starting_stack_sz == 0,
            conf.first_gc_collection_point == 0,
            conf.heap_grow_rate == 0,
            conf.error_callback is None,
            conf.import_callback is None,
    {
        Conf {
            starting_stack_sz: 0,
            first_gc_collection_point: 0,
            heap_grow_rate: 0,
            error_callback: None,
            import_callback: None,
        }
    }
}

impl<E, I> Conf<E, I> {
    /// A configuration with the runtime's own `defaults` and no callback.
    pub fn new(defaults: Settings) -> (conf: Self)
        ensures
            conf.settings() == defaults,
            conf.error_callback is None,
            conf.import_callback is None,
    {
        Conf {
            starting_stack_sz: defaults.starting_stack_sz,
            first_gc_collection_point: defaults.first_gc_collection_point,
            heap_grow_rate: defaults.heap_grow_rate,
            error_callback: None,
            import_callback: None,
        }
    }

    /// The scalar part of the configuration.
    pub open spec fn settings(self) -> Settings {
        Settings {
            starting_stack_sz: self.starting_stack_sz,
            first_gc_collection_point: self.first_gc_collection_point,
            heap_grow_rate: self.heap_grow_rate,
        }
    }

    /// The callbacks of the configuration.
    pub open spec fn trampolines(self) -> Trampolines<E, I> {
        Trampolines {
            error_callback: self.error_callback,
            import_callback: self.import_callback,
        }
    }

    /// Sets the starting stack size and returns the configuration for
    /// chaining.
    pub fn starting_stack_sz(self, size: usize) -> (conf: Self)
        ensures
            conf == (Conf { starting_stack_sz: size, ..self }),
    {
        let mut conf = self;
        conf.starting_stack_sz = size;
        conf
    }

    /// Sets the first collection point and returns the configuration for
    /// chaining.
    pub fn first_gc_collection_point(self, collection_point: usize) -> (conf: Self)
        ensures
            conf == (Conf { first_gc_collection_point: collection_point, ..self }),
    {
        let mut conf = self;
        conf.first_gc_collection_point = collection_point;
        conf
    }

    /// Sets the heap grow rate and returns the configuration for chaining.
    pub fn heap_grow_rate(self, rate: i32) -> (conf: Self)
        ensures
            conf == (Conf { heap_grow_rate: rate, ..self }),
    {
        let mut conf = self;
        conf.heap_grow_rate = rate;
        conf
    }

    /// Sets the error callback and returns the configuration for chaining.
    pub fn error_callback(self, error_cb: E) -> (conf: Self)
        ensures
            conf == (Conf { error_callback: Some(error_cb), ..self }),
    {
        let mut conf = self;
        conf.error_callback = Some(error_cb);
        conf
    }

    /// Sets the import callback and returns the configuration for chaining.
    pub fn import_callback(self, import_cb: I) -> (conf: Self)
        ensures
            conf == (Conf { import_callback: Some(import_cb), ..self }),
    {
        let mut conf = self;
        conf.import_callback = Some(import_cb);
        conf
    }

    /// Takes the configuration apart for the construction of a machine: the
    /// scalars are copied into the record that the runtime reads, and the
    /// callbacks move into the state that the entry points dispatch to.
    pub fn into_parts(self) -> (parts: (Settings, Trampolines<E, I>))
        ensures
            parts.0 == self.settings(),
            parts.1 == self.trampolines(),
    {
        let settings = Settings {
            starting_stack_sz: self.starting_stack_sz,
            first_gc_collection_point: self.first_gc_collection_point,
            heap_grow_rate: self.heap_grow_rate,
        };
        let trampolines = Trampolines {
            error_callback: self.error_callback,
            import_callback: self.import_callback,
        };
        (settings, trampolines)
    }
}

} // verus!
