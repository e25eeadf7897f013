//! Delegates, events and properties: the observer plumbing views hang
//! their updates on. A delegate wraps a host callback; an event fans an
//! argument out to its subscribers; a property pairs a value with the
//! event announcing its changes.

use vstd::prelude::*;

verus! {

/// A callable wrapped for storage: what it requires and ensures is
/// carried along and re-exposed at each invocation.
#[derive(Debug)]
pub struct Delegate<F> {
    pub func: F,
}

impl<F> Delegate<F> {
    pub fn new(func: F) -> (d: Delegate<F>)
        ensures
            d.func == func,
    {
        Delegate { func }
    }

    /// Call the wrapped function with `args`. The caller discharges the
    /// function's own precondition and receives its postcondition.
    pub fn invoke<Args, Ret>(&self, args: Args) -> (r: Ret) where F: Fn(Args) -> Ret
        requires
            call_requires(self.func, (args,)),
        ensures
            call_ensures(self.func, (args,), r),
    {
        (self.func)(args)
    }
}

/// An event: the subscribed callbacks, invoked in subscription order.
#[derive(Debug)]
pub struct Event<F> {
    pub callbacks: Vec<Delegate<F>>,
}

impl<F> Event<F> {
    pub fn new() -> (e: Event<F>)
        ensures
            e.callbacks@.len() == 0,
    {
        Event { callbacks: Vec::new() }
    }

    /// Add a callback; it will hear every later invocation.
    pub fn subscribe(&mut self, callback: Delegate<F>)
        ensures
            final(self).callbacks@ == old(self).callbacks@.push(callback),
    {
        self.callbacks.push(callback);
    }

    /// Invoke every callback with a clone of `args`. A callback must
    /// accept whatever its argument's `clone` may produce.
    pub fn invoke<Args: Clone>(&self, args: &Args) where F: Fn(Args) -> ()
        requires
            forall|i: int, a: Args|
                0 <= i < self.callbacks@.len() ==> #[trigger] call_requires(
                    self.callbacks@[i].func,
                    (a,),
                ),
    {
        let n = self.callbacks.len();
        let mut i: usize = 0;
        while i < n
            invariant
                i <= n,
                n == self.callbacks@.len(),
                forall|j: int, a: Args|
                    0 <= j < self.callbacks@.len() ==> #[trigger] call_requires(
                        self.callbacks@[j].func,
                        (a,),
                    ),
            decreases n - i,
        {
            let arg = args.clone();
            self.callbacks[i].invoke(arg);
            i = i + 1;
        }
    }
}

/// A value whose changes an event announces.
#[derive(Debug)]
pub struct Property<T, F> {
    pub value: T,
    pub bindings: Event<F>,
}

impl<T: Clone, F> Property<T, F> {
    pub fn new(value: T) -> (p: Property<T, F>)
        ensures
            p.value == value,
            p.bindings.callbacks@.len() == 0,
    {
        Property { value, bindings: Event::new() }
    }

    /// Store a new value, then announce it to every binding.
    pub fn set(&mut self, value: T) where F: Fn(T) -> ()
        requires
            forall|i: int, a: T|
                0 <= i < old(self).bindings.callbacks@.len() ==> #[trigger] call_requires(
                    old(self).bindings.callbacks@[i].func,
                    (a,),
                ),
        ensures
            final(self).value == value,
            final(self).bindings.callbacks@ == old(self).bindings.callbacks@,
    {
        self.value = value;
        self.bindings.invoke(&self.value);
    }

    /// Subscribe a callback to this property's changes and hand back a
    /// binding holding the value it starts from.
    pub fn bind(&mut self, callback: Delegate<F>) -> (binding: PropertyBinding<T>)
        ensures
            final(self).value == old(self).value,
            final(self).bindings.callbacks@ == old(self).bindings.callbacks@.push(callback),
            vstd::pervasive::cloned(old(self).value, binding.value),
    {
        self.bindings.subscribe(callback);
        PropertyBinding { value: self.value.clone() }
    }
}

/// One observer's view of a property: the value it last saw.
#[derive(Debug)]
pub struct PropertyBinding<T> {
    pub value: T,
}

/// A value that is either fixed or fed by a property binding.
#[derive(Debug)]
pub enum Bindable<T> {
    Unbound(T),
    Bound(PropertyBinding<T>),
}

} // verus!
