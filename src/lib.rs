//! `expect` whose message is built only when the value is missing.
use vstd::prelude::*;

use diagnostic::{render_debug, text_of};

pub mod diagnostic;

pub use diagnostic::{absent_message, failure_message};

verus! {

/// Adds `expect_with` to `Option<T>` and to `Result<T, E>` where `E: Debug`.
///
/// It hands back the held value as `expect` does, but the message is produced
/// by a closure that runs only on the failure path.
pub trait ExpectWith<T> {
    /// The container holds the value that `expect_with` hands back.
    spec fn holds_value(&self) -> bool;

    /// The value held, where `holds_value` is true.
    spec fn held_value(&self) -> T;

    /// Same as `expect`, but evaluates the message only when needed.
    ///
    /// Nothing is asked of `f`: on the success path it is never called.
    fn expect_with<F, S>(self, f: F) -> (r: T) where S: AsRef<str>, F: FnOnce() -> S
        requires
            self.holds_value(),
        ensures
            r == self.held_value(),
    ;
}

impl<T> ExpectWith<T> for Option<T> {
    open spec fn holds_value(&self) -> bool {
        self is Some
    }

    open spec fn held_value(&self) -> T {
        self->0
    }

    fn expect_with<F, S>(self, f: F) -> (r: T) where S: AsRef<str>, F: FnOnce() -> S {
        match self {
            Some(t) => t,
            None => {
                // Excluded by `requires`; a caller that is not verified still
                // gets the diagnostic before the task ends.
                let s = f();
                let m = absent_message(text_of(&s));
                Option::<T>::None.expect(m.as_str())
            },
        }
    }
}

impl<T, E: std::fmt::Debug> ExpectWith<T> for Result<T, E> {
    open spec fn holds_value(&self) -> bool {
        self is Ok
    }

    open spec fn held_value(&self) -> T {
        self->Ok_0
    }

    fn expect_with<F, S>(self, f: F) -> (r: T) where S: AsRef<str>, F: FnOnce() -> S {
        match self {
            Ok(t) => t,
            Err(e) => {
                // Excluded by `requires`; a caller that is not verified still
                // gets the diagnostic before the task ends.
                let s = f();
                let m = failure_message(text_of(&s), render_debug(&e).as_str());
                Option::<T>::None.expect(m.as_str())
            },
        }
    }
}

} // verus!
