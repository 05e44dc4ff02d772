//! The extraction protocol: per-type policies that turn store content into
//! handler parameters, composed inductively over parameter tuples.
//!
//! Every extractable type commits to exactly one of two policies:
//!
//! - **Reporting** ([`Extract`]): absence of the value is observable, and a
//!   composite extraction aborts on the first (left-most) missing slot,
//!   reporting that slot's position.
//! - **Defaulting** ([`ExtractOrDefault`]): absence is silently resolved to a
//!   fixed, type-specific default, so extraction never fails.
//!
//! Extraction borrows the store immutably and is deterministic: its result is
//! a function of the store contents alone.

use crate::extensions::Extensions;
use crate::extensions::Stored;
use crate::extensions::TypeKey;
use crate::extensions::Value;
use crate::extensions::stored_in;
use vstd::prelude::*;

verus! {

/// Failure of a composite extraction under the reporting policy: the
/// position of the first missing slot.
#[derive(Clone, Copy, PartialEq, Eq, Structural, Debug)]
pub struct ExtractError {
    /// Zero-based position of the left-most tuple slot that was absent.
    pub slot: usize,
}

/// The reporting policy: resolve one parameter against the store, with
/// absence explicit and visible to the composite layer.
pub trait Extract: Stored {
    /// Resolve one parameter of this type; `None` reports absence.
    fn extract(bag: &Extensions) -> (r: Option<Self>)
        ensures
            r == stored_in::<Self>(bag@),
    ;
}

impl Extract for String {
    fn extract(bag: &Extensions) -> (r: Option<Self>) {
        match bag.get::<String>() {
            Some(s) => Some(s.clone()),
            None => None,
        }
    }
}

impl Extract for i32 {
    fn extract(bag: &Extensions) -> (r: Option<Self>) {
        match bag.get::<i32>() {
            Some(n) => Some(*n),
            None => None,
        }
    }
}

/// What defaulting extraction of `T` yields from store contents `m`: the
/// stored value if one is present, the declared default otherwise.
pub open spec fn extracted_or_default<T: ExtractOrDefault>(m: Map<TypeKey, Value>) -> T {
    match stored_in::<T>(m) {
        Some(v) => v,
        None => T::spec_default(),
    }
}

/// The defaulting policy: resolve one parameter against the store, with
/// absence masked by a fixed, type-specific default.
pub trait ExtractOrDefault: Stored {
    /// The default substituted when the store holds no value of this type.
    spec fn spec_default() -> Self;

    /// Resolve one parameter of this type; this never fails.
    fn extract_or_default(bag: &Extensions) -> (r: Self)
        ensures
            r == (match stored_in::<Self>(bag@) {
                Some(v) => v,
                None => Self::spec_default(),
            }),
    ;
}

impl ExtractOrDefault for u64 {
    open spec fn spec_default() -> u64 {
        0
    }

    fn extract_or_default(bag: &Extensions) -> (r: Self) {
        match bag.get::<u64>() {
            Some(n) => *n,
            None => 0,
        }
    }
}

/// Composite extraction under the reporting policy: materialize a whole
/// parameter tuple, aborting on the first missing slot.
pub trait PickUp: Sized {
    /// What extraction of this tuple yields from store contents `m`: the
    /// resolved tuple, or the position of the first missing slot.
    spec fn spec_pick(m: Map<TypeKey, Value>) -> Result<Self, ExtractError>;

    /// Materialize this parameter tuple from the store.
    fn pick_up(bag: &Extensions) -> (r: Result<Self, ExtractError>)
        ensures
            r == Self::spec_pick(bag@),
    ;
}

impl PickUp for () {
    /// The empty tuple extracts trivially from any store.
    open spec fn spec_pick(m: Map<TypeKey, Value>) -> Result<(), ExtractError> {
        Ok(())
    }

    fn pick_up(bag: &Extensions) -> (r: Result<(), ExtractError>) {
        Ok(())
    }
}

impl<A: Extract> PickUp for (A,) {
    open spec fn spec_pick(m: Map<TypeKey, Value>) -> Result<(A,), ExtractError> {
        match stored_in::<A>(m) {
            Some(a) => Ok((a,)),
            None => Err(ExtractError { slot: 0 }),
        }
    }

    fn pick_up(bag: &Extensions) -> (r: Result<(A,), ExtractError>) {
        let item_a = match A::extract(bag) {
            Some(item) => item,
            None => {
                return Err(ExtractError { slot: 0 });
            },
        };
        Ok((item_a,))
    }
}

impl<A: Extract, B: Extract> PickUp for (A, B) {
    /// Slots are resolved left to right; the first missing one wins, so an
    /// absent `A` is reported as slot 0 whether or not `B` is present.
    open spec fn spec_pick(m: Map<TypeKey, Value>) -> Result<(A, B), ExtractError> {
        match stored_in::<A>(m) {
            Some(a) => match stored_in::<B>(m) {
                Some(b) => Ok((a, b)),
                None => Err(ExtractError { slot: 1 }),
            },
            None => Err(ExtractError { slot: 0 }),
        }
    }

    fn pick_up(bag: &Extensions) -> (r: Result<(A, B), ExtractError>) {
        let item_a = match A::extract(bag) {
            Some(item) => item,
            None => {
                return Err(ExtractError { slot: 0 });
            },
        };
        let item_b = match B::extract(bag) {
            Some(item) => item,
            None => {
                return Err(ExtractError { slot: 1 });
            },
        };
        Ok((item_a, item_b))
    }
}

/// Composite extraction under the defaulting policy: every slot resolves
/// independently and unconditionally, so the whole tuple always materializes.
pub trait PickUpOrDefault: Sized {
    /// What defaulting extraction of this tuple yields from store contents
    /// `m`.
    spec fn spec_pick_or_default(m: Map<TypeKey, Value>) -> Self;

    /// Materialize this parameter tuple from the store; this never fails.
    fn pick_up_or_default(bag: &Extensions) -> (r: Self)
        ensures
            r == Self::spec_pick_or_default(bag@),
    ;
}

impl PickUpOrDefault for () {
    open spec fn spec_pick_or_default(m: Map<TypeKey, Value>) -> () {
        ()
    }

    fn pick_up_or_default(bag: &Extensions) -> (r: ()) {
        ()
    }
}

impl<A: ExtractOrDefault> PickUpOrDefault for (A,) {
    open spec fn spec_pick_or_default(m: Map<TypeKey, Value>) -> (A,) {
        (extracted_or_default::<A>(m),)
    }

    fn pick_up_or_default(bag: &Extensions) -> (r: (A,)) {
        (A::extract_or_default(bag),)
    }
}

impl<A: ExtractOrDefault, B: ExtractOrDefault> PickUpOrDefault for (A, B) {
    open spec fn spec_pick_or_default(m: Map<TypeKey, Value>) -> (A, B) {
        (extracted_or_default::<A>(m), extracted_or_default::<B>(m))
    }

    fn pick_up_or_default(bag: &Extensions) -> (r: (A, B)) {
        (A::extract_or_default(bag), B::extract_or_default(bag))
    }
}

} // verus!
