//! The context store: a heterogeneous, type-indexed map holding at most one
//! owned value per stored type.
//!
//! Type identity is made explicit: every storable type names a [`TypeKey`]
//! under which its values are kept and a tagged [`Value`] shape they are
//! stored in. The store is modeled as a `Map<TypeKey, Value>`, so that
//! inserting under one key provably leaves every other key untouched.

use vstd::prelude::*;

verus! {

/// The identity of a storable type: the key under which the store keeps at
/// most one value of that type.
#[derive(Clone, Copy, Debug)]
pub enum TypeKey {
    /// Key of the text type (`String`).
    Text,
    /// Key of the signed integer type (`i32`).
    Int,
    /// Key of the unsigned counter type (`u64`).
    Count,
}

/// An owned stored value, tagged with its concrete shape.
#[derive(Debug)]
pub enum Value {
    /// A stored text value.
    Text(String),
    /// A stored signed integer.
    Int(i32),
    /// A stored unsigned counter.
    Count(u64),
}

/// Types that can live in an [`Extensions`] store.
///
/// Each implementor commits to one [`TypeKey`] and one tagged [`Value`]
/// shape; `wrap` must be injective so that recovering a value from its
/// stored form is unambiguous.
pub trait Stored: Sized {
    /// The key identifying this type in the store.
    spec fn key() -> TypeKey;

    /// The tagged form under which a value of this type is stored.
    spec fn wrap(self) -> Value;

    /// Two values with the same stored form are the same value.
    proof fn wrap_injective(a: Self, b: Self)
        requires
            a.wrap() == b.wrap(),
        ensures
            a == b,
    ;

    /// Executable counterpart of [`Stored::key`].
    fn key_of() -> (k: TypeKey)
        ensures
            k == Self::key(),
    ;

    /// Executable counterpart of [`Stored::wrap`].
    fn into_value(self) -> (v: Value)
        ensures
            v == self.wrap(),
    ;

    /// Recover a reference to a value of this type from its stored form;
    /// `None` exactly when no value of this type wraps to `v`.
    fn from_value(v: &Value) -> (r: Option<&Self>)
        ensures
            match r {
                Some(x) => (*x).wrap() == *v,
                None => forall|x: Self| (#[trigger] x.wrap()) != *v,
            },
    ;
}

/// The value of type `T` held by store contents `m`, if any: the unique `T`
/// whose stored form sits under `T`'s key.
pub open spec fn stored_in<T: Stored>(m: Map<TypeKey, Value>) -> Option<T> {
    if m.contains_key(T::key()) && (exists|x: T| (#[trigger] x.wrap()) == m[T::key()]) {
        Some(choose|x: T| (#[trigger] x.wrap()) == m[T::key()])
    } else {
        None
    }
}

impl Stored for String {
    open spec fn key() -> TypeKey {
        TypeKey::Text
    }

    open spec fn wrap(self) -> Value {
        Value::Text(self)
    }

    proof fn wrap_injective(a: Self, b: Self) {
    }

    fn key_of() -> (k: TypeKey) {
        TypeKey::Text
    }

    fn into_value(self) -> (v: Value) {
        Value::Text(self)
    }

    fn from_value(v: &Value) -> (r: Option<&Self>) {
        match v {
            Value::Text(s) => Some(s),
            _ => None,
        }
    }
}

impl Stored for i32 {
    open spec fn key() -> TypeKey {
        TypeKey::Int
    }

    open spec fn wrap(self) -> Value {
        Value::Int(self)
    }

    proof fn wrap_injective(a: Self, b: Self) {
    }

    fn key_of() -> (k: TypeKey) {
        TypeKey::Int
    }

    fn into_value(self) -> (v: Value) {
        Value::Int(self)
    }

    fn from_value(v: &Value) -> (r: Option<&Self>) {
        match v {
            Value::Int(n) => Some(n),
            _ => None,
        }
    }
}

impl Stored for u64 {
    open spec fn key() -> TypeKey {
        TypeKey::Count
    }

    open spec fn wrap(self) -> Value {
        Value::Count(self)
    }

    proof fn wrap_injective(a: Self, b: Self) {
    }

    fn key_of() -> (k: TypeKey) {
        TypeKey::Count
    }

    fn into_value(self) -> (v: Value) {
        Value::Count(self)
    }

    fn from_value(v: &Value) -> (r: Option<&Self>) {
        match v {
            Value::Count(n) => Some(n),
            _ => None,
        }
    }
}

/// A type map of request extensions: one slot per [`TypeKey`], each holding
/// at most one owned value.
#[derive(Debug)]
pub struct Extensions {
    text: Option<Value>,
    int: Option<Value>,
    count: Option<Value>,
}

impl Extensions {
    /// The slot contents under key `k`.
    pub closed spec fn slot(self, k: TypeKey) -> Option<Value> {
        match k {
            TypeKey::Text => self.text,
            TypeKey::Int => self.int,
            TypeKey::Count => self.count,
        }
    }
}

impl View for Extensions {
    type V = Map<TypeKey, Value>;

    /// The store, seen as a map from type keys to stored values.
    open spec fn view(&self) -> Map<TypeKey, Value> {
        Map::new(|k: TypeKey| self.slot(k) is Some, |k: TypeKey| self.slot(k)->Some_0)
    }
}

impl Extensions {
    /// Create an empty `Extensions`.
    pub fn new() -> (r: Extensions)
        ensures
            r@ == Map::<TypeKey, Value>::empty(),
    {
        let r = Extensions { text: None, int: None, count: None };
        proof {
            assert(r@ =~= Map::<TypeKey, Value>::empty());
        }
        r
    }

    /// Insert a type into this `Extensions`.
    ///
    /// A prior value of the same type is replaced; every other key is left
    /// untouched.
    pub fn insert<T: Stored>(&mut self, val: T)
        ensures
            final(self)@ == old(self)@.insert(T::key(), val.wrap()),
    {
        let ghost w = val.wrap();
        let k = T::key_of();
        let v = val.into_value();
        match k {
            TypeKey::Text => {
                self.text = Some(v);
            },
            TypeKey::Int => {
                self.int = Some(v);
            },
            TypeKey::Count => {
                self.count = Some(v);
            },
        }
        proof {
            assert(self@ =~= old(self)@.insert(T::key(), w));
        }
    }

    /// Get a reference to a type previously inserted on this `Extensions`,
    /// or `None` if the store holds no value of that type.
    pub fn get<T: Stored>(&self) -> (r: Option<&T>)
        ensures
            match r {
                Some(x) => stored_in::<T>(self@) == Some(*x),
                None => stored_in::<T>(self@) is None,
            },
    {
        let k = T::key_of();
        let slot: &Option<Value> = match k {
            TypeKey::Text => &self.text,
            TypeKey::Int => &self.int,
            TypeKey::Count => &self.count,
        };
        match slot {
            Some(v) => {
                let r = T::from_value(v);
                proof {
                    assert(self.slot(T::key()) == Some(*v));
                    assert(self@.contains_key(T::key()));
                    assert(self@[T::key()] == *v);
                    match r {
                        Some(x) => {
                            let y = choose|z: T| (#[trigger] z.wrap()) == self@[T::key()];
                            T::wrap_injective(y, *x);
                        },
                        None => {
                        },
                    }
                }
                r
            },
            None => None,
        }
    }
}

impl Default for Extensions {
    /// An empty store.
    fn default() -> (r: Extensions)
        ensures
            r@ == Map::<TypeKey, Value>::empty(),
    {
        Extensions::new()
    }
}

} // verus!
