//! What the protocol engine asks of the transient cache that backs the
//! request vault: a way to connect, and a way to obtain a ready instance.
use vstd::prelude::*;

verus! {

/// A cache backend: how to reach it and how to build the default instance.
pub trait CacheInterface {
    type T;

    fn connect(host: String, port: String, db: String) -> Self::T where Self: Sized;

    fn new() -> Self where Self: Sized;
}

/// A backend that can hand out a ready instance, or say why it cannot.
pub trait CacheFactory: Sized {
    fn get() -> Result<Self, String>;
}

pub struct CacheAdapter;

impl CacheAdapter {
    /// Obtains the backend `T`: the answer is one that `T::get` gives, passed
    /// on as it is.
    pub fn get_cache_connection<T>() -> (r: Result<T, String>) where T: CacheInterface + CacheFactory
        ensures
            call_ensures(T::get, (), r),
    {
        T::get()
    }
}

} // verus!
