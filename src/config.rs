//! Settings that the service reads.
use vstd::prelude::*;

verus! {

/// The settings a deployment provides.
pub trait Config {
    spec fn base_url_view(&self) -> Seq<char>;

    spec fn hash_cost_view(&self) -> u32;

    /// Returns the base URL.
    fn get_base_url(&self) -> (r: &str)
        ensures
            r@ == self.base_url_view(),
    ;

    /// Returns the hash cost.
    fn get_hash_cost(&self) -> (r: u32)
        ensures
            r == self.hash_cost_view(),
    ;
}

} // verus!

verus! {

/// Settings held as plain values.
#[derive(Debug, Clone)]
pub struct Settings {
    pub base_url: String,
    pub hash_cost: u32,
}

impl Settings {
    pub fn new(base_url: &str, hash_cost: u32) -> (r: Settings)
        ensures
            r.base_url@ == base_url@,
            r.hash_cost == hash_cost,
    {
        Settings { base_url: base_url.to_owned(), hash_cost }
    }
}

impl Config for Settings {
    open spec fn base_url_view(&self) -> Seq<char> {
        self.base_url@
    }

    open spec fn hash_cost_view(&self) -> u32 {
        self.hash_cost
    }

    fn get_base_url(&self) -> (r: &str) {
        self.base_url.as_str()
    }

    fn get_hash_cost(&self) -> (r: u32) {
        self.hash_cost
    }
}

} // verus!
