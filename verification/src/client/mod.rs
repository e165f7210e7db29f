//! The client of the printing service: what it sends and how it reads the
//! answers.
pub mod basic;
pub mod model;

use vstd::prelude::*;

verus! {

/// A client of the printing service, addressed by the service's base URL.
pub struct Client {
    pub base_url: String,
}

} // verus!
