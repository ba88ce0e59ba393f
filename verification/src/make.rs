//! Options for the service factories upstream code builds adapters with.
//!
//! The factory traits themselves are thin plumbing over the embedding
//! service stack and live with the unverified edge; the option types they
//! take are plain data and live here.

use vstd::prelude::*;

verus! {

/// Options for making a service to subscribe tickers.
pub struct MakeTickersOptions {}

impl Default for MakeTickersOptions {
    /// The default options: none are defined yet.
    fn default() -> (r: MakeTickersOptions)
        ensures
            r == (MakeTickersOptions {  }),
    {
        MakeTickersOptions {  }
    }
}

} // verus!
