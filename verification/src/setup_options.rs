//! The options a caller supplies when firing the provisioning pipeline.

use vstd::prelude::*;

verus! {

/// Options for one provisioning run: where the compatibility-layer prefix
/// is to live.
#[derive(Debug)]
pub struct SetupOptions {
    pub wine_prefix: String,
}

impl SetupOptions {
    /// The requested prefix path.
    pub fn wine_prefix(&self) -> (r: &str)
        ensures
            r@ == self.wine_prefix@,
    {
        self.wine_prefix.as_str()
    }
}

} // verus!
