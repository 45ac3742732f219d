//! Bluetooth instantiation: the adapter's activation state.

use vstd::prelude::*;

verus! {

/// Where an adapter stands between off and on.
#[derive(Default, Debug, Clone, Copy, Eq, PartialEq, Structural)]
pub enum Active {
    #[default]
    Disabled,
    Disabling,
    Enabling,
    Enabled,
}

} // verus!
