//! State markers for the user-facing shells: the command-line driver and
//! the visualization widgets. Their rendering and event handling are owned
//! by the surrounding program.

use vstd::prelude::*;

verus! {

/// The command-line application state.
pub struct Cli;

impl Cli {
    pub fn new() -> Cli {
        Cli
    }
}

impl Default for Cli {
    fn default() -> Self {
        Cli::new()
    }
}

/// The Bloch-sphere visualization of a two-level state.
pub struct BlochSphereWidget;

impl BlochSphereWidget {
    pub fn new() -> BlochSphereWidget {
        BlochSphereWidget
    }
}

impl Default for BlochSphereWidget {
    fn default() -> Self {
        BlochSphereWidget::new()
    }
}

/// The Hinton diagram of a density matrix.
pub struct HintonWidget;

impl HintonWidget {
    pub fn new() -> HintonWidget {
        HintonWidget
    }
}

impl Default for HintonWidget {
    fn default() -> Self {
        HintonWidget::new()
    }
}

} // verus!
