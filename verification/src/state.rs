//! The state that every request handler is given.

use crate::config::Config;
use crate::config::ConfigView;
use std::sync::Arc;
use vstd::prelude::*;

verus! {

/// The state shared by all request handlers: the settings, in shared
/// ownership. Nothing in it changes after startup, so handlers need no
/// synchronisation to read it.
#[derive(Clone)]
pub struct AppState {
    pub config: Arc<Config>,
}

impl View for AppState {
    type V = ConfigView;

    open spec fn view(&self) -> ConfigView {
        self.config@
    }
}

} // verus!
