//! Tab and tab-bar components: the state their builders collect and the
//! styling and layout decisions their renderers make, with proofs.

pub mod children;
pub mod tab;
pub mod tab_bar;
