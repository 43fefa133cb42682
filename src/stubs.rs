//! Do-nothing platform hooks for hosts without a game runtime to attach to.
pub mod fridgerator_impl;
pub mod game_impl;
pub mod gui_impl;
pub mod interceptor_impl;
pub mod symbols_impl;
