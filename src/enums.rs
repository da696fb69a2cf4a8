//! Keys, modifiers and window states.

use vstd::prelude::*;

verus! {

/// The keys that a hotkey can be bound to.
#[derive(Clone, Copy, Debug, PartialEq, Eq, Structural)]
pub enum HotKeyButton {
    VkNumpad0,
    VkNumpad1,
    VkNumpad2,
    VkNumpad3,
    VkNumpad4,
    VkNumpad5,
    VkNumpad6,
    VkNumpad7,
    VkNumpad8,
    VkNumpad9,
    VkDecimal,
}

/// The modifier held together with a hotkey's key.
#[derive(Clone, Copy, Debug, PartialEq, Eq, Structural)]
pub enum HotKeyModifier {
    NoModifier,
    ModControl,
    ModAlt,
}

/// The display state of a window, queried afresh before each decision.
#[derive(Clone, Copy, Debug, PartialEq, Eq, Structural)]
pub enum WindowState {
    Other,
    Normal,
    Minimized,
    Maximized,
}

} // verus!
