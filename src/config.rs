//! Hotkey bindings and their configuration in layers.
//!
//! A configuration is an ordered list of bindings from a key and modifier (a
//! chord) to an action. Configurations come in layers, later ones overriding
//! earlier ones chord by chord, on top of a built-in default.

use vstd::prelude::*;
use crate::enums::{HotKeyButton, HotKeyModifier};
use crate::hotkey_action::HotKeyAction;

verus! {

/// A binding of one key and modifier to one action.
#[derive(Clone, Copy, Debug, PartialEq, Eq, Structural)]
pub struct HotkeyMapping {
    pub action: HotKeyAction,
    pub key: HotKeyButton,
    pub modifier: HotKeyModifier,
}

/// A hotkey configuration.
#[derive(Debug)]
pub struct Config {
    pub hotkeys: Vec<HotkeyMapping>,
}

/// Two bindings are for the same key and modifier.
pub open spec fn same_chord(a: HotkeyMapping, b: HotkeyMapping) -> bool {
    a.key == b.key && a.modifier == b.modifier
}

/// `i` is the first index of `hs` bound to the chord of `o`.
pub open spec fn is_first_with_chord(hs: Seq<HotkeyMapping>, o: HotkeyMapping, i: int) -> bool {
    &&& 0 <= i < hs.len()
    &&& same_chord(hs[i], o)
    &&& forall|k: int| 0 <= k < i ==> !same_chord(hs[k], o)
}

/// `hs` with binding `o` applied: it replaces the first binding of its chord,
/// or is appended where its chord is not bound.
pub open spec fn override_binding(hs: Seq<HotkeyMapping>, o: HotkeyMapping) -> Seq<HotkeyMapping> {
    if exists|i: int| is_first_with_chord(hs, o, i) {
        hs.update(choose|i: int| is_first_with_chord(hs, o, i), o)
    } else {
        hs.push(o)
    }
}

/// `base` with the bindings of `overrides` applied in order.
pub open spec fn merged_hotkeys(base: Seq<HotkeyMapping>, overrides: Seq<HotkeyMapping>) -> Seq<
    HotkeyMapping,
>
    decreases overrides.len(),
{
    if overrides.len() == 0 {
        base
    } else {
        override_binding(merged_hotkeys(base, overrides.drop_last()), overrides.last())
    }
}

/// `base` with each layer of `layers` merged over it in order.
pub open spec fn layered_hotkeys(base: Seq<HotkeyMapping>, layers: Seq<Seq<HotkeyMapping>>) -> Seq<
    HotkeyMapping,
>
    decreases layers.len(),
{
    if layers.len() == 0 {
        base
    } else {
        merged_hotkeys(layered_hotkeys(base, layers.drop_last()), layers.last())
    }
}

/// The binding of `key` with the control modifier to `action`.
pub open spec fn ctrl(action: HotKeyAction, key: HotKeyButton) -> HotkeyMapping {
    HotkeyMapping { action, key, modifier: HotKeyModifier::ModControl }
}

/// The built-in bindings: the numeric keypad with the control key, laid out as
/// the positions on the screen.
pub open spec fn default_hotkeys() -> Seq<HotkeyMapping> {
    seq![
        ctrl(HotKeyAction::MoveWindowToLeftBottom, HotKeyButton::VkNumpad1),
        ctrl(HotKeyAction::MoveWindowToBottom, HotKeyButton::VkNumpad2),
        ctrl(HotKeyAction::MoveWindowToRightBottom, HotKeyButton::VkNumpad3),
        ctrl(HotKeyAction::MoveWindowToLeftMiddle, HotKeyButton::VkNumpad4),
        ctrl(HotKeyAction::MoveWindowToRightMiddle, HotKeyButton::VkNumpad6),
        ctrl(HotKeyAction::MoveWindowToLeftTop, HotKeyButton::VkNumpad7),
        ctrl(HotKeyAction::MoveWindowToTop, HotKeyButton::VkNumpad8),
        ctrl(HotKeyAction::MoveWindowToRightTop, HotKeyButton::VkNumpad9),
        ctrl(HotKeyAction::MoveWindowToLeftScreenContinuous, HotKeyButton::VkNumpad0),
        ctrl(HotKeyAction::MinimizeWindow, HotKeyButton::VkDecimal),
        ctrl(HotKeyAction::MaximizeWindow, HotKeyButton::VkNumpad5),
    ]
}

/// The hotkeys of each configuration in `layers`.
pub open spec fn layer_hotkeys(layers: Seq<Config>) -> Seq<Seq<HotkeyMapping>> {
    layers.map_values(|c: Config| c.hotkeys@)
}

fn ctrl_binding(action: HotKeyAction, key: HotKeyButton) -> (r: HotkeyMapping)
    ensures
        r == ctrl(action, key),
{
    HotkeyMapping { action, key, modifier: HotKeyModifier::ModControl }
}

impl Default for Config {
    fn default() -> (r: Config)
        ensures
            r.hotkeys@ == default_hotkeys(),
    {
        let mut hotkeys: Vec<HotkeyMapping> = Vec::new();
        hotkeys.push(ctrl_binding(HotKeyAction::MoveWindowToLeftBottom, HotKeyButton::VkNumpad1));
        hotkeys.push(ctrl_binding(HotKeyAction::MoveWindowToBottom, HotKeyButton::VkNumpad2));
        hotkeys.push(ctrl_binding(HotKeyAction::MoveWindowToRightBottom, HotKeyButton::VkNumpad3));
        hotkeys.push(ctrl_binding(HotKeyAction::MoveWindowToLeftMiddle, HotKeyButton::VkNumpad4));
        hotkeys.push(ctrl_binding(HotKeyAction::MoveWindowToRightMiddle, HotKeyButton::VkNumpad6));
        hotkeys.push(ctrl_binding(HotKeyAction::MoveWindowToLeftTop, HotKeyButton::VkNumpad7));
        hotkeys.push(ctrl_binding(HotKeyAction::MoveWindowToTop, HotKeyButton::VkNumpad8));
        hotkeys.push(ctrl_binding(HotKeyAction::MoveWindowToRightTop, HotKeyButton::VkNumpad9));
        hotkeys.push(ctrl_binding(HotKeyAction::MoveWindowToLeftScreenContinuous, HotKeyButton::VkNumpad0));
        hotkeys.push(ctrl_binding(HotKeyAction::MinimizeWindow, HotKeyButton::VkDecimal));
        hotkeys.push(ctrl_binding(HotKeyAction::MaximizeWindow, HotKeyButton::VkNumpad5));
        proof {
            assert(hotkeys@ =~= default_hotkeys());
        }
        Config { hotkeys }
    }
}

/// The first index of `hs` bound to the chord of `o`.
fn position_of_chord(hs: &Vec<HotkeyMapping>, o: &HotkeyMapping) -> (r: Option<usize>)
    ensures
        r matches Some(i) ==> is_first_with_chord(hs@, *o, i as int),
        r is None ==> forall|k: int| 0 <= k < hs@.len() ==> !same_chord(hs@[k], *o),
{
    for i in 0..hs.len()
        invariant
            forall|k: int| 0 <= k < i ==> !same_chord(hs@[k], *o),
    {
        if hs[i].key == o.key && hs[i].modifier == o.modifier {
            return Some(i);
        }
    }
    None
}

/// `base` with the bindings of `overrides` applied in order.
fn merge_hotkeys(base: Vec<HotkeyMapping>, overrides: &Vec<HotkeyMapping>) -> (r: Vec<HotkeyMapping>)
    ensures
        r@ == merged_hotkeys(base@, overrides@),
{
    let ghost base_view = base@;
    let mut hotkeys = base;
    for j in 0..overrides.len()
        invariant
            hotkeys@ == merged_hotkeys(base_view, overrides@.subrange(0, j as int)),
    {
        let o = overrides[j];
        proof {
            let next = overrides@.subrange(0, j + 1);
            assert(next.drop_last() =~= overrides@.subrange(0, j as int));
            assert(next.last() == o);
        }
        match position_of_chord(&hotkeys, &o) {
            Some(p) => {
                proof {
                    let hs = hotkeys@;
                    assert forall|i: int| is_first_with_chord(hs, o, i) implies i == p as int by {
                        if i < p {
                            assert(!same_chord(hs[i], o));
                        }
                        if i > p {
                            assert(!same_chord(hs[p as int], o));
                        }
                    }
                }
                hotkeys.set(p, o);
            },
            None => {
                hotkeys.push(o);
            },
        }
    }
    proof {
        assert(overrides@.subrange(0, overrides@.len() as int) =~= overrides@);
    }
    hotkeys
}

/// `base` with the hotkeys of `override_config` applied in order: a hotkey
/// replaces the first one of `base` on the same key and modifier, or is
/// appended where that chord is not bound yet.
pub fn merge_configs(base: Config, override_config: Config) -> (r: Config)
    ensures
        r.hotkeys@ == merged_hotkeys(base.hotkeys@, override_config.hotkeys@),
{
    Config { hotkeys: merge_hotkeys(base.hotkeys, &override_config.hotkeys) }
}

/// The configuration in force: the built-in default with each of `layers`
/// (from lowest to highest priority) merged over it in turn.
pub fn load_config(layers: Vec<Config>) -> (r: Config)
    ensures
        r.hotkeys@ == layered_hotkeys(default_hotkeys(), layer_hotkeys(layers@)),
{
    let mut config = Config::default();
    for i in 0..layers.len()
        invariant
            config.hotkeys@ == layered_hotkeys(
                default_hotkeys(),
                layer_hotkeys(layers@.subrange(0, i as int)),
            ),
    {
        proof {
            let next = layer_hotkeys(layers@.subrange(0, i + 1));
            assert(next.drop_last() =~= layer_hotkeys(layers@.subrange(0, i as int)));
            assert(next.last() == layers@[i as int].hotkeys@);
        }
        config = Config { hotkeys: merge_hotkeys(config.hotkeys, &layers[i].hotkeys) };
    }
    proof {
        assert(layers@.subrange(0, layers@.len() as int) =~= layers@);
    }
    config
}

/// The hotkeys in force under `layers` (see `load_config`).
pub fn get_config_hotkeys(layers: Vec<Config>) -> (r: Vec<HotkeyMapping>)
    ensures
        r@ == layered_hotkeys(default_hotkeys(), layer_hotkeys(layers@)),
{
    load_config(layers).hotkeys
}


/// Overriding: after a merge, each binding of `overrides` is in force unless a
/// later binding of `overrides` is for the same chord; and the result is never
/// shorter than `base`.
pub proof fn lemma_override_in_force(base: Seq<HotkeyMapping>, overrides: Seq<HotkeyMapping>, j: int)
    requires
        0 <= j < overrides.len(),
        forall|k: int| j < k < overrides.len() ==> !same_chord(#[trigger] overrides[k], overrides[j]),
    ensures
        merged_hotkeys(base, overrides).contains(overrides[j]),
        merged_hotkeys(base, overrides).len() >= base.len(),
    decreases overrides.len(),
{
    let prev = overrides.drop_last();
    let o = overrides.last();
    lemma_merge_keeps_length(base, overrides);
    if j == overrides.len() - 1 {
        let hs = merged_hotkeys(base, prev);
        if exists|i: int| is_first_with_chord(hs, o, i) {
            let i = choose|i: int| is_first_with_chord(hs, o, i);
            assert(hs.update(i, o)[i] == o);
        } else {
            assert(hs.push(o)[hs.len() as int] == o);
        }
    } else {
        assert forall|k: int| j < k < prev.len() implies !same_chord(#[trigger] prev[k], prev[j]) by {
            assert(prev[k] == overrides[k]);
        }
        lemma_override_in_force(base, prev, j);
        let hs = merged_hotkeys(base, prev);
        let p = choose|p: int| 0 <= p < hs.len() && hs[p] == overrides[j];
        assert(!same_chord(o, overrides[j]));
        if exists|i: int| is_first_with_chord(hs, o, i) {
            let i = choose|i: int| is_first_with_chord(hs, o, i);
            assert(i != p);
            assert(hs.update(i, o)[p] == overrides[j]);
        } else {
            assert(hs.push(o)[p] == overrides[j]);
        }
    }
}

proof fn lemma_merge_keeps_length(base: Seq<HotkeyMapping>, overrides: Seq<HotkeyMapping>)
    ensures
        merged_hotkeys(base, overrides).len() >= base.len(),
    decreases overrides.len(),
{
    if overrides.len() > 0 {
        lemma_merge_keeps_length(base, overrides.drop_last());
    }
}

} // verus!
