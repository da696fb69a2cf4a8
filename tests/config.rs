use win_move::config::{get_config_hotkeys, load_config, merge_configs, Config, HotkeyMapping};
use win_move::enums::{HotKeyButton, HotKeyModifier};
use win_move::hotkey_action::HotKeyAction;

fn binding(action: HotKeyAction, key: HotKeyButton, modifier: HotKeyModifier) -> HotkeyMapping {
    HotkeyMapping { action, key, modifier }
}

#[test]
fn test_default_config_has_hotkeys() {
    let config = Config::default();
    assert!(!config.hotkeys.is_empty());
    assert!(config.hotkeys.len() >= 8);
}

#[test]
fn test_merge_configs() {
    let base = Config {
        hotkeys: vec![
            HotkeyMapping {
                action: HotKeyAction::MoveWindowToLeftBottom,
                key: HotKeyButton::VkNumpad1,
                modifier: HotKeyModifier::ModControl,
            },
            HotkeyMapping {
                action: HotKeyAction::MoveWindowToTop,
                key: HotKeyButton::VkNumpad8,
                modifier: HotKeyModifier::ModControl,
            },
        ],
    };

    let override_config = Config {
        hotkeys: vec![HotkeyMapping {
            action: HotKeyAction::MaximizeWindow,
            key: HotKeyButton::VkNumpad5,
            modifier: HotKeyModifier::ModControl,
        }],
    };

    let merged = merge_configs(base, override_config);
    assert_eq!(merged.hotkeys.len(), 3);
    assert!(merged.hotkeys.iter().any(|h| h.action == HotKeyAction::MoveWindowToLeftBottom));
    assert!(merged.hotkeys.iter().any(|h| h.action == HotKeyAction::MoveWindowToTop));
    assert!(merged.hotkeys.iter().any(|h| h.action == HotKeyAction::MaximizeWindow));
}

#[test]
fn test_merge_configs_replace_existing() {
    let base = Config {
        hotkeys: vec![
            HotkeyMapping {
                action: HotKeyAction::MoveWindowToLeftBottom,
                key: HotKeyButton::VkNumpad1,
                modifier: HotKeyModifier::ModControl,
            },
            HotkeyMapping {
                action: HotKeyAction::MoveWindowToTop,
                key: HotKeyButton::VkNumpad8,
                modifier: HotKeyModifier::ModControl,
            },
        ],
    };

    let override_config = Config {
        hotkeys: vec![HotkeyMapping {
            action: HotKeyAction::MaximizeWindow,
            key: HotKeyButton::VkNumpad1,
            modifier: HotKeyModifier::ModControl,
        }],
    };

    let merged = merge_configs(base, override_config);
    assert_eq!(merged.hotkeys.len(), 2);
    let numpad1_hotkey =
        merged.hotkeys.iter().find(|h| h.key == HotKeyButton::VkNumpad1).unwrap();
    assert_eq!(numpad1_hotkey.action, HotKeyAction::MaximizeWindow);
    assert!(merged.hotkeys.iter().any(|h| h.action == HotKeyAction::MoveWindowToTop));
}

#[test]
fn test_merge_configs_empty_override() {
    let base = Config {
        hotkeys: vec![HotkeyMapping {
            action: HotKeyAction::MoveWindowToLeftBottom,
            key: HotKeyButton::VkNumpad1,
            modifier: HotKeyModifier::ModControl,
        }],
    };

    let override_config = Config { hotkeys: vec![] };

    let merged = merge_configs(base, override_config);
    assert_eq!(merged.hotkeys.len(), 1);
    assert_eq!(merged.hotkeys[0].action, HotKeyAction::MoveWindowToLeftBottom);
}

#[test]
fn default_bindings_are_control_numpad() {
    let config = Config::default();
    assert_eq!(config.hotkeys.len(), 11);
    assert_eq!(
        config.hotkeys[0],
        binding(HotKeyAction::MoveWindowToLeftBottom, HotKeyButton::VkNumpad1, HotKeyModifier::ModControl)
    );
    assert_eq!(
        config.hotkeys[8],
        binding(
            HotKeyAction::MoveWindowToLeftScreenContinuous,
            HotKeyButton::VkNumpad0,
            HotKeyModifier::ModControl
        )
    );
    assert_eq!(
        config.hotkeys[10],
        binding(HotKeyAction::MaximizeWindow, HotKeyButton::VkNumpad5, HotKeyModifier::ModControl)
    );
    assert!(config.hotkeys.iter().all(|h| h.modifier == HotKeyModifier::ModControl));
}

#[test]
fn merge_keeps_order_and_distinguishes_modifiers() {
    let base = Config {
        hotkeys: vec![
            binding(HotKeyAction::MoveWindowToTop, HotKeyButton::VkNumpad8, HotKeyModifier::ModControl),
            binding(HotKeyAction::MoveWindowToBottom, HotKeyButton::VkNumpad2, HotKeyModifier::ModControl),
        ],
    };
    let override_config = Config {
        hotkeys: vec![
            binding(HotKeyAction::MinimizeWindow, HotKeyButton::VkNumpad8, HotKeyModifier::ModAlt),
            binding(HotKeyAction::MaximizeWindow, HotKeyButton::VkNumpad2, HotKeyModifier::ModControl),
            binding(HotKeyAction::MoveWindowToLeftTop, HotKeyButton::VkNumpad8, HotKeyModifier::ModAlt),
        ],
    };
    let merged = merge_configs(base, override_config);
    assert_eq!(
        merged.hotkeys,
        vec![
            binding(HotKeyAction::MoveWindowToTop, HotKeyButton::VkNumpad8, HotKeyModifier::ModControl),
            binding(HotKeyAction::MaximizeWindow, HotKeyButton::VkNumpad2, HotKeyModifier::ModControl),
            binding(HotKeyAction::MoveWindowToLeftTop, HotKeyButton::VkNumpad8, HotKeyModifier::ModAlt),
        ]
    );
}

#[test]
fn no_layers_give_the_default() {
    let config = load_config(vec![]);
    assert_eq!(config.hotkeys, Config::default().hotkeys);
}

#[test]
fn later_layers_override_earlier_ones() {
    let system = Config {
        hotkeys: vec![
            binding(HotKeyAction::MinimizeWindow, HotKeyButton::VkNumpad1, HotKeyModifier::ModControl),
            binding(HotKeyAction::MoveWindowToTop, HotKeyButton::VkNumpad1, HotKeyModifier::NoModifier),
        ],
    };
    let user = Config {
        hotkeys: vec![binding(
            HotKeyAction::MaximizeWindow,
            HotKeyButton::VkNumpad1,
            HotKeyModifier::ModControl,
        )],
    };
    let hotkeys = get_config_hotkeys(vec![system, user]);
    let mut expected = Config::default().hotkeys;
    expected[0] =
        binding(HotKeyAction::MaximizeWindow, HotKeyButton::VkNumpad1, HotKeyModifier::ModControl);
    expected.push(binding(
        HotKeyAction::MoveWindowToTop,
        HotKeyButton::VkNumpad1,
        HotKeyModifier::NoModifier,
    ));
    assert_eq!(hotkeys, expected);
}
