use plugin_registry::{EntryPoint, Platform, Plugin, PluginState, PluginType};

const STATES: [PluginState; 4] = [
    PluginState::Unloaded,
    PluginState::MarkedForLoad,
    PluginState::Loaded,
    PluginState::Disabled,
];

fn plugin(state: PluginState) -> Plugin {
    Plugin {
        name: "OpenGL Renderer".to_owned(),
        author: "Team A".to_owned(),
        description: "GL 4.x backend".to_owned(),
        path: "/plugins/render_gl.so".to_owned(),
        plugin_type: PluginType::RenderBackend,
        plugin_state: state,
    }
}

#[test]
fn category_of_each_tag() {
    assert_eq!(PluginType::from_tag(0), Some(PluginType::AudioBackend));
    assert_eq!(PluginType::from_tag(1), Some(PluginType::RenderBackend));
    assert_eq!(PluginType::from_tag(2), Some(PluginType::WindowBackend));
    assert_eq!(PluginType::from_tag(3), None);
    assert_eq!(PluginType::from_tag(4), None);
    assert_eq!(PluginType::from_tag(128), None);
    assert_eq!(PluginType::from_tag(255), None);
}

#[test]
fn tag_of_each_category() {
    assert_eq!(PluginType::AudioBackend.tag(), 0);
    assert_eq!(PluginType::RenderBackend.tag(), 1);
    assert_eq!(PluginType::WindowBackend.tag(), 2);
}

#[test]
fn category_is_read_back_from_its_tag() {
    for kind in [
        PluginType::AudioBackend,
        PluginType::RenderBackend,
        PluginType::WindowBackend,
    ] {
        assert_eq!(PluginType::from_tag(kind.tag()), Some(kind));
    }
    for tag in 0..=255u8 {
        if let Some(kind) = PluginType::from_tag(tag) {
            assert_eq!(kind.tag(), tag);
        }
    }
}

#[test]
fn lifecycle_moves_forward() {
    assert!(PluginState::Unloaded.can_transition_to(PluginState::MarkedForLoad));
    assert!(PluginState::MarkedForLoad.can_transition_to(PluginState::Loaded));
    assert!(!PluginState::Unloaded.can_transition_to(PluginState::Loaded));
    assert!(!PluginState::Unloaded.can_transition_to(PluginState::Unloaded));
    assert!(!PluginState::MarkedForLoad.can_transition_to(PluginState::Unloaded));
    assert!(!PluginState::MarkedForLoad.can_transition_to(PluginState::MarkedForLoad));
    assert!(!PluginState::Loaded.can_transition_to(PluginState::Unloaded));
    assert!(!PluginState::Loaded.can_transition_to(PluginState::MarkedForLoad));
    assert!(!PluginState::Loaded.can_transition_to(PluginState::Loaded));
}

#[test]
fn every_state_can_be_disabled() {
    for state in STATES {
        assert!(state.can_transition_to(PluginState::Disabled));
    }
}

#[test]
fn disabled_is_terminal() {
    assert!(!PluginState::Disabled.can_transition_to(PluginState::Unloaded));
    assert!(!PluginState::Disabled.can_transition_to(PluginState::MarkedForLoad));
    assert!(!PluginState::Disabled.can_transition_to(PluginState::Loaded));
}

#[test]
fn six_transitions_are_legal() {
    let mut legal = 0;
    for from in STATES {
        for to in STATES {
            if from.can_transition_to(to) {
                legal += 1;
            }
        }
    }
    assert_eq!(legal, 6);
}

#[test]
fn plugin_takes_a_legal_step() {
    let mut record = plugin(PluginState::Unloaded);
    assert!(record.transition_to(PluginState::MarkedForLoad));
    assert_eq!(record.plugin_state, PluginState::MarkedForLoad);
    assert!(record.transition_to(PluginState::Loaded));
    assert_eq!(record.plugin_state, PluginState::Loaded);
    assert!(record.transition_to(PluginState::Disabled));
    assert_eq!(record.plugin_state, PluginState::Disabled);
    assert_eq!(record.name, "OpenGL Renderer");
    assert_eq!(record.author, "Team A");
    assert_eq!(record.description, "GL 4.x backend");
    assert_eq!(record.path, "/plugins/render_gl.so");
    assert_eq!(record.plugin_type, PluginType::RenderBackend);
}

#[test]
fn plugin_refuses_an_illegal_step() {
    let mut record = plugin(PluginState::Unloaded);
    assert!(!record.transition_to(PluginState::Loaded));
    assert_eq!(record.plugin_state, PluginState::Unloaded);
    let mut record = plugin(PluginState::Disabled);
    assert!(!record.transition_to(PluginState::Unloaded));
    assert_eq!(record.plugin_state, PluginState::Disabled);
    let mut record = plugin(PluginState::Loaded);
    assert!(!record.transition_to(PluginState::MarkedForLoad));
    assert_eq!(record.plugin_state, PluginState::Loaded);
    assert_eq!(record.name, "OpenGL Renderer");
    assert_eq!(record.plugin_type, PluginType::RenderBackend);
}

#[test]
fn entry_points_have_fixed_symbols() {
    assert_eq!(EntryPoint::Name.symbol(), "get_name");
    assert_eq!(EntryPoint::Author.symbol(), "get_author");
    assert_eq!(EntryPoint::Description.symbol(), "get_description");
    assert_eq!(EntryPoint::Type.symbol(), "get_type");
}

#[test]
fn platform_by_name() {
    assert_eq!(Platform::from_os_name("windows"), Some(Platform::Windows));
    assert_eq!(Platform::from_os_name("linux"), Some(Platform::Linux));
    assert_eq!(Platform::from_os_name("macos"), Some(Platform::MacOs));
}

#[test]
fn platform_without_a_module_format() {
    assert_eq!(Platform::from_os_name("freebsd"), None);
    assert_eq!(Platform::from_os_name("android"), None);
    assert_eq!(Platform::from_os_name(""), None);
    assert_eq!(Platform::from_os_name("Linux"), None);
    assert_eq!(Platform::from_os_name("linux "), None);
    assert_eq!(Platform::from_os_name("win"), None);
}

#[test]
fn platform_suffixes() {
    assert_eq!(Platform::Windows.suffix(), ".dll");
    assert_eq!(Platform::Linux.suffix(), ".so");
    assert_eq!(Platform::MacOs.suffix(), ".dylib");
}

#[test]
fn platform_file_patterns() {
    assert_eq!(Platform::Windows.file_pattern(), "*.dll");
    assert_eq!(Platform::Linux.file_pattern(), "*.so");
    assert_eq!(Platform::MacOs.file_pattern(), "*.dylib");
}
