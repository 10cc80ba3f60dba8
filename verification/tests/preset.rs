use arcorrust::preset::file_name_from_lowercase;
use arcorrust::preset::preset_filename;
use arcorrust::preset::PresetInfo;
use arcorrust::preset::PresetManager;
use std::path::PathBuf;

fn info(name: &str, file: &str) -> PresetInfo {
    PresetInfo { name: name.to_string(), path: PathBuf::from(file) }
}

fn sample_manager() -> PresetManager {
    PresetManager::new(
        PathBuf::from("presets"),
        vec![
            info("Soft Pad", "soft_pad.json"),
            info("Classic Bass", "classic_bass.json"),
            info("Brass Stab", "brass_stab.json"),
            info("Classic Bass", "classic_bass_2.json"),
        ],
    )
}

#[test]
fn presets_are_listed_by_name_stably() {
    let manager = sample_manager();
    let listed: Vec<(String, PathBuf)> =
        manager.list().iter().map(|p| (p.name.clone(), p.path.clone())).collect();
    assert_eq!(
        listed,
        vec![
            ("Brass Stab".to_string(), PathBuf::from("brass_stab.json")),
            ("Classic Bass".to_string(), PathBuf::from("classic_bass.json")),
            ("Classic Bass".to_string(), PathBuf::from("classic_bass_2.json")),
            ("Soft Pad".to_string(), PathBuf::from("soft_pad.json")),
        ]
    );
    assert_eq!(manager.preset_dir(), &PathBuf::from("presets"));
}

#[test]
fn names_sort_by_character_code() {
    let manager = PresetManager::new(
        PathBuf::from("p"),
        vec![info("b", "1"), info("B", "2"), info("ab", "3"), info("a", "4"), info("é", "5")],
    );
    let names: Vec<&str> = manager.list().iter().map(|p| p.name.as_str()).collect();
    assert_eq!(names, vec!["B", "a", "ab", "b", "é"]);
}

#[test]
fn selection_wraps_both_ways() {
    let mut manager = sample_manager();
    assert_eq!(manager.current_index(), 0);
    assert_eq!(manager.current_name(), "Brass Stab");
    manager.prev();
    assert_eq!(manager.current_index(), 3);
    assert_eq!(manager.current_name(), "Soft Pad");
    manager.next();
    assert_eq!(manager.current_index(), 0);
    for _ in 0..6 {
        manager.next();
    }
    assert_eq!(manager.current_index(), 2);
    assert_eq!(manager.selected().unwrap().path, PathBuf::from("classic_bass_2.json"));
}

#[test]
fn empty_list_selects_nothing() {
    let mut manager = PresetManager::new(PathBuf::from("presets"), Vec::new());
    assert_eq!(manager.current_name(), "None");
    assert!(manager.selected().is_none());
    manager.next();
    manager.prev();
    assert_eq!(manager.current_index(), 0);
    assert!(manager.list().is_empty());
}

#[test]
fn rescan_keeps_the_position() {
    let mut manager = sample_manager();
    manager.next();
    manager.next();
    manager.next();
    manager.set_presets(vec![info("Zed", "zed.json")]);
    assert_eq!(manager.current_index(), 3);
    assert_eq!(manager.current_name(), "None");
    manager.next();
    assert_eq!(manager.current_index(), 0);
    assert_eq!(manager.current_name(), "Zed");
}

#[test]
fn preset_file_names() {
    assert_eq!(preset_filename("Classic Bass"), "classic_bass.json");
    assert_eq!(preset_filename("Init"), "init.json");
    assert_eq!(preset_filename("ÄRGER Tone"), "ärger_tone.json");
    assert_eq!(file_name_from_lowercase("two  spaces"), "two__spaces.json");
}
