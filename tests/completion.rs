use probe_flasher::mcu::{completion_matches, mcu_completion};

fn catalogue() -> Vec<String> {
    vec![
        "STM32F103C8".to_string(),
        "STM32F103RB".to_string(),
        "STM32F407VG".to_string(),
    ]
}

#[test]
fn completion_ignores_case() {
    let r = mcu_completion("stm32f103".to_string(), catalogue());
    assert_eq!(r, vec!["STM32F103C8".to_string(), "STM32F103RB".to_string()]);
}

#[test]
fn completion_matches_inside_the_name() {
    let r = mcu_completion("vg".to_string(), catalogue());
    assert_eq!(r, vec!["STM32F407VG".to_string()]);
}

#[test]
fn completion_of_empty_query_is_everything() {
    assert_eq!(mcu_completion(String::new(), catalogue()), catalogue());
}

#[test]
fn completion_without_match_is_empty() {
    assert!(mcu_completion("nrf52".to_string(), catalogue()).is_empty());
}

#[test]
fn completion_of_empty_catalogue_is_empty() {
    assert!(mcu_completion("stm".to_string(), Vec::new()).is_empty());
}

#[test]
fn matches_on_lowered_text() {
    assert!(completion_matches("stm32f103c8", "f103"));
    assert!(completion_matches("stm32f103c8", ""));
    assert!(completion_matches("stm32f103c8", "stm32f103c8"));
    assert!(!completion_matches("stm32f103c8", "F103"));
    assert!(!completion_matches("f103", "stm32f103c8"));
    assert!(!completion_matches("", "a"));
}
