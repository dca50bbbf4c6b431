use winit::compose::ComposeEngine;
use winit::compose::ComposeRule;
use winit::compose::ComposeStatus;

const DEAD_ACUTE: u32 = 0xfe51;
const KEY_E: u32 = 0x65;
const EACUTE: u32 = 0xe9;

fn acute_table() -> Vec<ComposeRule> {
    vec![
        ComposeRule { sequence: vec![DEAD_ACUTE, KEY_E], keysym: EACUTE, utf8: "é".to_string() },
        ComposeRule { sequence: vec![DEAD_ACUTE, 0x61], keysym: 0xe1, utf8: "á".to_string() },
    ]
}

#[test]
fn dead_key_sequence_composes_once() {
    let mut engine = ComposeEngine::new(acute_table());
    engine.feed_keysym(DEAD_ACUTE);
    assert_eq!(engine.get_status(), ComposeStatus::Composing);
    engine.feed_keysym(KEY_E);
    assert_eq!(engine.get_status(), ComposeStatus::Composed);
    assert_eq!(engine.get_keysym(), EACUTE);
    assert_eq!(engine.get_utf8(), Some("é".to_string()));
    assert_eq!(engine.get_status(), ComposeStatus::Nothing);
}

#[test]
fn repeating_the_sequence_composes_independently() {
    let mut engine = ComposeEngine::new(acute_table());
    engine.feed_keysym(DEAD_ACUTE);
    engine.feed_keysym(KEY_E);
    assert_eq!(engine.get_utf8(), Some("é".to_string()));
    engine.feed_keysym(DEAD_ACUTE);
    assert_eq!(engine.get_status(), ComposeStatus::Composing);
    engine.feed_keysym(KEY_E);
    assert_eq!(engine.get_status(), ComposeStatus::Composed);
    assert_eq!(engine.get_utf8(), Some("é".to_string()));
}

#[test]
fn unrelated_keysym_cancels_a_sequence() {
    let mut engine = ComposeEngine::new(acute_table());
    engine.feed_keysym(DEAD_ACUTE);
    engine.feed_keysym(0x7a);
    assert_eq!(engine.get_status(), ComposeStatus::Cancelled);
    // The next keysym starts over.
    engine.feed_keysym(DEAD_ACUTE);
    assert_eq!(engine.get_status(), ComposeStatus::Composing);
}

#[test]
fn keysym_starting_no_sequence_leaves_idle() {
    let mut engine = ComposeEngine::new(acute_table());
    engine.feed_keysym(0x7a);
    assert_eq!(engine.get_status(), ComposeStatus::Nothing);
}

#[test]
fn reset_discards_progress() {
    let mut engine = ComposeEngine::new(acute_table());
    engine.feed_keysym(DEAD_ACUTE);
    engine.reset();
    assert_eq!(engine.get_status(), ComposeStatus::Nothing);
    engine.feed_keysym(KEY_E);
    assert_eq!(engine.get_status(), ComposeStatus::Nothing);
}

#[test]
fn empty_output_rule_yields_none_and_keeps_state() {
    let table = vec![ComposeRule { sequence: vec![1, 2], keysym: 9, utf8: String::new() }];
    let mut engine = ComposeEngine::new(table);
    engine.feed_keysym(1);
    engine.feed_keysym(2);
    assert_eq!(engine.get_status(), ComposeStatus::Composed);
    assert_eq!(engine.get_utf8(), None);
    assert_eq!(engine.get_status(), ComposeStatus::Composed);
}
