use winit::input_method::InputMethodResult;
use winit::input_method::PotentialInputMethods;
use winit::input_method::format_xim_server_name;

fn env_and_two_servers() -> PotentialInputMethods {
    PotentialInputMethods::new(
        Some("@im=ibus".to_string()),
        Some(vec!["@im=one".to_string(), "@im=two".to_string()]),
    )
}

#[test]
fn negotiation_tries_candidates_in_tier_order() {
    let mut pims = env_and_two_servers();
    assert_eq!(pims.total(), 5);
    let mut neg = pims.begin_open();
    assert_eq!(pims.candidate_name(neg.index), "@im=ibus".to_string());
    pims.record_failure(&mut neg);
    assert_eq!(pims.candidate_name(neg.index), "@im=one".to_string());
    pims.record_failure(&mut neg);
    assert_eq!(pims.candidate_name(neg.index), "@im=two".to_string());
    // Exactly three candidates were tried; the third succeeded.
    assert_eq!(neg.index, 2);
    let result = pims.bind_success(neg.index, 42);
    match &result {
        InputMethodResult::XimServers(im) => {
            assert_eq!(im.im, 42);
            assert_eq!(im.name, "@im=two".to_string());
        },
        other => panic!("expected a server-tier success, got {:?}", other),
    }
    // The static fallbacks were never touched.
    assert!(!pims.fallbacks[0].failed);
    assert!(!pims.fallbacks[1].failed);
    let opened = result.ok();
    assert!(opened.is_some());
}

#[test]
fn negotiation_exhausting_all_candidates_fails() {
    let mut pims = env_and_two_servers();
    let mut neg = pims.begin_open();
    for _ in 0..5 {
        pims.record_failure(&mut neg);
    }
    assert_eq!(neg.index, 5);
    assert_eq!(InputMethodResult::Failure.ok(), None);
    assert!(pims.fallbacks[0].failed);
    assert!(pims.fallbacks[1].failed);
}

#[test]
fn renegotiation_resets_failure_flags() {
    let mut pims = env_and_two_servers();
    let mut neg = pims.begin_open();
    pims.record_failure(&mut neg);
    pims.record_failure(&mut neg);
    let neg2 = pims.begin_open();
    assert_eq!(neg2.index, 0);
    assert!(!pims.xmodifiers.as_ref().unwrap().failed);
}

#[test]
fn fallbacks_are_local_then_default() {
    let pims = PotentialInputMethods::new(None, None);
    assert_eq!(pims.total(), 2);
    assert_eq!(pims.candidate_name(0), "@im=local".to_string());
    assert_eq!(pims.candidate_name(1), "@im=".to_string());
}

#[test]
fn env_failure_falls_through_to_fallback_tier() {
    let mut pims = PotentialInputMethods::new(Some("@im=fcitx".to_string()), None);
    let mut neg = pims.begin_open();
    pims.record_failure(&mut neg);
    let result = pims.bind_success(neg.index, 7);
    assert!(matches!(result, InputMethodResult::Fallbacks(_)));
}

#[test]
fn server_atom_names_become_locale_modifiers() {
    assert_eq!(format_xim_server_name("@server=ibus"), "@im=ibus".to_string());
    assert_eq!(format_xim_server_name("@im=already"), "@im=already".to_string());
    assert_eq!(format_xim_server_name("short"), "short".to_string());
}
