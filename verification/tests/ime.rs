use winit::ime::Ime;
use winit::ime::ImeContext;
use winit::ime::NewImeContextError;
use winit::ime::XError;
use winit::input_method::PotentialInputMethods;

fn fresh_ime() -> Ime {
    Ime::new(7, PotentialInputMethods::new(None, None))
}

fn live_context(ic: u64) -> Option<Result<ImeContext, NewImeContextError>> {
    Some(Ok(ImeContext { ic, ic_spot: (0, 0) }))
}

#[test]
fn context_creation_validates_the_native_outcome() {
    assert_eq!(
        ImeContext::new(None, None, None),
        Err(NewImeContextError::Null)
    );
    let err = XError { error_code: 3, request_code: 42, minor_code: 0 };
    assert_eq!(
        ImeContext::new(Some(11), None, Some(err)),
        Err(NewImeContextError::XError(err))
    );
    assert_eq!(
        ImeContext::new(Some(11), Some((4, 5)), None),
        Ok(ImeContext { ic: 11, ic_spot: (4, 5) })
    );
    assert_eq!(
        ImeContext::new(Some(11), None, None),
        Ok(ImeContext { ic: 11, ic_spot: (0, 0) })
    );
}

#[test]
fn destroy_context_is_idempotent() {
    let mut ime = fresh_ime();
    assert_eq!(ime.create_context(1, live_context(11)), Ok(()));
    assert_eq!(ime.destroy_context(1), Some(11));
    assert_eq!(ime.destroy_context(1), None);
    assert_eq!(ime.destroy_context(99), None);
}

#[test]
fn get_context_reports_live_contexts_only() {
    let mut ime = fresh_ime();
    assert_eq!(ime.create_context(1, live_context(11)), Ok(()));
    assert_eq!(ime.get_context(1), Some(11));
    assert_eq!(ime.get_context(2), None);
    assert_eq!(ime.focus(1), Some(11));
    assert_eq!(ime.unfocus(2), None);
}

#[test]
fn creation_failure_leaves_the_registry_unchanged() {
    let mut ime = fresh_ime();
    assert_eq!(
        ime.create_context(1, Some(Err(NewImeContextError::Null))),
        Err(NewImeContextError::Null)
    );
    assert_eq!(ime.get_context(1), None);
}

#[test]
fn destroy_rebuild_preserves_windows_and_spots() {
    let mut ime = fresh_ime();
    assert_eq!(ime.create_context(1, live_context(11)), Ok(()));
    assert_eq!(ime.send_xim_spot(1, 3, 4), Some((11, 3, 4)));

    // The server tears the input method down.
    ime.mark_destroyed();
    assert!(ime.is_destroyed());
    assert_eq!(ime.get_context(1), None);

    // A new instance is advertised; the adapter recreates each context
    // with the recorded spot.
    let plan = ime.rebuild_plan();
    assert_eq!(plan, vec![(1, Some((3, 4)))]);
    ime.rebuild_commit(99, vec![21]);
    assert!(!ime.is_destroyed());
    assert_eq!(ime.get_context(1), Some(21));
    // The spot survived the bounce: sending it again issues no update.
    assert_eq!(ime.send_xim_spot(1, 3, 4), None);
}

#[test]
fn contexts_created_while_destroyed_are_tombstones() {
    let mut ime = fresh_ime();
    ime.mark_destroyed();
    // Not an error: the window is keyed so the rebuild can reach it.
    assert_eq!(ime.create_context(5, None), Ok(()));
    assert_eq!(ime.get_context(5), None);
    let plan = ime.rebuild_plan();
    assert_eq!(plan, vec![(5, None)]);
    ime.rebuild_commit(100, vec![31]);
    assert_eq!(ime.get_context(5), Some(31));
}

#[test]
fn identical_spot_issues_at_most_one_native_update() {
    let mut ime = fresh_ime();
    assert_eq!(ime.create_context(1, live_context(11)), Ok(()));
    assert_eq!(ime.send_xim_spot(1, 10, 20), Some((11, 10, 20)));
    assert_eq!(ime.send_xim_spot(1, 10, 20), None);
    assert_eq!(ime.send_xim_spot(1, 10, 21), Some((11, 10, 21)));
}

#[test]
fn spot_updates_are_suppressed_while_destroyed() {
    let mut ime = fresh_ime();
    assert_eq!(ime.create_context(1, live_context(11)), Ok(()));
    ime.mark_destroyed();
    assert_eq!(ime.send_xim_spot(1, 10, 20), None);
}

#[test]
fn context_set_spot_tracks_the_recorded_spot() {
    let mut ctx = ImeContext { ic: 11, ic_spot: (0, 0) };
    assert_eq!(ctx.set_spot(2, 3), Some((2, 3)));
    assert_eq!(ctx.set_spot(2, 3), None);
    assert_eq!(ctx.ic_spot, (2, 3));
}
