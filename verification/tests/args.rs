use diskwipe::args::{Args, Rejection};
use diskwipe::engine::{Action, Event, Phase};
use diskwipe::fill::Mode;
use diskwipe::units::Unit;

fn args(chunksize: usize, unit: Unit, mode: Mode) -> Args {
    Args { chunksize, unit, mode, path: "/dev/sdx".to_string() }
}

#[test]
fn run_begins_on_a_yes() {
    let engine = args(4, Unit::Mib, Mode::Zero).engage(true, "y\n").unwrap();
    assert_eq!(engine.chunk_len(), 4_194_304);
    assert_eq!(engine.mode(), Mode::Zero);
    assert_eq!(engine.total(), 0);
    assert_eq!(*engine.phase(), Phase::Idle);
}

#[test]
fn decimal_units_count_in_thousands() {
    let mut engine = args(4, Unit::Mb, Mode::Random).engage(true, "Y").unwrap();
    assert_eq!(engine.chunk_len(), 4_000_000);
    assert_eq!(engine.mode(), Mode::Random);
    assert_eq!(engine.step(Event::Start), Action::Write);
}

#[test]
fn no_run_without_a_yes() {
    for answer in ["", "\n", "n", "N\n", "no", "yes", "yy", " y", "\r\n"] {
        let r = args(1, Unit::B, Mode::Zero).engage(true, answer);
        assert_eq!(r.err(), Some(Rejection::Declined));
    }
}

#[test]
fn no_run_with_an_empty_chunk() {
    let r = args(0, Unit::Gib, Mode::Zero).engage(true, "y");
    assert_eq!(r.err(), Some(Rejection::ZeroChunk));
    assert_eq!(
        args(0, Unit::B, Mode::Random).precheck(true),
        Err(Rejection::ZeroChunk)
    );
}

#[test]
fn no_run_on_a_missing_target() {
    let r = args(1, Unit::B, Mode::Zero).engage(false, "y");
    assert_eq!(r.err(), Some(Rejection::MissingTarget));
    assert_eq!(
        args(1, Unit::B, Mode::Zero).precheck(false),
        Err(Rejection::MissingTarget)
    );
}

#[test]
fn missing_target_is_told_before_an_empty_chunk_and_that_before_a_no() {
    assert_eq!(
        args(0, Unit::B, Mode::Zero).engage(false, "n").err(),
        Some(Rejection::MissingTarget)
    );
    assert_eq!(
        args(0, Unit::B, Mode::Zero).engage(true, "n").err(),
        Some(Rejection::ZeroChunk)
    );
    assert_eq!(
        args(usize::MAX, Unit::Tib, Mode::Zero).engage(true, "n").err(),
        Some(Rejection::Declined)
    );
}

#[test]
fn no_run_with_a_chunk_beyond_usize() {
    let r = args(usize::MAX, Unit::Tib, Mode::Zero).engage(true, "y");
    assert_eq!(r.err(), Some(Rejection::ChunkTooLarge));
}

#[test]
fn precheck_passes_what_can_be_asked_about() {
    assert_eq!(args(1, Unit::B, Mode::Zero).precheck(true), Ok(()));
    assert_eq!(args(usize::MAX, Unit::Tib, Mode::Random).precheck(true), Ok(()));
}

#[test]
fn each_rejection_has_its_message() {
    assert_eq!(
        Rejection::MissingTarget.message("/dev/sdx"),
        Some("/dev/sdx doesn't exist".to_string())
    );
    assert_eq!(
        Rejection::ZeroChunk.message("/dev/sdx"),
        Some("Chunksize can't be 0 or negative".to_string())
    );
    assert_eq!(Rejection::Declined.message("/dev/sdx"), None);
    assert_eq!(
        Rejection::ChunkTooLarge.message("/dev/sdx"),
        Some("Chunksize is too large".to_string())
    );
}
