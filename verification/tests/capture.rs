use helix::render::capture::{parse_serials, CaptureError, Selection, SequenceProgress, SequenceSelection};

#[test]
fn capture_modes_require_an_output_and_cannot_be_combined() {
    assert!(Selection::parse(None, Some("bad".into()), None, Some("bad".into()), Some("bad".into()))
        .unwrap()
        .is_none());
    assert!(Selection::parse(
        Some("frames".into()),
        Some("1".into()),
        Some("run.f3dcap".into()),
        None,
        Some("1".into())
    )
    .is_err());
    assert!(Selection::parse(Some("frames".into()), None, None, None, None).is_err());
    assert!(Selection::parse(Some("".into()), Some("1".into()), None, None, None).is_err());
}

#[test]
fn capture_mode_errors_name_the_reason() {
    let err = |r: Result<Option<Selection>, CaptureError>| r.err().unwrap();
    assert_eq!(
        err(Selection::parse(Some("d".into()), Some("1".into()), Some("s".into()), None, None)),
        CaptureError::ModesExclusive
    );
    assert_eq!(err(Selection::parse(Some("".into()), Some("1".into()), None, None, None)), CaptureError::EmptyDirectory);
    assert_eq!(err(Selection::parse(Some("d".into()), None, None, None, None)), CaptureError::FramesRequired);
    assert_eq!(err(Selection::parse(Some("d".into()), Some("0".into()), None, None, None)), CaptureError::ZeroSerial);
    assert_eq!(err(Selection::parse(Some("d".into()), Some("x".into()), None, None, None)), CaptureError::InvalidSerial);
    assert_eq!(err(Selection::parse(Some("d".into()), Some(" , ".into()), None, None, None)), CaptureError::NoSerials);
    assert_eq!(err(Selection::parse(None, None, Some("".into()), None, Some("1".into()))), CaptureError::EmptySequencePath);
    assert_eq!(err(Selection::parse(None, None, Some("s".into()), Some("x".into()), Some("1".into()))), CaptureError::InvalidWarmup);
    assert_eq!(err(Selection::parse(None, None, Some("s".into()), None, None)), CaptureError::PresentationsRequired);
    assert_eq!(
        err(Selection::parse(None, None, Some("s".into()), Some("5".into()), Some("5".into()))),
        CaptureError::PresentationsBeforeWarmup
    );
    match Selection::parse(Some("d".into()), Some("3,1".into()), None, None, None).unwrap().unwrap() {
        Selection::Frames(f) => {
            assert_eq!(f.frames().clone(), vec![1, 3]);
            assert!(f.contains(3) && f.contains(1) && !f.contains(2));
            assert_eq!(f.directory().as_str(), "d");
        }
        Selection::Sequence(_) => panic!("expected frames"),
    }
    match Selection::parse(None, None, Some("s".into()), None, Some("2".into())).unwrap().unwrap() {
        Selection::Sequence(s) => {
            assert_eq!(s.path().as_str(), "s");
            assert_eq!(s.warmup_frames(), 0);
            assert_eq!(s.presentations().clone(), vec![2]);
        }
        Selection::Frames(_) => panic!("expected sequence"),
    }
}

#[test]
fn serial_lists_accept_bsd_seq_trailing_comma() {
    assert_eq!(parse_serials(" 1, 5,,19,5, \n").unwrap(), vec![1, 5, 19]);
    for invalid in ["", ", ,", "0", "-1", "1,no", "18446744073709551616"] {
        assert!(parse_serials(invalid).is_err(), "{invalid:?}");
    }
    assert_eq!(parse_serials("18446744073709551615").unwrap(), vec![u64::MAX]);
    assert_eq!(parse_serials("0"), Err(CaptureError::ZeroSerial));
    assert_eq!(parse_serials(""), Err(CaptureError::NoSerials));
}

#[test]
fn sequence_selection_requires_presentations_after_warmup() {
    let selection =
        SequenceSelection::parse("run.f3dcap".into(), Some("10".into()), Some("20,11,".into())).unwrap();
    assert_eq!(selection.warmup_frames(), 10);
    assert_eq!(selection.presentations().clone(), vec![11, 20]);
    assert_eq!(selection.last_serial(), 20);
    for (path, warmup, presentations) in [
        ("", None, Some("1")),
        ("run.f3dcap", Some("-1"), Some("1")),
        ("run.f3dcap", Some("4294967296"), Some("1")),
        ("run.f3dcap", Some("10"), Some("10,11")),
        ("run.f3dcap", None, None),
    ] {
        assert!(SequenceSelection::parse(
            path.into(),
            warmup.map(str::to_owned),
            presentations.map(str::to_owned)
        )
        .is_err());
    }
}

#[test]
fn interrupted_sequence_retains_reached_selections_or_last_frame() {
    let selection =
        SequenceSelection::parse("run.f3dcap".into(), Some("10".into()), Some("12,20".into())).unwrap();
    assert_eq!(selection.prefix(20).unwrap(), (10, vec![12, 20]));
    assert_eq!(selection.prefix(15).unwrap(), (10, vec![12]));
    assert_eq!(selection.prefix(11).unwrap(), (10, vec![11]));
    assert_eq!(selection.prefix(4).unwrap(), (3, vec![4]));
    assert!(selection.prefix(0).is_err());
}

#[test]
fn sequence_progress_completes_at_the_last_presentation_and_saves_a_prefix() {
    let selection =
        SequenceSelection::parse("run.f3dcap".into(), Some("2".into()), Some("3,5".into())).unwrap();
    let mut p = SequenceProgress::new();
    assert_eq!(p.finish(&selection), Err(CaptureError::NoCompletedFrames));
    assert!(!p.present(&selection));
    assert_eq!(p.finish(&selection), Ok((0, vec![1], false)));
    assert!(!p.present(&selection));
    assert!(!p.present(&selection));
    assert_eq!(p.finish(&selection), Ok((2, vec![3], false)));
    assert!(!p.present(&selection));
    assert!(p.present(&selection), "frame 5 is the last presentation");
    assert_eq!(p.completed_frames, 5);
    assert_eq!(p.finish(&selection), Ok((2, vec![3, 5], true)));
}
