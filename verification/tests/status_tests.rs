use monrs::status::Status;

#[test]
fn status_from_str_reads_each_letter_in_both_cases() {
    let cases = [
        ("D", "d", Status::D),
        ("R", "r", Status::R),
        ("S", "s", Status::S),
        ("T", "t", Status::T),
        ("W", "w", Status::W),
        ("X", "x", Status::X),
        ("Z", "z", Status::Z),
    ];
    for (upper, lower, status) in cases.iter() {
        assert_eq!(Status::from_str(upper), *status);
        assert_eq!(Status::from_str(lower), *status);
    }
}

#[test]
fn status_from_str_other_text_is_unknown() {
    assert_eq!(Status::from_str(""), Status::Unknown);
    assert_eq!(Status::from_str("DD"), Status::Unknown);
    assert_eq!(Status::from_str("Q"), Status::Unknown);
    assert_eq!(Status::from_str("unknown"), Status::Unknown);
    assert_eq!(Status::from_str("S (sleeping)"), Status::Unknown);
}

#[test]
fn status_to_str_writes_upper_case_letters() {
    assert_eq!(Status::D.to_str(), "D");
    assert_eq!(Status::R.to_str(), "R");
    assert_eq!(Status::S.to_str(), "S");
    assert_eq!(Status::T.to_str(), "T");
    assert_eq!(Status::W.to_str(), "W");
    assert_eq!(Status::X.to_str(), "X");
    assert_eq!(Status::Z.to_str(), "Z");
    assert_eq!(Status::Unknown.to_str(), "unknown");
}

#[test]
fn status_round_trips_through_its_text() {
    let all = [
        Status::D,
        Status::R,
        Status::S,
        Status::T,
        Status::W,
        Status::X,
        Status::Z,
        Status::Unknown,
    ];
    for s in all.iter() {
        assert_eq!(Status::from_str(s.to_str()), *s);
    }
}
