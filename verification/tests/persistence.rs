use pomo::codec::encode;
use pomo::codec::parse;
use pomo::codec::restore;
use pomo::phase::Status;
use pomo::session::Pomo;

#[test]
fn round_trip_identity() {
    let sessions = [
        Pomo::new(),
        Pomo { paused: true, status: Status::Working(0, 1500) },
        Pomo { paused: false, status: Status::Working(3, 0) },
        Pomo { paused: true, status: Status::Resting(2, 300) },
        Pomo { paused: false, status: Status::Resting(0, 7) },
        Pomo { paused: false, status: Status::Napping(900) },
        Pomo { paused: true, status: Status::Napping(0) },
    ];
    for p in sessions {
        let text = encode(&p);
        assert_eq!(parse(text.as_str()), Some(p));
        assert_eq!(restore(Some(text.as_str())), p);
    }
}

#[test]
fn encoding_is_compact_text() {
    let text = encode(&Pomo::new());
    assert_eq!(text, "0w01500".to_string());
    let text = encode(&Pomo { paused: true, status: Status::Napping(42) });
    assert_eq!(text, "1n042".to_string());
}

#[test]
fn malformed_text_is_rejected() {
    let malformed = [
        "",
        "0w0",
        "0w01500extra",
        "2w01500",
        "0x01500",
        "0wx1500",
        "0w0150a",
        "0w00100",
        "0w41500",
        "0w01501",
        "0b0301",
        "0n1900",
        "0n0901",
        "{\"paused\":false}",
        "0w0-5",
    ];
    for text in malformed {
        assert_eq!(parse(text), None, "{text} should be rejected");
    }
}

#[test]
fn restore_falls_back_to_fresh_session() {
    assert_eq!(restore(None), Pomo::new());
    assert_eq!(restore(Some("garbage")), Pomo::new());
    assert_eq!(restore(Some("")), Pomo::new());
}
