use sheepit_manager::command::Command;

#[test]
fn wire_encodings_are_the_three_literal_lines() {
    // Each command is delivered as exactly one of the literal byte
    // sequences `pause\n`, `stop\n`, `quit\n`.
    assert_eq!(Command::Pause.wire_bytes(), b"pause\n".to_vec());
    assert_eq!(Command::Stop.wire_bytes(), b"stop\n".to_vec());
    assert_eq!(Command::StopNow.wire_bytes(), b"quit\n".to_vec());
}

#[test]
fn wire_encodings_are_pairwise_distinct() {
    let pause = Command::Pause.wire_bytes();
    let stop = Command::Stop.wire_bytes();
    let quit = Command::StopNow.wire_bytes();
    assert_ne!(pause, stop);
    assert_ne!(pause, quit);
    assert_ne!(stop, quit);
}

#[test]
fn labels_are_the_command_words() {
    assert_eq!(Command::Pause.label(), "pause");
    assert_eq!(Command::Stop.label(), "stop");
    assert_eq!(Command::StopNow.label(), "quit");
}

#[test]
fn wire_encoding_is_label_plus_newline() {
    for c in [Command::Pause, Command::Stop, Command::StopNow] {
        let mut expected = c.label().as_bytes().to_vec();
        expected.push(b'\n');
        assert_eq!(c.wire_bytes(), expected);
    }
}
