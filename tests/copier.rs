use rot13::cipher::{rot13_slice, Mode};
use rot13::stream::{Action, Copier, Event, Phase, BUFFER_SIZE};

/// Runs a copier over `input`, reading at most the requested amount each
/// time, and returns everything it asked to write.
fn run(mode: Mode, input: &[u8]) -> Vec<u8> {
    let mut copier = Copier::new(mode);
    let mut out = Vec::new();
    let mut pos = 0;
    let mut action = Action::Read(BUFFER_SIZE);
    loop {
        action = match action {
            Action::Read(n) => {
                let end = std::cmp::min(pos + n, input.len());
                let chunk = input[pos..end].to_vec();
                pos = end;
                copier.step(Event::Read(chunk))
            }
            Action::Write(bytes) => {
                assert!(bytes.len() <= BUFFER_SIZE);
                out.extend_from_slice(&bytes);
                copier.step(Event::Written)
            }
            Action::Finish => break,
            Action::Abort => panic!("copy aborted"),
        };
    }
    assert_eq!(copier.phase(), Phase::Finished);
    out
}

fn sample(len: usize) -> Vec<u8> {
    (0..len).map(|i| (i * 31 % 256) as u8).collect()
}

#[test]
fn stream_round_trip_at_buffer_boundaries() {
    for len in [0usize, 1, 1023, 1024, 1025, 10001, 20480] {
        let s = sample(len);
        let enc = run(Mode::Encrypt, &s);
        assert_eq!(enc, rot13_slice(Mode::Encrypt, &s));
        assert_eq!(run(Mode::Decrypt, &enc), s);
    }
}

#[test]
fn stream_encrypts_greeting() {
    assert_eq!(run(Mode::Encrypt, b"Hello, World!"), b"Uryyb, Jbeyq!".to_vec());
}

#[test]
fn empty_source_gives_empty_output() {
    let mut copier = Copier::new(Mode::Encrypt);
    assert_eq!(copier.step(Event::Read(Vec::new())), Action::Finish);
    assert_eq!(copier.phase(), Phase::Finished);
    assert_eq!(run(Mode::Decrypt, b""), Vec::<u8>::new());
}

#[test]
fn new_copier_waits_for_a_read() {
    let copier = Copier::new(Mode::Decrypt);
    assert_eq!(copier.phase(), Phase::Reading);
    assert_eq!(copier.mode(), Mode::Decrypt);
}

#[test]
fn chunk_is_transformed_then_next_read_is_asked() {
    let mut copier = Copier::new(Mode::Encrypt);
    assert_eq!(copier.step(Event::Read(b"ab1".to_vec())), Action::Write(b"no1".to_vec()));
    assert_eq!(copier.phase(), Phase::Writing);
    assert_eq!(copier.step(Event::Written), Action::Read(BUFFER_SIZE));
    assert_eq!(copier.phase(), Phase::Reading);
}

#[test]
fn read_failure_aborts() {
    let mut copier = Copier::new(Mode::Encrypt);
    assert_eq!(copier.step(Event::Failed), Action::Abort);
    assert_eq!(copier.phase(), Phase::Failed);
    assert_eq!(copier.step(Event::Read(b"a".to_vec())), Action::Abort);
}

#[test]
fn write_failure_aborts_without_retry() {
    let mut copier = Copier::new(Mode::Encrypt);
    copier.step(Event::Read(b"a".to_vec()));
    assert_eq!(copier.step(Event::Failed), Action::Abort);
    assert_eq!(copier.step(Event::Written), Action::Abort);
    assert_eq!(copier.phase(), Phase::Failed);
}

#[test]
fn event_out_of_turn_aborts() {
    let mut copier = Copier::new(Mode::Encrypt);
    assert_eq!(copier.step(Event::Written), Action::Abort);
    let mut other = Copier::new(Mode::Encrypt);
    other.step(Event::Read(b"a".to_vec()));
    assert_eq!(other.step(Event::Read(b"b".to_vec())), Action::Abort);
}

#[test]
fn finished_copier_stays_finished() {
    let mut copier = Copier::new(Mode::Encrypt);
    copier.step(Event::Read(Vec::new()));
    assert_eq!(copier.step(Event::Read(b"a".to_vec())), Action::Finish);
    assert_eq!(copier.step(Event::Failed), Action::Finish);
    assert_eq!(copier.phase(), Phase::Finished);
}
