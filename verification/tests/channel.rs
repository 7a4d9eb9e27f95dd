use horizon::ResultChannel;

// Written twice before one poll, the channel yields only the second value;
// the flag clears after the poll and stays clear until the next write.
#[test]
fn last_write_wins_and_flag_clears() {
    let mut ch: ResultChannel<u32> = ResultChannel::new();
    assert!(!ch.has_new());
    ch.send(1);
    assert!(ch.has_new());
    ch.send(2);
    assert!(ch.has_new());
    assert_eq!(ch.take(), Some(2));
    assert!(!ch.has_new());
    assert_eq!(ch.take(), None);
    ch.send(3);
    assert!(ch.has_new());
    assert_eq!(ch.take(), Some(3));
}

#[test]
fn empty_channel_yields_nothing() {
    let mut ch: ResultChannel<String> = ResultChannel::new();
    assert_eq!(ch.take(), None);
    assert!(!ch.has_new());
}
