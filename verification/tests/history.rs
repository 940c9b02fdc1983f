use kicks::history::{History, HistoryError, UNDO_LIMIT};

#[test]
fn undo_then_redo() {
    let mut h: History<u32> = History::new();
    let mut chain = 1;
    h.push_undo_state(chain);
    chain = 2;
    assert_eq!(h.undo(&mut chain), Ok(()));
    assert_eq!(chain, 1);
    assert_eq!(h.redo(&mut chain), Ok(()));
    assert_eq!(chain, 2);
    assert_eq!(h.redo(&mut chain), Err(HistoryError::NothingToRedo));
    assert_eq!(chain, 2);
}

#[test]
fn nothing_to_undo() {
    let mut h: History<String> = History::new();
    let mut chain = "x".to_string();
    assert_eq!(h.undo(&mut chain), Err(HistoryError::NothingToUndo));
    assert_eq!(chain, "x");
}

#[test]
fn new_edit_clears_redo() {
    let mut h: History<u32> = History::new();
    let mut chain = 1;
    h.push_undo_state(chain);
    chain = 2;
    h.undo(&mut chain).unwrap();
    assert_eq!(h.redo_len(), 1);
    h.push_undo_state(chain);
    assert_eq!(h.redo_len(), 0);
}

#[test]
fn history_keeps_fifty_steps() {
    let mut h: History<usize> = History::new();
    for i in 0..60 {
        h.push_undo_state(i);
    }
    assert_eq!(h.undo_len(), UNDO_LIMIT);
    let mut chain = 99;
    for _ in 0..UNDO_LIMIT {
        h.undo(&mut chain).unwrap();
    }
    // the oldest ten states were dropped
    assert_eq!(chain, 10);
    assert_eq!(h.undo(&mut chain), Err(HistoryError::NothingToUndo));
    assert_eq!(h.redo_len(), UNDO_LIMIT);
}
