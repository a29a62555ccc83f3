use scribl::snapshot_undo;
use scribl::undo::UndoStack;

#[test]
fn undo_then_redo() {
    let mut stack: UndoStack<u32> = UndoStack::new();
    assert!(!stack.can_undo());
    assert!(!stack.can_redo());
    assert_eq!(stack.undo(), None);
    stack.push(0, 1, "first".to_string());
    stack.push(1, 2, "second".to_string());
    assert!(stack.can_undo());
    assert_eq!(stack.undo_description(), Some("second"));
    assert_eq!(stack.undo(), Some(1));
    assert_eq!(stack.redo_description(), Some("second"));
    assert_eq!(stack.undo_description(), Some("first"));
    assert_eq!(stack.undo(), Some(0));
    assert_eq!(stack.undo(), None);
    assert!(!stack.can_undo());
    assert_eq!(stack.redo(), Some(1));
    assert_eq!(stack.redo(), Some(2));
    assert_eq!(stack.redo(), None);
}

#[test]
fn push_forgets_undone_actions() {
    let mut stack: UndoStack<u32> = UndoStack::new();
    stack.push(0, 1, "a".to_string());
    stack.push(1, 2, "b".to_string());
    assert_eq!(stack.undo(), Some(1));
    stack.push(1, 3, "c".to_string());
    assert!(!stack.can_redo());
    assert_eq!(stack.undo(), Some(1));
    assert_eq!(stack.undo(), Some(0));
    assert_eq!(stack.undo(), None);
}

#[test]
fn transient_actions_are_replaced() {
    let mut stack: UndoStack<u32> = UndoStack::new();
    stack.push(0, 1, "draw".to_string());
    stack.push_transient(1, 2, "stroke".to_string());
    stack.push_transient(2, 3, "stroke".to_string());
    assert_eq!(stack.undo_description(), Some("stroke"));
    stack.push(1, 3, "drawing".to_string());
    assert_eq!(stack.undo(), Some(1));
    assert_eq!(stack.undo_description(), Some("draw"));
    assert_eq!(stack.undo(), Some(0));
    assert_eq!(stack.undo(), None);
}

#[test]
fn history_is_bounded() {
    let mut stack: UndoStack<usize> = UndoStack::new();
    for i in 0..200 {
        stack.push(i, i + 1, format!("{}", i));
    }
    let mut n = 0;
    while stack.undo().is_some() {
        n += 1;
    }
    assert_eq!(n, scribl::undo::MAX_UNDO_STACK);
    assert_eq!(stack.redo_description(), Some("72"));
}

#[test]
fn snapshot_undo_redo() {
    let mut stack = snapshot_undo::UndoStack::new(10u32);
    assert_eq!(stack.undo(), None);
    stack.push(&11);
    stack.push(&12);
    assert_eq!(stack.undo(), Some(11));
    assert_eq!(stack.undo(), Some(10));
    assert_eq!(stack.undo(), None);
    assert_eq!(stack.redo(), Some(11));
    stack.push(&20);
    assert_eq!(stack.redo(), None);
    assert_eq!(stack.undo(), Some(11));
}

#[test]
fn snapshot_history_is_bounded() {
    let mut stack = snapshot_undo::UndoStack::new(0usize);
    for i in 1..300 {
        stack.push(&i);
    }
    let mut n = 0;
    while stack.undo().is_some() {
        n += 1;
    }
    assert_eq!(n, snapshot_undo::MAX_UNDO_STACK - 1);
}

#[test]
fn history_keeps_at_most_max_actions() {
    let mut stack: UndoStack<u32> = UndoStack::new();
    for i in 0..130u32 {
        stack.push(i, i + 1, format!("action {}", i));
    }
    let mut undos = 0;
    while stack.undo().is_some() {
        undos += 1;
    }
    assert_eq!(undos, 128);
    let mut small: UndoStack<u32> = UndoStack::new();
    for i in 0..5u32 {
        small.push(i, i + 1, "x".to_string());
    }
    let mut undos = 0;
    while small.undo().is_some() {
        undos += 1;
    }
    assert_eq!(undos, 5);
}
