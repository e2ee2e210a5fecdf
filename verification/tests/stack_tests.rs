use soroban_debug::stack::{CallStackTracker, Frame};

fn frame(name: &str) -> Frame {
    Frame::new(name.to_string(), String::new())
}

#[test]
fn depth_is_pushes_minus_pops() {
    let mut stack = CallStackTracker::new();
    assert_eq!(stack.depth(), 0);
    stack.push(frame("a"));
    stack.push(frame("b"));
    stack.push(frame("c"));
    assert_eq!(stack.depth(), 3);
    assert_eq!(stack.pop().unwrap().function, "c");
    assert_eq!(stack.depth(), 2);
    stack.push(frame("d"));
    assert_eq!(stack.depth(), 3);
    assert_eq!(stack.pop().unwrap().function, "d");
    assert_eq!(stack.pop().unwrap().function, "b");
    assert_eq!(stack.pop().unwrap().function, "a");
    assert_eq!(stack.depth(), 0);
    assert!(stack.pop().is_none());
    assert_eq!(stack.depth(), 0);
}

#[test]
fn top_is_the_innermost_frame() {
    let mut stack = CallStackTracker::new();
    assert!(stack.top().is_none());
    stack.push(frame("outer"));
    stack.push(frame("inner"));
    assert_eq!(stack.top().unwrap().function, "inner");
    stack.pop();
    assert_eq!(stack.top().unwrap().function, "outer");
}

#[test]
fn snapshot_copies_the_frames_in_order() {
    let mut stack = CallStackTracker::new();
    stack.push(Frame::new("main".to_string(), "()".to_string()));
    stack.push(Frame::new("transfer".to_string(), "(7)".to_string()));
    let copy = stack.snapshot();
    assert_eq!(copy.len(), 2);
    assert_eq!(copy[0].function, "main");
    assert_eq!(copy[0].args, "()");
    assert_eq!(copy[1].function, "transfer");
    assert_eq!(copy[1].args, "(7)");
    // The stack itself is untouched.
    assert_eq!(stack.depth(), 2);
}

#[test]
fn clear_empties_the_stack() {
    let mut stack = CallStackTracker::new();
    stack.push(frame("a"));
    stack.push(frame("b"));
    stack.clear();
    assert_eq!(stack.depth(), 0);
}
