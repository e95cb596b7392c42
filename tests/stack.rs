use stack::Stack;

#[test]
fn test_pop_order() {
    let mut stack: Stack<u8> = Stack::new();
    stack.push(1);
    stack.push(4);

    assert!(stack.pop() == Some(4));
    assert!(stack.pop() == Some(1));
    assert!(stack.pop().is_none());
}

#[test]
fn pops_come_back_in_reverse_push_order() {
    let values: Vec<u32> = vec![7, 3, 9, 3, 0, 42];
    let mut stack: Stack<u32> = Stack::new();
    for v in values.iter() {
        stack.push(*v);
    }
    for v in values.iter().rev() {
        assert_eq!(stack.pop(), Some(*v));
    }
    assert_eq!(stack.pop(), None);
    assert_eq!(stack.pop(), None);
}

#[test]
fn no_pushes_then_pop_is_absent() {
    let mut stack: Stack<String> = Stack::new();
    assert_eq!(stack.pop(), None);
}

#[test]
fn is_empty_follows_net_pushes() {
    let mut stack: Stack<i64> = Stack::new();
    assert!(stack.is_empty());
    assert_eq!(stack.pop(), None);
    assert!(stack.is_empty());
    stack.push(-5);
    assert!(!stack.is_empty());
    stack.push(6);
    assert_eq!(stack.pop(), Some(6));
    assert!(!stack.is_empty());
    assert_eq!(stack.pop(), Some(-5));
    assert!(stack.is_empty());
    assert_eq!(stack.pop(), None);
    assert!(stack.is_empty());
    stack.push(1);
    assert!(!stack.is_empty());
}

#[test]
fn peek_matches_next_pop_and_keeps_size() {
    let mut stack: Stack<u8> = Stack::new();
    stack.push(2);
    stack.push(8);
    assert_eq!(stack.peek(), Some(&8));
    assert_eq!(stack.peek(), Some(&8));
    assert!(!stack.is_empty());
    assert_eq!(stack.pop(), Some(8));
    assert_eq!(stack.peek(), Some(&2));
    assert_eq!(stack.pop(), Some(2));
    assert!(stack.is_empty());
}

#[test]
fn new_stack_has_nothing_to_peek_or_pop() {
    let mut stack: Stack<u8> = Stack::new();
    assert!(stack.is_empty());
    assert_eq!(stack.peek(), None);
    assert_eq!(stack.pop(), None);
    assert!(stack.is_empty());
}

#[test]
fn default_stack_is_empty() {
    let mut stack: Stack<u8> = Stack::default();
    assert!(stack.is_empty());
    assert_eq!(stack.pop(), None);
}

#[test]
fn repeated_observation_gives_same_answer() {
    let mut stack: Stack<char> = Stack::new();
    assert_eq!(stack.is_empty(), stack.is_empty());
    assert_eq!(stack.peek(), stack.peek());
    stack.push('a');
    assert_eq!(stack.is_empty(), false);
    assert_eq!(stack.is_empty(), false);
    assert_eq!(stack.peek(), Some(&'a'));
    assert_eq!(stack.peek(), Some(&'a'));
}

#[test]
fn peek_sees_most_recent_push_not_first() {
    let mut stack: Stack<u8> = Stack::new();
    stack.push(1);
    stack.push(2);
    stack.push(3);
    assert_eq!(stack.peek(), Some(&3));
}

#[test]
fn holds_values_that_are_not_copy() {
    let mut stack: Stack<Vec<u8>> = Stack::new();
    stack.push(vec![1, 2]);
    stack.push(Vec::new());
    assert_eq!(stack.peek(), Some(&Vec::new()));
    assert_eq!(stack.pop(), Some(Vec::new()));
    assert_eq!(stack.pop(), Some(vec![1, 2]));
    assert_eq!(stack.pop(), None);
}
