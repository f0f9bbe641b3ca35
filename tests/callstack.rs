use chip8::callstack::{CallStack, CallStackErr};


#[test]
fn push_pop_test() {
    let mut call_stack = CallStack::new(12);
    call_stack.push(1).unwrap();
    call_stack.push(2).unwrap();

    let val = call_stack.pop().unwrap();
    assert_eq!(2, val);

    let val = call_stack.pop().unwrap();
    assert_eq!(1, val);

    let result = call_stack.pop();
    match result {
        Err(CallStackErr::StackEmpty) => assert!(true),
        _ => assert!(false),
    }

    for _i in 0..12 {
        call_stack.push(1).unwrap();
    }

    let result = call_stack.push(1);
    match result {
        Err(CallStackErr::StackOverflow) => assert!(true),
        _ => assert!(false),
    }
}
