use d21_voting::calculator::{Calculator, Operation, OperationType};

#[test]
fn signs() {
    assert_eq!(OperationType::Addition.get_sign(), "+");
    assert_eq!(OperationType::Subtraction.get_sign(), "-");
    assert_eq!(OperationType::Multiplication.get_sign(), "*");
}

#[test]
fn perform_detects_overflow() {
    assert_eq!(OperationType::Addition.perform(5, 3), Some(8));
    assert_eq!(OperationType::Subtraction.perform(10, 2), Some(8));
    assert_eq!(OperationType::Multiplication.perform(-4, 6), Some(-24));
    assert_eq!(OperationType::Addition.perform(i64::MAX, 1), None);
    assert_eq!(OperationType::Subtraction.perform(i64::MIN, 1), None);
    assert_eq!(OperationType::Multiplication.perform(i64::MIN, -1), None);
    assert_eq!(OperationType::Multiplication.perform(i64::MAX, 1), Some(i64::MAX));
}

#[test]
fn operation_new_keeps_its_parts() {
    let op = Operation::new(1, -2, OperationType::Subtraction);
    assert_eq!(op.first_num, 1);
    assert_eq!(op.second_num, -2);
    assert_eq!(op.operation_type, OperationType::Subtraction);
}

#[test]
fn successful_operations_are_recorded() {
    let mut calc = Calculator::new();
    assert!(calc.history.is_empty());
    assert_eq!(calc.addition(5, 3), Some(8));
    assert_eq!(calc.subtraction(10, 2), Some(8));
    assert_eq!(calc.multiplication(i64::MAX, 2), None);
    assert_eq!(calc.addition(i64::MAX, 1), None);
    assert_eq!(calc.subtraction(i64::MIN, 1), None);
    assert_eq!(calc.multiplication(-3, 7), Some(-21));
    assert_eq!(
        calc.history,
        vec![
            Operation::new(5, 3, OperationType::Addition),
            Operation::new(10, 2, OperationType::Subtraction),
            Operation::new(-3, 7, OperationType::Multiplication),
        ]
    );
}

#[test]
fn history_is_shown_line_by_line() {
    let mut calc = Calculator::new();
    assert_eq!(calc.show_history(), "");
    calc.addition(5, 3);
    calc.subtraction(10, 2);
    assert_eq!(calc.show_history(), "0: 5 + 3 = 8\n1: 10 - 2 = 8\n");
    calc.multiplication(-12, 100);
    calc.addition(i64::MIN, 0);
    calc.subtraction(0, i64::MAX);
    assert_eq!(
        calc.show_history(),
        "0: 5 + 3 = 8\n1: 10 - 2 = 8\n2: -12 * 100 = -1200\n\
         3: -9223372036854775808 + 0 = -9223372036854775808\n\
         4: 0 - 9223372036854775807 = -9223372036854775807\n"
    );
}

#[test]
fn history_skips_operations_that_overflow() {
    let mut calc = Calculator::new();
    calc.history.push(Operation::new(i64::MAX, 1, OperationType::Addition));
    calc.history.push(Operation::new(2, 2, OperationType::Multiplication));
    assert_eq!(calc.show_history(), "1: 2 * 2 = 4\n");
}

#[test]
fn history_numbers_long_lists() {
    let mut calc = Calculator::new();
    for i in 0..12 {
        calc.addition(i, i);
    }
    let text = calc.show_history();
    assert!(text.ends_with("10: 10 + 10 = 20\n11: 11 + 11 = 22\n"));
    assert_eq!(text.lines().count(), 12);
}

#[test]
fn repeat_runs_an_operation_again() {
    let mut calc = Calculator::new();
    assert_eq!(calc.repeat(0), None);
    calc.addition(2, 3);
    calc.multiplication(4, 5);
    assert_eq!(calc.repeat(1), Some(20));
    assert_eq!(calc.repeat(0), Some(5));
    assert_eq!(calc.repeat(4), None);
    assert_eq!(calc.history.len(), 4);
    assert_eq!(calc.history[2], Operation::new(4, 5, OperationType::Multiplication));
    assert_eq!(calc.history[3], Operation::new(2, 3, OperationType::Addition));
    calc.history.push(Operation::new(i64::MAX, i64::MAX, OperationType::Multiplication));
    assert_eq!(calc.repeat(4), None);
    assert_eq!(calc.history.len(), 5);
}

#[test]
fn clear_history_forgets_everything() {
    let mut calc = Calculator::new();
    calc.addition(1, 1);
    calc.clear_history();
    assert!(calc.history.is_empty());
    assert_eq!(calc.show_history(), "");
}
