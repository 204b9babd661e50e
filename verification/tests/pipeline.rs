//! Tests of the processor abstraction: piping runs the stages in order,
//! short-circuits on the first failure, and composes associatively.

use kinect_core::processor::{pipe, ProcessError, ProcessorTrait};
use std::cell::Cell;

/// Always succeeds with input + 1.
struct AddOne;

impl ProcessorTrait<u32, u32> for AddOne {
    fn spec_process(&self, input: u32) -> Result<u32, ProcessError> {
        Ok(input.wrapping_add(1))
    }

    fn process(&self, input: u32) -> Result<u32, ProcessError> {
        Ok(input.wrapping_add(1))
    }
}

/// Always succeeds with input * 2.
struct Double;

impl ProcessorTrait<u32, u32> for Double {
    fn spec_process(&self, input: u32) -> Result<u32, ProcessError> {
        Ok(input.wrapping_mul(2))
    }

    fn process(&self, input: u32) -> Result<u32, ProcessError> {
        Ok(input.wrapping_mul(2))
    }
}

/// Ignores its input and succeeds with a fixed value, counting its calls.
struct Fixed {
    value: u32,
    calls: Cell<u32>,
}

impl Fixed {
    fn new(value: u32) -> Self {
        Fixed {
            value,
            calls: Cell::new(0),
        }
    }
}

impl ProcessorTrait<u32, u32> for Fixed {
    fn spec_process(&self, _input: u32) -> Result<u32, ProcessError> {
        Ok(self.value)
    }

    fn process(&self, _input: u32) -> Result<u32, ProcessError> {
        self.calls.set(self.calls.get() + 1);
        Ok(self.value)
    }
}

/// Fails on odd inputs, succeeds with the input otherwise.
struct RejectOdd;

impl ProcessorTrait<u32, u32> for RejectOdd {
    fn spec_process(&self, input: u32) -> Result<u32, ProcessError> {
        if input % 2 == 1 {
            Err(ProcessError {
                message: format!("odd input {input}"),
            })
        } else {
            Ok(input)
        }
    }

    fn process(&self, input: u32) -> Result<u32, ProcessError> {
        if input % 2 == 1 {
            Err(ProcessError {
                message: format!("odd input {input}"),
            })
        } else {
            Ok(input)
        }
    }
}

#[test]
fn pipe_runs_stages_in_order() {
    let add = AddOne;
    let double = Double;
    assert_eq!(pipe(&add, &double).process(10), Ok(22));
    assert_eq!(pipe(&double, &add).process(10), Ok(21));
}

#[test]
fn pipe_of_constant_stages_returns_downstream_value() {
    let first = Fixed::new(5);
    let second = Fixed::new(99);
    let piped = pipe(&first, &second);
    for input in [0, 1, 7, u32::MAX] {
        assert_eq!(piped.process(input), Ok(99));
    }
}

#[test]
fn pipe_short_circuits_on_upstream_failure() {
    let failing = RejectOdd;
    let downstream = Fixed::new(42);
    let piped = pipe(&failing, &downstream);

    let result = piped.process(3);
    assert_eq!(
        result,
        Err(ProcessError {
            message: String::from("odd input 3")
        })
    );
    // The downstream stage was never invoked.
    assert_eq!(downstream.calls.get(), 0);

    // On an accepted input the downstream stage runs exactly once.
    assert_eq!(piped.process(4), Ok(42));
    assert_eq!(downstream.calls.get(), 1);
}

#[test]
fn pipe_shares_borrowed_stages() {
    let add = AddOne;
    let double = Double;
    let first = pipe(&add, &double);
    let second = pipe(&double, &add);
    // Both pipelines borrow the same two stages at once.
    assert_eq!(first.process(3), Ok(8));
    assert_eq!(second.process(3), Ok(7));
}

#[test]
fn pipe_is_associative_across_groupings() {
    let add = AddOne;
    let double = Double;
    let reject = RejectOdd;

    for input in [0, 1, 2, 3, 10, 11, 1000, u32::MAX - 1, u32::MAX] {
        let left = pipe(&pipe(&add, &double), &reject).process(input);
        let right = pipe(&add, &pipe(&double, &reject)).process(input);
        assert_eq!(left, right);

        let left = pipe(&pipe(&reject, &add), &double).process(input);
        let right = pipe(&reject, &pipe(&add, &double)).process(input);
        assert_eq!(left, right);
    }
}
