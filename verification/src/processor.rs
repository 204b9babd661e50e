//! The processing-pipeline abstraction: a processor turns an input value
//! into an output value or fails; two processors can be piped into one.

use core::marker::PhantomData;
use vstd::prelude::*;

verus! {

/// Opaque failure reported by a processing stage. The pipeline neither
/// inspects nor wraps it: it only propagates the first stage failure.
#[derive(Debug, PartialEq, Eq)]
pub struct ProcessError {
    /// A stage-chosen description of what went wrong.
    pub message: String,
}

/// A processing stage: the capability of turning an input value of type
/// `I` into an output value of type `O`, or failing with an opaque error.
///
/// An implementor describes its behaviour once, as the mathematical
/// function [`ProcessorTrait::spec_process`], and proves that its
/// executable [`ProcessorTrait::process`] returns exactly that.
pub trait ProcessorTrait<I, O> {
    /// What this stage returns for each input, as a mathematical function
    /// of the stage's state and the input.
    spec fn spec_process(&self, input: I) -> Result<O, ProcessError>;

    /// Runs the stage on one input, producing its output or its error.
    fn process(&self, input: I) -> (r: Result<O, ProcessError>)
        ensures
            r == self.spec_process(input),
    ;
}

/// Two processing stages sequenced into one: the upstream stage `P1` runs
/// first, and on success its output feeds the downstream stage `P2`. The
/// combinator borrows the two stages and owns nothing else; the phantom
/// fields only name the endpoint and intermediate types.
pub struct PipedProcessor<'a, 'b, I, T, O, P1, P2> where
    P1: ProcessorTrait<I, T>,
    P2: ProcessorTrait<T, O>,
 {
    /// Marker for the pipeline's input type.
    pub _input: PhantomData<I>,
    /// Marker for the intermediate type handed from `P1` to `P2`.
    pub _tmp: PhantomData<T>,
    /// Marker for the pipeline's output type.
    pub _output: PhantomData<O>,
    /// The upstream stage, run first.
    pub processor1: &'a P1,
    /// The downstream stage, run on the upstream stage's output.
    pub processor2: &'b P2,
}

impl<'a, 'b, I, T, O, P1, P2> ProcessorTrait<I, O> for PipedProcessor<'a, 'b, I, T, O, P1, P2> where
    P1: ProcessorTrait<I, T>,
    P2: ProcessorTrait<T, O>,
 {
    /// The sequencing rule: the upstream stage's failure is the pipeline's
    /// failure, and its output otherwise becomes the downstream stage's
    /// input.
    open spec fn spec_process(&self, input: I) -> Result<O, ProcessError> {
        match self.processor1.spec_process(input) {
            Ok(tmp) => self.processor2.spec_process(tmp),
            Err(e) => Err(e),
        }
    }

    fn process(&self, input: I) -> (r: Result<O, ProcessError>) {
        match self.processor1.process(input) {
            Ok(tmp) => self.processor2.process(tmp),
            Err(e) => Err(e),
        }
    }
}

/// Chains two borrowed stages into one stage from `I` to `O`: the
/// downstream stage `processor2` consumes the upstream stage's output.
/// Both stages are only borrowed, so several pipelines may share them.
pub fn pipe<'a, 'b, I, T, O, P1, P2>(processor1: &'a P1, processor2: &'b P2) -> (r:
    PipedProcessor<'a, 'b, I, T, O, P1, P2>) where
    P1: ProcessorTrait<I, T>,
    P2: ProcessorTrait<T, O>,

    ensures
        r.processor1 == processor1,
        r.processor2 == processor2,
{
    PipedProcessor {
        _input: PhantomData,
        _tmp: PhantomData,
        _output: PhantomData,
        processor1,
        processor2,
    }
}

/// Sequencing law: a piped stage behaves as its upstream stage followed,
/// only on success, by its downstream stage. If the upstream stage fails,
/// the pipeline fails with exactly that error, and the downstream stage's
/// behaviour does not enter the result at all.
pub proof fn lemma_pipe_sequencing<'a, 'b, I, T, O, P1, P2>(
    p: PipedProcessor<'a, 'b, I, T, O, P1, P2>,
    input: I,
) where P1: ProcessorTrait<I, T>, P2: ProcessorTrait<T, O>
    ensures
        p.spec_process(input) == (match p.processor1.spec_process(input) {
            Ok(tmp) => p.processor2.spec_process(tmp),
            Err(e) => Result::<O, ProcessError>::Err(e),
        }),
        p.processor1.spec_process(input) matches Err(e) ==> p.spec_process(input) == Result::<
            O,
            ProcessError,
        >::Err(e),
{
}

/// Associativity law: three stages chained in either grouping — the first
/// two piped together and then the third, or the first and then the last
/// two piped together — give one and the same result on every input.
pub proof fn lemma_pipe_associative<'a, 'b, 'c, 'd, 'e, 'f, I, T1, T2, O, PA, PB, PC>(
    left: PipedProcessor<'c, 'd, I, T2, O, PipedProcessor<'a, 'b, I, T1, T2, PA, PB>, PC>,
    right: PipedProcessor<'e, 'f, I, T1, O, PA, PipedProcessor<'a, 'b, T1, T2, O, PB, PC>>,
    input: I,
) where PA: ProcessorTrait<I, T1>, PB: ProcessorTrait<T1, T2>, PC: ProcessorTrait<T2, O>
    requires
        left.processor1.processor1 == right.processor1,
        left.processor1.processor2 == right.processor2.processor1,
        left.processor2 == right.processor2.processor2,
    ensures
        left.spec_process(input) == right.spec_process(input),
{
}

} // verus!
