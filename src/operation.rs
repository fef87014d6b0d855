use vstd::prelude::*;
use vstd::string::StringExecFns;

verus! {

/// The operations that the command line can select. None is registered yet:
/// `Unregistered` only holds the place of the variants to come, and its
/// payload cannot be built, so neither can a `Cli`.
#[derive(Debug)]
pub enum Cli {
    Unregistered(Vacant),
}

/// A type without values: its invariant holds of none.
#[derive(Debug)]
pub struct Vacant {
    none: (),
}

impl Vacant {
    #[verifier::type_invariant]
    pub(crate) open spec fn exists_value(&self) -> bool {
        false
    }
}

/// Why the command line selected no operation.
#[derive(PartialEq, Eq, Debug, Clone)]
pub struct SelectionError {
    pub usage: String,
}

/// An operation's failure, with the operation that was attempted.
#[derive(PartialEq, Eq, Debug, Clone)]
pub struct OperationError {
    pub operation: String,
    pub cause: String,
}

/// The text that reports a failure of `operation` with `cause`.
pub open spec fn failure_text(operation: Seq<char>, cause: Seq<char>) -> Seq<char> {
    "failed to run "@ + operation + ": "@ + cause
}

/// A failure report holds the operation's name and, at its end, the cause
/// whole.
pub proof fn lemma_failure_text_holds_both(operation: Seq<char>, cause: Seq<char>)
    ensures
        ({
            let text = failure_text(operation, cause);
            let start: int = "failed to run "@.len() as int;
            &&& text.subrange(start, start + operation.len()) == operation
            &&& text.subrange(text.len() - cause.len(), text.len() as int) == cause
        }),
{
    reveal_strlit("failed to run ");
    reveal_strlit(": ");
    let text = failure_text(operation, cause);
    let start: int = "failed to run "@.len() as int;
    assert(text.subrange(start, start + operation.len()) =~= operation);
    assert(text.subrange(text.len() - cause.len(), text.len() as int) =~= cause);
}

impl Cli {
    /// The name of the selected operation, as failure reports give it.
    pub open spec fn name(&self) -> Seq<char> {
        match self {
            Cli::Unregistered(_) => "Unregistered"@,
        }
    }

    /// A human-readable name of the selected operation.
    pub fn describe(&self) -> (r: String)
        ensures
            r@ == self.name(),
    {
        match self {
            Cli::Unregistered(v) => {
                proof {
                    use_type_invariant(v);
                }
                String::from_str("Unregistered")
            },
        }
    }

    /// Runs the selected operation to its result. The value is consumed, so a
    /// given operation runs at most once.
    pub fn run(self) -> (r: Result<(), OperationError>)
        ensures
            r matches Err(e) ==> e.operation@ == self.name(),
    {
        match self {
            Cli::Unregistered(v) => {
                proof {
                    use_type_invariant(&v);
                }
                Ok(())
            },
        }
    }
}

impl OperationError {
    pub fn new(operation: String, cause: String) -> (r: OperationError)
        ensures
            r.operation == operation,
            r.cause == cause,
    {
        OperationError { operation, cause }
    }

    /// The report: names the operation and carries the cause whole.
    pub fn message(&self) -> (r: String)
        ensures
            r@ == failure_text(self.operation@, self.cause@),
    {
        let mut r = String::from_str("failed to run ");
        r.append(self.operation.as_str());
        r.append(": ");
        r.append(self.cause.as_str());
        r
    }
}

} // verus!
