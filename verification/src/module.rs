//! The contract every reconnaissance module satisfies.

use vstd::prelude::*;

verus! {

/// What a module hands back when its work fails: a description of what went
/// wrong (the network was unreachable, the target was malformed, ...).
#[derive(Debug, Clone, PartialEq, Eq)]
pub struct ExecutionError {
    pub message: String,
}

impl View for ExecutionError {
    type V = Seq<char>;

    /// An execution error is its message.
    open spec fn view(&self) -> Seq<char> {
        self.message@
    }
}

impl ExecutionError {
    /// An error that carries `message`.
    pub fn new(message: String) -> (error: ExecutionError)
        ensures
            error@ == message@,
    {
        ExecutionError { message }
    }

    /// An error that carries a copy of `message`.
    pub fn from_message(message: &str) -> (error: ExecutionError)
        ensures
            error@ == message@,
    {
        ExecutionError { message: message.to_owned() }
    }

    /// The description this error carries.
    pub fn message(&self) -> (message: &str)
        ensures
            message@ == self@,
    {
        self.message.as_str()
    }
}

/// The mathematical value of what `execute` returned: the success, or the
/// message of the error.
pub open spec fn result_view(result: Result<(), ExecutionError>) -> Result<(), Seq<char>> {
    match result {
        Ok(_) => Ok(()),
        Err(error) => Err(error@),
    }
}

/// The capability set of one reconnaissance unit: two identity operations and
/// one action.
///
/// What a module does is its own business and mostly cannot be known in
/// advance, so the contract asks for little: a name that is not empty, and no
/// call of `execute` without a target. A module that is itself verified can
/// say more. Through `stated_name`, `stated_description` and `foreseen` it
/// states what its operations return, and whoever holds the module, behind a
/// type parameter or behind `dyn`, can rely on that. A module that states
/// nothing promises nothing beyond the clauses below, which the framework
/// relies on without proof.
pub trait BahamutModule {
    /// The text that `name` returns, where the module states it.
    open spec fn stated_name(&self) -> Option<Seq<char>> {
        None
    }

    /// The text that `description` returns, where the module states it.
    open spec fn stated_description(&self) -> Option<Seq<char>> {
        None
    }

    /// What `execute` returns on `target`, where the module commits to it in
    /// advance: the success, or the message of the error. `execute` reaches
    /// into the world, so as a rule its result is open until it has run.
    open spec fn foreseen(&self, target: Seq<char>) -> Option<Result<(), Seq<char>>> {
        None
    }

    /// The human-readable name of the module, used in logs and in the user
    /// interface. It is never empty.
    fn name(&self) -> (name: &str)
        ensures
            name@.len() > 0,
            self.stated_name() matches Some(stated) ==> name@ == stated,
    ;

    /// A human-readable summary of what the module does.
    fn description(&self) -> (description: &str)
        ensures
            self.stated_description() matches Some(stated) ==> description@ == stated,
    ;

    /// Performs the module's work against `target`.
    ///
    /// The target is never empty, but it need not be a well-formed domain or
    /// URL: validating it is the module's own business, and a module reports
    /// a malformed target as an error. The result is whatever the module
    /// committed to, if it committed to anything.
    fn execute(&self, target: &str) -> (result: Result<(), ExecutionError>)
        requires
            target@.len() > 0,
        ensures
            self.foreseen(target@) matches Some(foreseen) ==> result_view(result) == foreseen,
    ;
}

/// A boxed module is a module: it hands every call on to what it holds.
///
/// A registry holds modules of one type. Where the set of modules is open,
/// that type is `Box<dyn BahamutModule>`.
impl<T: BahamutModule + ?Sized> BahamutModule for Box<T> {
    open spec fn stated_name(&self) -> Option<Seq<char>> {
        (**self).stated_name()
    }

    open spec fn stated_description(&self) -> Option<Seq<char>> {
        (**self).stated_description()
    }

    open spec fn foreseen(&self, target: Seq<char>) -> Option<Result<(), Seq<char>>> {
        (**self).foreseen(target)
    }

    fn name(&self) -> (name: &str) {
        (**self).name()
    }

    fn description(&self) -> (description: &str) {
        (**self).description()
    }

    fn execute(&self, target: &str) -> (result: Result<(), ExecutionError>) {
        (**self).execute(target)
    }
}

} // verus!
