//! The log of a client's operations, as far as this module looks at it.

use crate::module::KIND;
use vstd::prelude::*;

verus! {

/// What a client's log has of an operation.
#[derive(Debug, PartialEq, Eq, Hash)]
pub struct OperationLogEntry {
    /// Kind of the module that the operation belongs to
    pub operation_module_kind: String,
    /// What the module has noted of the operation, in JSON
    pub meta: String,
    /// How the operation ended, in JSON, once it is known
    pub outcome: Option<String>,
}

impl Clone for OperationLogEntry {
    fn clone(&self) -> (copy: Self)
        ensures
            copy == *self,
    {
        OperationLogEntry {
            operation_module_kind: self.operation_module_kind.clone(),
            meta: self.meta.clone(),
            outcome: match &self.outcome {
                Some(outcome) => Some(outcome.clone()),
                None => None,
            },
        }
    }
}

/// Why an operation is no operation of this module.
#[derive(Clone, Copy, Debug, PartialEq, Eq, Hash, Structural)]
pub enum OperationError {
    NotFound,
    NotLightning,
}

impl OperationError {
    /// Text of an error.
    pub open spec fn text(self) -> Seq<char> {
        match self {
            OperationError::NotFound => "Operation not found"@,
            OperationError::NotLightning => "Operation is not a lightning operation"@,
        }
    }

    /// Tells the reason in words.
    pub fn to_string(&self) -> (text: String)
        ensures
            text@ == self.text(),
    {
        match self {
            OperationError::NotFound => "Operation not found".to_owned(),
            OperationError::NotLightning => "Operation is not a lightning operation".to_owned(),
        }
    }
}

/// Takes what the log has under an operation's identifier for an operation of
/// this module: gives back the entry if there is one and it is of this module's
/// kind.
pub fn ln_operation(operation: Option<OperationLogEntry>) -> (checked: Result<
    OperationLogEntry,
    OperationError,
>)
    ensures
        checked == (match operation {
            None => Err(OperationError::NotFound),
            Some(entry) => if entry.operation_module_kind@ == KIND@ {
                Ok(entry)
            } else {
                Err(OperationError::NotLightning)
            },
        }),
        checked matches Ok(entry) ==> operation == Some(entry) && entry.operation_module_kind@
            == "ln"@,
        checked == Err::<OperationLogEntry, OperationError>(OperationError::NotFound)
            <==> operation is None,
        operation matches Some(entry) ==> (checked is Ok <==> entry.operation_module_kind@
            == "ln"@),
{
    let operation = match operation {
        Some(operation) => operation,
        None => return Err(OperationError::NotFound),
    };
    if operation.operation_module_kind != KIND.to_owned() {
        return Err(OperationError::NotLightning);
    }
    Ok(operation)
}

/// The reason why an operation is none of this module's is told in words.
pub proof fn law_operation_error_texts()
    ensures
        OperationError::NotFound.text() == "Operation not found"@,
        OperationError::NotLightning.text() == "Operation is not a lightning operation"@,
{
}

} // verus!
