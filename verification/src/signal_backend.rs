//! Backend-neutral signal errors and their mapping onto SOVD data errors.

use vstd::prelude::*;

verus! {

/// The abstract content of a [`SignalBackendError`].
pub enum SignalFault {
    NotFound(Seq<char>),
    Backend(Seq<char>),
}

/// Error reported by a signal backend.
#[derive(Debug, PartialEq, Eq)]
pub enum SignalBackendError {
    /// The backend does not know the signal; holds the signal id.
    NotFound(String),
    /// Any other backend failure; holds a human-readable message.
    Backend(String),
}

impl View for SignalBackendError {
    type V = SignalFault;

    open spec fn view(&self) -> SignalFault {
        match self {
            SignalBackendError::NotFound(id) => SignalFault::NotFound(id@),
            SignalBackendError::Backend(message) => SignalFault::Backend(message@),
        }
    }
}

/// The text that a [`SignalBackendError`] displays.
pub open spec fn fault_message(fault: SignalFault) -> Seq<char> {
    match fault {
        SignalFault::NotFound(signal_id) => "signal not found: "@ + signal_id,
        SignalFault::Backend(message) => "signal backend error: "@ + message,
    }
}

impl SignalBackendError {
    /// The human-readable description of the error.
    pub fn message(&self) -> (text: String)
        ensures
            text@ == fault_message(self@),
    {
        match self {
            SignalBackendError::NotFound(signal_id) => {
                let mut text = String::from_str("signal not found: ");
                text.append(signal_id.as_str());
                text
            },
            SignalBackendError::Backend(message) => {
                let mut text = String::from_str("signal backend error: ");
                text.append(message.as_str());
                text
            },
        }
    }
}

/// The abstract content of a [`DataError`].
pub enum DataFault {
    NotFound(Seq<char>),
    Internal(Seq<char>),
}

/// Error answered for an SOVD data resource.
#[derive(Debug, PartialEq, Eq)]
pub enum DataError {
    /// The data resource is unknown; holds the data id.
    NotFound(String),
    /// Reading the data failed; holds a human-readable message.
    Internal(String),
}

impl View for DataError {
    type V = DataFault;

    open spec fn view(&self) -> DataFault {
        match self {
            DataError::NotFound(data_id) => DataFault::NotFound(data_id@),
            DataError::Internal(message) => DataFault::Internal(message@),
        }
    }
}

/// The data error that answers a read of `data_id` whose signal failed with `fault`.
pub open spec fn data_fault_for(fault: SignalFault, data_id: Seq<char>) -> DataFault {
    match fault {
        SignalFault::NotFound(_) => DataFault::NotFound(data_id),
        SignalFault::Backend(message) => DataFault::Internal(message),
    }
}

/// Turns the failure of a signal read into the error of the data resource
/// `data_id` that the signal serves.
pub fn map_signal_error(error: SignalBackendError, data_id: &str) -> (mapped: DataError)
    ensures
        mapped@ == data_fault_for(error@, data_id@),
{
    match error {
        SignalBackendError::NotFound(_) => DataError::NotFound(data_id.to_owned()),
        SignalBackendError::Backend(message) => DataError::Internal(message),
    }
}

/// The text of an error starts with a prefix that tells the two kinds apart
/// and ends with the whole signal id or backend message.
pub proof fn lemma_message_shape(fault: SignalFault)
    ensures
        fault matches SignalFault::NotFound(signal_id) ==> fault_message(fault) == "signal not found: "@
            + signal_id,
        fault matches SignalFault::Backend(message) ==> fault_message(fault)
            == "signal backend error: "@ + message,
        fault matches SignalFault::NotFound(signal_id) ==> fault_message(fault).subrange(
            fault_message(fault).len() - signal_id.len(),
            fault_message(fault).len() as int,
        ) == signal_id,
        fault matches SignalFault::Backend(message) ==> fault_message(fault).subrange(
            fault_message(fault).len() - message.len(),
            fault_message(fault).len() as int,
        ) == message,
{
    match fault {
        SignalFault::NotFound(signal_id) => {
            let text = fault_message(fault);
            assert(text.subrange(text.len() - signal_id.len(), text.len() as int) =~= signal_id);
        },
        SignalFault::Backend(message) => {
            let text = fault_message(fault);
            assert(text.subrange(text.len() - message.len(), text.len() as int) =~= message);
        },
    }
}

/// A data read is answered "not found" exactly when its signal was not
/// found, and then names the data id; any other signal failure is answered as
/// an internal error that keeps the backend's message unchanged.
pub proof fn lemma_data_fault_answer(fault: SignalFault, data_id: Seq<char>)
    ensures
        (data_fault_for(fault, data_id) is NotFound) <==> (fault is NotFound),
        fault is NotFound ==> data_fault_for(fault, data_id) == DataFault::NotFound(data_id),
        fault matches SignalFault::Backend(message) ==> data_fault_for(fault, data_id)
            == DataFault::Internal(message),
{
}

} // verus!
