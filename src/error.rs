//! The error type of the bot.

use vstd::prelude::*;

verus! {

/// An error with a message for the log; transport failures of the platform
/// and of the translation service are all carried as one of these.
#[derive(Debug, Clone)]
pub struct AppError {
    pub msg: String,
}

impl AppError {
    pub fn new(msg: String) -> (r: AppError)
        ensures
            r.msg == msg,
    {
        AppError { msg }
    }

    /// The error as it is shown: `Error: <message>`.
    pub fn to_string(&self) -> (r: String)
        ensures
            r@ == "Error: "@ + self.msg@,
    {
        String::from_str("Error: ").concat(self.msg.as_str())
    }
}

} // verus!
