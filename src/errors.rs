use vstd::prelude::*;

verus! {

/// Why no snapshot of the sockets could be taken.
#[derive(Debug)]
pub enum ConnectionToolsError {
    FailToGetSocketsInfo { message: String },
}

impl ConnectionToolsError {
    pub open spec fn text(&self) -> Seq<char> {
        match self {
            ConnectionToolsError::FailToGetSocketsInfo { message } => "fail to get sockets info: "@
                + message@,
        }
    }

    /// The message shown to the operator.
    pub fn to_string(&self) -> (r: String)
        ensures
            r@ == self.text(),
    {
        match self {
            ConnectionToolsError::FailToGetSocketsInfo { message } => {
                let mut s = String::from_str("fail to get sockets info: ");
                s.append(message.as_str());
                s
            },
        }
    }
}

} // verus!
