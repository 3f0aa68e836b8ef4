use vstd::prelude::*;

verus! {

/// Failure to send an e-mail.
#[derive(Debug)]
pub enum EmailError {
    /// The message could not be built or delivered; the text says why.
    Send(String),
}

impl EmailError {
    /// The error's message, as `Display` writes it.
    pub fn message(&self) -> (res: String)
        ensures
            match self {
                EmailError::Send(m) => res@ == "failed to send email: "@ + m@,
            },
    {
        match self {
            EmailError::Send(m) => {
                let mut s = "failed to send email: ".to_owned();
                s.append(m.as_str());
                s
            },
        }
    }
}

} // verus!
