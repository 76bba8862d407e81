use vstd::prelude::*;
use crate::error::InstallError;

verus! {

/// Something that happened outside the Forge panel.
#[derive(Debug)]
pub enum Message {
    Error(InstallError),
}

/// The Forge panel, which holds nothing yet.
#[derive(Debug, Default)]
pub struct State {}

impl State {
    /// Hands back the error a message carries, to be reported.
    pub fn update_message(&mut self, message: Message) -> (r: Option<InstallError>)
        ensures
            *final(self) == *old(self),
            match message {
                Message::Error(e) => r == Some(e),
            },
    {
        match message {
            Message::Error(e) => Some(e),
        }
    }
}

} // verus!
