use vstd::prelude::*;

verus! {

/// What the user was about to do when unsaved changes were found.
#[derive(PartialEq, Eq, Structural, Clone, Copy, Debug)]
pub enum Action {
    LoadKeyboard,
    Exit,
}

impl Action {
    /// The action as the subject of a sentence ("... will undo them").
    pub fn present_tense(&self) -> (s: &'static str)
        ensures
            s@ == match self {
                Action::LoadKeyboard => "Loading a new keyboard"@,
                Action::Exit => "Exiting"@,
            },
    {
        match self {
            Action::LoadKeyboard => "Loading a new keyboard",
            Action::Exit => "Exiting",
        }
    }

    /// The action after "Are you sure you want to".
    pub fn future_tense(&self) -> (s: &'static str)
        ensures
            s@ == match self {
                Action::LoadKeyboard => "load a new keyboard"@,
                Action::Exit => "exit"@,
            },
    {
        match self {
            Action::LoadKeyboard => "load a new keyboard",
            Action::Exit => "exit",
        }
    }
}

} // verus!
