//! A two-state prompt machine: `p` opens a prompt, and `a`, `b` or `c`
//! answers it.

use vstd::prelude::*;

verus! {

#[derive(Debug)]
pub enum UserInput {
    Key(char),
}

#[derive(Clone, Copy, Debug, PartialEq, Eq, Structural)]
pub enum UserState {
    Idle,
    Prompt,
}

#[derive(Debug)]
pub enum UserOutput {
    Nothing,
    Choice(String),
}

/// The prompt machine. It has no data: the state is handed to each step.
#[derive(Debug)]
pub struct UserMachine;

impl UserMachine {
    /// The state in which the machine starts.
    pub const INITIAL_STATE: UserState = UserState::Idle;

    /// The state that follows `state` on key `key`: `p` leads from idle to
    /// the prompt, and `a`, `b` and `c` lead from the prompt back to idle.
    pub open spec fn next_state(state: UserState, key: char) -> UserState {
        match state {
            UserState::Idle => if key == 'p' {
                UserState::Prompt
            } else {
                UserState::Idle
            },
            UserState::Prompt => if key == 'a' || key == 'b' || key == 'c' {
                UserState::Idle
            } else {
                UserState::Prompt
            },
        }
    }

    /// The choice that key `key` makes in state `state`, if it makes one.
    pub open spec fn choice(state: UserState, key: char) -> Option<Seq<char>> {
        if state == UserState::Prompt && key == 'a' {
            Some("cat"@)
        } else if state == UserState::Prompt && key == 'b' {
            Some("dog"@)
        } else if state == UserState::Prompt && key == 'c' {
            Some("fish"@)
        } else {
            None
        }
    }

    /// The next state. Every input has one.
    pub fn transition(state: &UserState, input: &UserInput) -> (next: Option<UserState>)
        ensures
            input matches UserInput::Key(key) && next == Some(Self::next_state(*state, *key)),
    {
        match (state, input) {
            (UserState::Idle, UserInput::Key(k)) => {
                if *k == 'p' {
                    Some(UserState::Prompt)
                } else {
                    Some(UserState::Idle)
                }
            },
            (UserState::Prompt, UserInput::Key(k)) => {
                if *k == 'a' || *k == 'b' || *k == 'c' {
                    Some(UserState::Idle)
                } else {
                    Some(UserState::Prompt)
                }
            },
        }
    }

    /// What the machine gives out on an input: the choice, where the input
    /// makes one, and nothing otherwise.
    pub fn output(state: &UserState, input: &UserInput) -> (out: Option<UserOutput>)
        ensures
            input matches UserInput::Key(key) && match Self::choice(*state, *key) {
                Some(text) => out matches Some(UserOutput::Choice(s)) && s@ == text,
                None => out is None,
            },
    {
        match (state, input) {
            (UserState::Idle, UserInput::Key(_)) => None,
            (UserState::Prompt, UserInput::Key(k)) => {
                if *k == 'a' {
                    Some(UserOutput::Choice("cat".to_string()))
                } else if *k == 'b' {
                    Some(UserOutput::Choice("dog".to_string()))
                } else if *k == 'c' {
                    Some(UserOutput::Choice("fish".to_string()))
                } else {
                    None
                }
            },
        }
    }
}

} // verus!
