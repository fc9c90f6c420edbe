//! The state of a transaction as the store writes it.
use crate::store::{ascii_lower, eq_ignore_ascii_case, same_ignoring_ascii_case};
use vstd::prelude::*;
use vstd::string::StringExecFns;

verus! {

/// The states a transaction is stored in.
#[derive(Clone, Copy, Debug, PartialEq, Eq, Structural)]
pub enum TransactionState {
    Trying,
    Proceeding,
    Completed,
    Terminated,
}

/// The name of a state, as `Display` writes it.
pub open spec fn state_name(state: TransactionState) -> Seq<char> {
    match state {
        TransactionState::Trying => "Trying"@,
        TransactionState::Proceeding => "Proceeding"@,
        TransactionState::Completed => "Completed"@,
        TransactionState::Terminated => "Terminated"@,
    }
}

/// The text the store holds for a state: its name in lower case.
pub open spec fn state_column(state: TransactionState) -> Seq<char> {
    match state {
        TransactionState::Trying => "trying"@,
        TransactionState::Proceeding => "proceeding"@,
        TransactionState::Completed => "completed"@,
        TransactionState::Terminated => "terminated"@,
    }
}

/// The state whose name `text` is, whatever the case of its ASCII letters.
pub open spec fn parsed_state(text: Seq<char>) -> Option<TransactionState> {
    if same_ignoring_ascii_case(text, "trying"@) {
        Some(TransactionState::Trying)
    } else if same_ignoring_ascii_case(text, "proceeding"@) {
        Some(TransactionState::Proceeding)
    } else if same_ignoring_ascii_case(text, "completed"@) {
        Some(TransactionState::Completed)
    } else if same_ignoring_ascii_case(text, "terminated"@) {
        Some(TransactionState::Terminated)
    } else {
        None
    }
}

impl TransactionState {
    /// Reads a state from its name, whatever the case of its letters; the
    /// error names the text.
    pub fn from_str(s: &str) -> (r: Result<TransactionState, String>)
        ensures
            match parsed_state(s@) {
                Some(state) => r == Ok::<TransactionState, String>(state),
                None => r matches Err(message) && message@ == "invalid TransactionState `"@ + s@ + "`"@,
            },
    {
        if eq_ignore_ascii_case(s, "trying") {
            Ok(TransactionState::Trying)
        } else if eq_ignore_ascii_case(s, "proceeding") {
            Ok(TransactionState::Proceeding)
        } else if eq_ignore_ascii_case(s, "completed") {
            Ok(TransactionState::Completed)
        } else if eq_ignore_ascii_case(s, "terminated") {
            Ok(TransactionState::Terminated)
        } else {
            let mut message = String::from_str("invalid TransactionState `");
            message.append(s);
            message.append("`");
            Err(message)
        }
    }

    /// The name of the state (its `Display`).
    pub fn name(&self) -> (s: String)
        ensures
            s@ == state_name(*self),
    {
        match self {
            TransactionState::Trying => String::from_str("Trying"),
            TransactionState::Proceeding => String::from_str("Proceeding"),
            TransactionState::Completed => String::from_str("Completed"),
            TransactionState::Terminated => String::from_str("Terminated"),
        }
    }

    /// The text the store holds for the state: its name in lower case.
    pub fn column_text(&self) -> (s: String)
        ensures
            s@ == state_column(*self),
    {
        match self {
            TransactionState::Trying => String::from_str("trying"),
            TransactionState::Proceeding => String::from_str("proceeding"),
            TransactionState::Completed => String::from_str("completed"),
            TransactionState::Terminated => String::from_str("terminated"),
        }
    }
}

/// What the store writes for a state it reads back as the same state, and
/// so does the state's name.
pub proof fn law_state_text_round_trip(state: TransactionState)
    ensures
        parsed_state(state_column(state)) == Some(state),
        parsed_state(state_name(state)) == Some(state),
{
    reveal_strlit("trying");
    reveal_strlit("proceeding");
    reveal_strlit("completed");
    reveal_strlit("terminated");
    reveal_strlit("Trying");
    reveal_strlit("Proceeding");
    reveal_strlit("Completed");
    reveal_strlit("Terminated");
    match state {
        TransactionState::Trying => {
            assert(same_ignoring_ascii_case(state_column(state), "trying"@));
            assert(same_ignoring_ascii_case(state_name(state), "trying"@));
        },
        TransactionState::Proceeding => {
            assert(!same_ignoring_ascii_case(state_column(state), "trying"@));
            assert(same_ignoring_ascii_case(state_column(state), "proceeding"@));
            assert(!same_ignoring_ascii_case(state_name(state), "trying"@));
            assert(same_ignoring_ascii_case(state_name(state), "proceeding"@));
        },
        TransactionState::Completed => {
            assert(!same_ignoring_ascii_case(state_column(state), "trying"@));
            assert(!same_ignoring_ascii_case(state_column(state), "proceeding"@));
            assert(same_ignoring_ascii_case(state_column(state), "completed"@));
            assert(!same_ignoring_ascii_case(state_name(state), "trying"@));
            assert(!same_ignoring_ascii_case(state_name(state), "proceeding"@));
            assert(same_ignoring_ascii_case(state_name(state), "completed"@));
        },
        TransactionState::Terminated => {
            assert(!same_ignoring_ascii_case(state_column(state), "trying"@));
            assert(ascii_lower(state_column(state)[0]) != ascii_lower("proceeding"@[0]));
            assert(!same_ignoring_ascii_case(state_column(state), "proceeding"@));
            assert(!same_ignoring_ascii_case(state_column(state), "completed"@));
            assert(same_ignoring_ascii_case(state_column(state), "terminated"@));
            assert(!same_ignoring_ascii_case(state_name(state), "trying"@));
            assert(ascii_lower(state_name(state)[0]) != ascii_lower("proceeding"@[0]));
            assert(!same_ignoring_ascii_case(state_name(state), "proceeding"@));
            assert(!same_ignoring_ascii_case(state_name(state), "completed"@));
            assert(same_ignoring_ascii_case(state_name(state), "terminated"@));
        },
    }
}

} // verus!
