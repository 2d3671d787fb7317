//! The lifecycle state of a project.
use vstd::prelude::*;

use crate::domain::errors::DomainError;
use crate::text::{joined, lowercase, str_eq, to_lowercase, views_of_strs, join_strs};

verus! {

/// The five project states that the command line accepts.
#[derive(Debug, Clone, Copy, PartialEq, Eq, Structural)]
pub enum ProjectState {
    Planned,
    Started,
    Paused,
    Completed,
    Cancelled,
}

/// The accepted spellings, in the order the help text lists them.
pub open spec fn state_names() -> Seq<Seq<char>> {
    seq!["planned"@, "started"@, "paused"@, "completed"@, "cancelled"@]
}

/// The state that a lower-cased spelling names, if any; "canceled" is accepted too.
pub open spec fn state_named(l: Seq<char>) -> Option<ProjectState> {
    if l == "planned"@ {
        Some(ProjectState::Planned)
    } else if l == "started"@ {
        Some(ProjectState::Started)
    } else if l == "paused"@ {
        Some(ProjectState::Paused)
    } else if l == "completed"@ {
        Some(ProjectState::Completed)
    } else if l == "cancelled"@ || l == "canceled"@ {
        Some(ProjectState::Cancelled)
    } else {
        None
    }
}

/// The message of the error for an unknown state.
pub open spec fn invalid_state_message(s: Seq<char>) -> Seq<char> {
    "invalid state '"@ + s + "'; valid values: "@ + joined(state_names(), ", "@)
}

impl ProjectState {
    /// The lower-case name of the state.
    pub open spec fn name(self) -> Seq<char> {
        match self {
            ProjectState::Planned => "planned"@,
            ProjectState::Started => "started"@,
            ProjectState::Paused => "paused"@,
            ProjectState::Completed => "completed"@,
            ProjectState::Cancelled => "cancelled"@,
        }
    }

    /// The accepted spellings: planned, started, paused, completed, cancelled.
    pub fn valid_values() -> (v: Vec<&'static str>)
        ensures
            views_of_strs(v@) == state_names(),
    {
        let v = vec!["planned", "started", "paused", "completed", "cancelled"];
        assert(views_of_strs(v@) =~= state_names());
        v
    }

    /// Reads a state name, ignoring case; "canceled" names the cancelled state.
    pub fn parse(s: &str) -> (r: Result<ProjectState, DomainError>)
        ensures
            state_named(lowercase(s@)) matches Some(st) ==> r == Ok::<
                ProjectState,
                DomainError,
            >(st),
            state_named(lowercase(s@)) is None ==> (r matches Err(DomainError::InvalidInput(m))
                && m@ == invalid_state_message(s@)),
            forall|st: ProjectState| s@ == st.name() ==> r == Ok::<ProjectState, DomainError>(st),
            s@ == "canceled"@ ==> r == Ok::<ProjectState, DomainError>(ProjectState::Cancelled),
    {
        let l = to_lowercase(s);
        proof {
            reveal_strlit("planned");
            reveal_strlit("started");
            reveal_strlit("paused");
            reveal_strlit("completed");
            reveal_strlit("cancelled");
            reveal_strlit("canceled");
            if s@ == "canceled"@ {
                assert(l@ =~= s@);
                assert("canceled"@ != "planned"@);
                assert("canceled"@ != "started"@);
                assert("canceled"@ != "paused"@);
                assert("canceled"@ != "completed"@);
            }
            assert forall|st: ProjectState| s@ == st.name() implies l@ == s@ && state_named(l@)
                == Some(st) by {
                assert(l@ =~= s@);
                match st {
                    ProjectState::Planned => {},
                    ProjectState::Started => {
                        assert("started"@[0] != "planned"@[0]);
                    },
                    ProjectState::Paused => {
                        assert("paused"@ != "planned"@);
                        assert("paused"@ != "started"@);
                    },
                    ProjectState::Completed => {
                        assert("completed"@ != "planned"@);
                        assert("completed"@ != "started"@);
                        assert("completed"@ != "paused"@);
                    },
                    ProjectState::Cancelled => {
                        assert("cancelled"@ != "planned"@);
                        assert("cancelled"@ != "started"@);
                        assert("cancelled"@ != "paused"@);
                        assert("cancelled"@[1] != "completed"@[1]);
                    },
                }
            }
        }
        let l = l.as_str();
        if str_eq(l, "planned") {
            Ok(ProjectState::Planned)
        } else if str_eq(l, "started") {
            Ok(ProjectState::Started)
        } else if str_eq(l, "paused") {
            Ok(ProjectState::Paused)
        } else if str_eq(l, "completed") {
            Ok(ProjectState::Completed)
        } else if str_eq(l, "cancelled") || str_eq(l, "canceled") {
            Ok(ProjectState::Cancelled)
        } else {
            let values = Self::valid_values();
            let listed = join_strs(&values, ", ");
            Err(
                DomainError::InvalidInput(
                    String::from_str("invalid state '").concat(s).concat("'; valid values: ").concat(
                        listed.as_str(),
                    ),
                ),
            )
        }
    }

    /// The lower-case name of the state.
    pub fn as_str(&self) -> (s: &'static str)
        ensures
            s@ == self.name(),
    {
        match self {
            ProjectState::Planned => "planned",
            ProjectState::Started => "started",
            ProjectState::Paused => "paused",
            ProjectState::Completed => "completed",
            ProjectState::Cancelled => "cancelled",
        }
    }

    /// The lower-case name of the state, as `Display` writes it.
    pub fn to_string(&self) -> (s: String)
        ensures
            s@ == self.name(),
    {
        String::from_str(self.as_str())
    }
}

impl std::str::FromStr for ProjectState {
    type Err = DomainError;

    fn from_str(s: &str) -> (r: Result<ProjectState, DomainError>)
        ensures
            state_named(lowercase(s@)) matches Some(st) ==> r == Ok::<
                ProjectState,
                DomainError,
            >(st),
            state_named(lowercase(s@)) is None ==> (r matches Err(DomainError::InvalidInput(m))
                && m@ == invalid_state_message(s@)),
            forall|st: ProjectState| s@ == st.name() ==> r == Ok::<ProjectState, DomainError>(st),
    {
        ProjectState::parse(s)
    }
}

} // verus!
