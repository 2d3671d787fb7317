//! Issue priority on Linear's 0..=4 scale.
use vstd::prelude::*;

use crate::domain::errors::DomainError;
use crate::text::{decimal, u8_decimal};

verus! {

/// The five priorities that Linear knows.
#[derive(Debug, Clone, Copy, PartialEq, Eq, Structural)]
pub enum Priority {
    NoPriority,
    Urgent,
    High,
    Medium,
    Low,
}

/// The priority with Linear's number `v`, for `v <= 4`.
pub open spec fn priority_of(v: u8) -> Priority {
    if v == 0 {
        Priority::NoPriority
    } else if v == 1 {
        Priority::Urgent
    } else if v == 2 {
        Priority::High
    } else if v == 3 {
        Priority::Medium
    } else {
        Priority::Low
    }
}

impl Priority {
    /// Linear's number for the priority.
    pub open spec fn number(self) -> u8 {
        match self {
            Priority::NoPriority => 0,
            Priority::Urgent => 1,
            Priority::High => 2,
            Priority::Medium => 3,
            Priority::Low => 4,
        }
    }

    /// Linear's number for the priority (`p as u8`).
    pub fn as_u8(self) -> (n: u8)
        ensures
            n == self.number(),
    {
        match self {
            Priority::NoPriority => 0,
            Priority::Urgent => 1,
            Priority::High => 2,
            Priority::Medium => 3,
            Priority::Low => 4,
        }
    }

    /// The priority with Linear's number `value`; numbers above 4 are refused.
    pub fn try_from(value: u8) -> (r: Result<Self, DomainError>)
        ensures
            value <= 4 ==> r == Ok::<Priority, DomainError>(priority_of(value)),
            value > 4 ==> (r matches Err(DomainError::InvalidInput(m)) && m@
                == "invalid priority value: "@ + decimal(value as nat)),
    {
        match value {
            0 => Ok(Priority::NoPriority),
            1 => Ok(Priority::Urgent),
            2 => Ok(Priority::High),
            3 => Ok(Priority::Medium),
            4 => Ok(Priority::Low),
            _ => Err(DomainError::InvalidInput(String::from_str("invalid priority value: ").concat(u8_decimal(value).as_str()))),
        }
    }
}

/// A priority's number is on the 0..=4 scale and reads back as that same priority.
pub proof fn lemma_priority_number_roundtrip(p: Priority)
    ensures
        p.number() <= 4,
        priority_of(p.number()) == p,
{
}

/// Every number on the 0..=4 scale names a priority whose number it is.
pub proof fn lemma_priority_of_number(v: u8)
    requires
        v <= 4,
    ensures
        priority_of(v).number() == v,
{
}

} // verus!
