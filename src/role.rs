use vstd::prelude::*;

verus! {

/// One of the three personas of the red-green-refactor cycle.
#[derive(Debug, Clone, Copy, PartialEq, Eq, Structural)]
pub enum Role {
    Tester,
    Implementor,
    Refactorer,
}

/// The role that follows `r` in the cycle Tester, Implementor, Refactorer, Tester.
pub open spec fn next_role(r: Role) -> Role {
    match r {
        Role::Tester => Role::Implementor,
        Role::Implementor => Role::Refactorer,
        Role::Refactorer => Role::Tester,
    }
}

/// The lowercase name of a role, as used in artifact paths and audit records.
pub open spec fn role_name(r: Role) -> Seq<char> {
    match r {
        Role::Tester => "tester"@,
        Role::Implementor => "implementor"@,
        Role::Refactorer => "refactorer"@,
    }
}

/// The capitalised name of a role, as shown in commit messages.
pub open spec fn role_title(r: Role) -> Seq<char> {
    match r {
        Role::Tester => "Tester"@,
        Role::Implementor => "Implementor"@,
        Role::Refactorer => "Refactorer"@,
    }
}

impl Role {
    pub fn as_str(&self) -> (r: &'static str)
        ensures
            r@ == role_name(*self),
    {
        match self {
            Role::Tester => "tester",
            Role::Implementor => "implementor",
            Role::Refactorer => "refactorer",
        }
    }

    pub fn title(&self) -> (r: &'static str)
        ensures
            r@ == role_title(*self),
    {
        match self {
            Role::Tester => "Tester",
            Role::Implementor => "Implementor",
            Role::Refactorer => "Refactorer",
        }
    }

    /// The next role of the cycle.
    pub fn next(&self) -> (r: Role)
        ensures
            r == next_role(*self),
    {
        match self {
            Role::Tester => Role::Implementor,
            Role::Implementor => Role::Refactorer,
            Role::Refactorer => Role::Tester,
        }
    }
}

/// The one of three values that belongs to `role`.
pub fn select_by_role<'a, T>(role: Role, tester: &'a T, implementor: &'a T, refactorer: &'a T) -> (r: &'a T)
    ensures
        role == Role::Tester ==> r == tester,
        role == Role::Implementor ==> r == implementor,
        role == Role::Refactorer ==> r == refactorer,
{
    match role {
        Role::Tester => tester,
        Role::Implementor => implementor,
        Role::Refactorer => refactorer,
    }
}

/// Three rotations bring every role back to itself, and each of the three
/// positions of the cycle is held by a different role.
pub proof fn lemma_cycle_has_period_three(r: Role)
    ensures
        next_role(next_role(next_role(r))) == r,
        next_role(r) != r,
        next_role(next_role(r)) != r,
{
}

} // verus!
