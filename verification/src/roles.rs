//! Role / permission model: a pure capability matrix over the privilege ladder
//! OrionAdmin > FirmAdmin > TeamAdmin > User > ApiOnly.
use vstd::prelude::*;

use crate::text::str_eq;

verus! {

/// A platform role (higher on the ladder = more privilege).
#[derive(Clone, Copy, Debug, PartialEq, Eq, Structural)]
pub enum Role {
    OrionAdmin,
    FirmAdmin,
    TeamAdmin,
    User,
    ApiOnly,
}

/// Capabilities gated by role.
#[derive(Clone, Copy, Debug, PartialEq, Eq, Structural)]
pub enum Capability {
    ViewBook,
    PaperTrade,
    EditModels,
    ManageHouseholds,
    ManageBilling,
    AdminConfig,
    InteractiveLogin,
}

/// The display name of a role.
pub open spec fn role_name(r: Role) -> Seq<char> {
    match r {
        Role::OrionAdmin => "OrionAdmin"@,
        Role::FirmAdmin => "FirmAdmin"@,
        Role::TeamAdmin => "TeamAdmin"@,
        Role::User => "User"@,
        Role::ApiOnly => "ApiOnly"@,
    }
}

/// The role a name denotes; any unrecognised name denotes `User`.
pub open spec fn role_of_name(s: Seq<char>) -> Role {
    if s == "OrionAdmin"@ {
        Role::OrionAdmin
    } else if s == "FirmAdmin"@ {
        Role::FirmAdmin
    } else if s == "TeamAdmin"@ {
        Role::TeamAdmin
    } else if s == "ApiOnly"@ {
        Role::ApiOnly
    } else {
        Role::User
    }
}

/// Position on the privilege ladder (ApiOnly lowest).
pub open spec fn role_rank(r: Role) -> int {
    match r {
        Role::OrionAdmin => 4,
        Role::FirmAdmin => 3,
        Role::TeamAdmin => 2,
        Role::User => 1,
        Role::ApiOnly => 0,
    }
}

/// The capability matrix.
pub open spec fn allowed(r: Role, c: Capability) -> bool {
    match c {
        Capability::InteractiveLogin => r != Role::ApiOnly,
        Capability::ViewBook => true,
        Capability::PaperTrade => true,
        Capability::EditModels => role_rank(r) >= role_rank(Role::TeamAdmin) || r == Role::User,
        Capability::ManageHouseholds => role_rank(r) >= role_rank(Role::TeamAdmin),
        Capability::ManageBilling => role_rank(r) >= role_rank(Role::FirmAdmin),
        Capability::AdminConfig => r == Role::OrionAdmin || r == Role::FirmAdmin,
    }
}

/// The display name of a capability.
pub open spec fn capability_name(c: Capability) -> Seq<char> {
    match c {
        Capability::ViewBook => "ViewBook"@,
        Capability::PaperTrade => "PaperTrade"@,
        Capability::EditModels => "EditModels"@,
        Capability::ManageHouseholds => "ManageHouseholds"@,
        Capability::ManageBilling => "ManageBilling"@,
        Capability::AdminConfig => "AdminConfig"@,
        Capability::InteractiveLogin => "InteractiveLogin"@,
    }
}

/// Every capability, in the order the capability map lists them.
pub open spec fn all_capabilities() -> Seq<Capability> {
    seq![
        Capability::ViewBook,
        Capability::PaperTrade,
        Capability::EditModels,
        Capability::ManageHouseholds,
        Capability::ManageBilling,
        Capability::AdminConfig,
        Capability::InteractiveLogin,
    ]
}

impl Role {
    /// The role's display name.
    pub fn as_str(self) -> (s: &'static str)
        ensures
            s@ == role_name(self),
    {
        match self {
            Role::OrionAdmin => "OrionAdmin",
            Role::FirmAdmin => "FirmAdmin",
            Role::TeamAdmin => "TeamAdmin",
            Role::User => "User",
            Role::ApiOnly => "ApiOnly",
        }
    }

    /// Ladder position: higher = more privilege.
    fn rank(self) -> (k: u8)
        ensures
            k as int == role_rank(self),
    {
        match self {
            Role::OrionAdmin => 4,
            Role::FirmAdmin => 3,
            Role::TeamAdmin => 2,
            Role::User => 1,
            Role::ApiOnly => 0,
        }
    }

    /// Parse a display name; unknown names give `User`.
    pub fn from_str_name(s: &str) -> (r: Role)
        ensures
            r == role_of_name(s@),
    {
        if str_eq(s, "OrionAdmin") {
            Role::OrionAdmin
        } else if str_eq(s, "FirmAdmin") {
            Role::FirmAdmin
        } else if str_eq(s, "TeamAdmin") {
            Role::TeamAdmin
        } else if str_eq(s, "ApiOnly") {
            Role::ApiOnly
        } else {
            Role::User
        }
    }
}

impl Capability {
    /// The capability's display name.
    pub fn as_str(self) -> (s: &'static str)
        ensures
            s@ == capability_name(self),
    {
        match self {
            Capability::ViewBook => "ViewBook",
            Capability::PaperTrade => "PaperTrade",
            Capability::EditModels => "EditModels",
            Capability::ManageHouseholds => "ManageHouseholds",
            Capability::ManageBilling => "ManageBilling",
            Capability::AdminConfig => "AdminConfig",
            Capability::InteractiveLogin => "InteractiveLogin",
        }
    }
}

/// Can `role` perform `capability`?
pub fn can(role: Role, capability: Capability) -> (ok: bool)
    ensures
        ok == allowed(role, capability),
{
    match capability {
        Capability::InteractiveLogin => role != Role::ApiOnly,
        Capability::ViewBook => true,
        Capability::PaperTrade => true,
        Capability::EditModels => role.rank() >= Role::TeamAdmin.rank() || role == Role::User,
        Capability::ManageHouseholds => role.rank() >= Role::TeamAdmin.rank(),
        Capability::ManageBilling => role.rank() >= Role::FirmAdmin.rank(),
        Capability::AdminConfig => role == Role::OrionAdmin || role == Role::FirmAdmin,
    }
}

fn capability_list() -> (v: Vec<Capability>)
    ensures
        v@ == all_capabilities(),
{
    let mut v: Vec<Capability> = Vec::new();
    v.push(Capability::ViewBook);
    v.push(Capability::PaperTrade);
    v.push(Capability::EditModels);
    v.push(Capability::ManageHouseholds);
    v.push(Capability::ManageBilling);
    v.push(Capability::AdminConfig);
    v.push(Capability::InteractiveLogin);
    assert(v@ =~= all_capabilities());
    v
}

/// The full capability map for a role: `(capability name, allowed)` for every capability,
/// in the fixed capability order.
pub fn capabilities(role: Role) -> (m: Vec<(&'static str, bool)>)
    ensures
        m@.len() == all_capabilities().len(),
        forall|i: int|
            0 <= i < m@.len() ==> (#[trigger] m@[i]).0@ == capability_name(all_capabilities()[i])
                && m@[i].1 == allowed(role, all_capabilities()[i]),
{
    let caps = capability_list();
    let mut m: Vec<(&'static str, bool)> = Vec::new();
    let mut i: usize = 0;
    while i < caps.len()
        invariant
            caps@ == all_capabilities(),
            i <= caps@.len(),
            m@.len() == i,
            forall|j: int|
                0 <= j < i ==> (#[trigger] m@[j]).0@ == capability_name(all_capabilities()[j])
                    && m@[j].1 == allowed(role, all_capabilities()[j]),
        decreases caps@.len() - i,
    {
        let c = caps[i];
        m.push((c.as_str(), can(role, c)));
        i = i + 1;
    }
    m
}

/// Name round trip: parsing a role's display name gives the role back.
pub proof fn lemma_role_name_roundtrip(r: Role)
    ensures
        role_of_name(role_name(r)) == r,
{
    reveal_strlit("OrionAdmin");
    reveal_strlit("FirmAdmin");
    reveal_strlit("TeamAdmin");
    reveal_strlit("User");
    reveal_strlit("ApiOnly");
    assert("FirmAdmin"@[0] != "OrionAdmin"@[0]);
    assert("TeamAdmin"@[0] != "OrionAdmin"@[0]);
    assert("TeamAdmin"@[0] != "FirmAdmin"@[0]);
    assert("ApiOnly"@[0] != "OrionAdmin"@[0]);
    assert("ApiOnly"@[0] != "FirmAdmin"@[0]);
    assert("ApiOnly"@[0] != "TeamAdmin"@[0]);
    assert("User"@[0] != "OrionAdmin"@[0]);
    assert("User"@[0] != "FirmAdmin"@[0]);
    assert("User"@[0] != "TeamAdmin"@[0]);
    assert("User"@[0] != "ApiOnly"@[0]);
}

/// The privilege ladder: whatever a role may do, every role at least as high may do too.
pub proof fn lemma_privilege_ladder(low: Role, high: Role, c: Capability)
    requires
        role_rank(low) <= role_rank(high),
        allowed(low, c),
    ensures
        allowed(high, c),
{
}

/// ApiOnly is the one role blocked from interactive login; every role may read the book
/// and paper-trade.
pub proof fn lemma_interactive_block(r: Role)
    ensures
        allowed(r, Capability::InteractiveLogin) <==> r != Role::ApiOnly,
        allowed(r, Capability::ViewBook),
        allowed(r, Capability::PaperTrade),
{
}

/// Who holds each gated capability: billing and configuration belong to the firm and
/// platform admins, household management to team admins and above, model editing to every
/// role but ApiOnly; ApiOnly may read the book and paper-trade, and nothing else.
pub proof fn lemma_capability_holders(r: Role, c: Capability)
    ensures
        allowed(r, Capability::ManageBilling) <==> (r == Role::OrionAdmin || r == Role::FirmAdmin),
        allowed(r, Capability::AdminConfig) <==> (r == Role::OrionAdmin || r == Role::FirmAdmin),
        allowed(r, Capability::ManageHouseholds) <==> (r == Role::OrionAdmin || r == Role::FirmAdmin
            || r == Role::TeamAdmin),
        allowed(r, Capability::EditModels) <==> r != Role::ApiOnly,
        allowed(Role::ApiOnly, c) <==> (c == Capability::ViewBook || c == Capability::PaperTrade),
{
}

/// Billing implies household management, which implies model editing.
pub proof fn lemma_capability_nesting(r: Role)
    ensures
        allowed(r, Capability::ManageBilling) ==> allowed(r, Capability::ManageHouseholds),
        allowed(r, Capability::ManageHouseholds) ==> allowed(r, Capability::EditModels),
{
}

} // verus!
