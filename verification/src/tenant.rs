use vstd::prelude::*;

use crate::error::{fails_validation, validation_error, DomainError};
use crate::platform::{new_id, uuid_version};
use crate::text::text_eq;
use crate::user::UserId;

verus! {

/// Identifier of a tenant company.
#[derive(Debug, Clone, Copy, PartialEq, Eq, Hash, Structural)]
pub struct TenantId(pub u128);

impl TenantId {
    /// A fresh time-ordered identifier.
    pub fn new() -> (id: TenantId)
        ensures
            id.0 != 0,
            uuid_version(id.0) == 7,
    {
        TenantId(new_id())
    }
}

impl Default for TenantId {
    fn default() -> (id: TenantId)
        ensures
            id.0 != 0,
            uuid_version(id.0) == 7,
    {
        TenantId::new()
    }
}

/// Identifier of a tenant branch.
#[derive(Debug, Clone, Copy, PartialEq, Eq, Hash, Structural)]
pub struct BranchId(pub u128);

impl BranchId {
    /// A fresh time-ordered identifier.
    pub fn new() -> (id: BranchId)
        ensures
            id.0 != 0,
            uuid_version(id.0) == 7,
    {
        BranchId(new_id())
    }
}

impl Default for BranchId {
    fn default() -> (id: BranchId)
        ensures
            id.0 != 0,
            uuid_version(id.0) == 7,
    {
        BranchId::new()
    }
}

/// A tenant company, e.g. a restaurant chain or a pharmacy.
#[derive(Debug, Clone)]
pub struct TenantCompany {
    pub id: TenantId,
    pub company_name: String,
    /// e.g. "Restaurant", "Pharmacy", "E-Commerce", "Logistics".
    pub category: String,
    pub created_at: i64,
}

/// Authority of a user within one tenant, separate from the global user role:\na user can operate in several tenants without being an admin of all of them.
#[derive(Debug, Clone, Copy, PartialEq, Eq, Hash, Structural)]
pub enum TenantMemberRole {
    Owner,
    Admin,
    Operator,
    Member,
}

impl TenantMemberRole {
    /// The canonical text of each variant.
    pub open spec fn name(self) -> Seq<char> {
        match self {
            TenantMemberRole::Owner => "owner"@,
            TenantMemberRole::Admin => "admin"@,
            TenantMemberRole::Operator => "operator"@,
            TenantMemberRole::Member => "member"@,
        }
    }

    /// The variant whose canonical text is `value`, if any.
    pub open spec fn parse_spec(value: Seq<char>) -> Option<TenantMemberRole> {
        if value == "owner"@ {
            Some(TenantMemberRole::Owner)
        } else if value == "admin"@ {
            Some(TenantMemberRole::Admin)
        } else if value == "operator"@ {
            Some(TenantMemberRole::Operator)
        } else if value == "member"@ {
            Some(TenantMemberRole::Member)
        } else {
            None
        }
    }

    /// The message of the error for an unknown text.
    pub open spec fn unknown_message(value: Seq<char>) -> Seq<char> {
        "invalid tenant member role"@
    }

    pub fn as_str(self) -> (s: &'static str)
        ensures
            s@ == self.name(),
    {
        match self {
            TenantMemberRole::Owner => "owner",
            TenantMemberRole::Admin => "admin",
            TenantMemberRole::Operator => "operator",
            TenantMemberRole::Member => "member",
        }
    }

    /// Parses the canonical text of a variant.
    pub fn parse(value: &str) -> (r: Result<TenantMemberRole, DomainError>)
        ensures
            match TenantMemberRole::parse_spec(value@) {
                Some(s) => r == Ok::<TenantMemberRole, DomainError>(s),
                None => fails_validation(r, TenantMemberRole::unknown_message(value@)),
            },
    {
        if text_eq(value, "owner") {
            Ok(TenantMemberRole::Owner)
        } else if text_eq(value, "admin") {
            Ok(TenantMemberRole::Admin)
        } else if text_eq(value, "operator") {
            Ok(TenantMemberRole::Operator)
        } else if text_eq(value, "member") {
            Ok(TenantMemberRole::Member)
        } else {
            Err(validation_error("invalid tenant member role"))
        }
    }
}

impl std::str::FromStr for TenantMemberRole {
    type Err = DomainError;

    fn from_str(value: &str) -> (r: Result<TenantMemberRole, DomainError>)
        ensures
            match TenantMemberRole::parse_spec(value@) {
                Some(s) => r == Ok::<TenantMemberRole, DomainError>(s),
                None => fails_validation(r, TenantMemberRole::unknown_message(value@)),
            },
    {
        TenantMemberRole::parse(value)
    }
}

/// Every variant's canonical text parses back to that variant.
pub proof fn lemma_tenant_member_role_text_round_trip(s: TenantMemberRole)
    ensures
        TenantMemberRole::parse_spec(s.name()) == Some(s),
{
    reveal_strlit("owner");
    reveal_strlit("admin");
    reveal_strlit("operator");
    reveal_strlit("member");
    assert("owner"@[0] != "admin"@[0]);
    assert("owner"@.len() != "operator"@.len());
    assert("owner"@.len() != "member"@.len());
    assert("admin"@.len() != "operator"@.len());
    assert("admin"@.len() != "member"@.len());
    assert("operator"@.len() != "member"@.len());
}

/// A user's membership of a tenant.
#[derive(Debug, Clone, PartialEq, Eq)]
pub struct TenantMembership {
    pub tenant_id: TenantId,
    pub user_id: UserId,
    pub role: TenantMemberRole,
    pub joined_at: i64,
}

/// A branch of a tenant company.
#[derive(Debug, Clone)]
pub struct TenantBranch {
    pub id: BranchId,
    pub tenant_id: TenantId,
    pub branch_name: String,
    pub city: String,
}

} // verus!
