use vstd::prelude::*;

use crate::error::{fails_transition, fails_validation, join_text, transition_error, validation_error, DomainError};
use crate::platform::{new_id, uuid_version};
use crate::text::{contains_char, is_blank, is_blank_spec, text_eq};

verus! {

/// Identifier of a user.
#[derive(Debug, Clone, Copy, PartialEq, Eq, Hash, Structural)]
pub struct UserId(pub u128);

impl UserId {
    /// A fresh time-ordered identifier.
    pub fn new() -> (id: UserId)
        ensures
            id.0 != 0,
            uuid_version(id.0) == 7,
    {
        UserId(new_id())
    }
}

impl Default for UserId {
    fn default() -> (id: UserId)
        ensures
            id.0 != 0,
            uuid_version(id.0) == 7,
    {
        UserId::new()
    }
}

/// Platform-wide role of a user.
#[derive(Debug, Clone, Copy, PartialEq, Eq, Hash, Structural)]
pub enum UserRole {
    Customer,
    Company,
    Courier,
    Admin,
    SuperAdmin,
    Operator,
    Dispatcher,
    FleetManager,
    Support,
}

impl UserRole {
    /// The canonical text of each variant.
    pub open spec fn name(self) -> Seq<char> {
        match self {
            UserRole::Customer => "customer"@,
            UserRole::Company => "company"@,
            UserRole::Courier => "courier"@,
            UserRole::Admin => "admin"@,
            UserRole::SuperAdmin => "super_admin"@,
            UserRole::Operator => "operator"@,
            UserRole::Dispatcher => "dispatcher"@,
            UserRole::FleetManager => "fleet_manager"@,
            UserRole::Support => "support"@,
        }
    }

    /// The variant whose canonical text is `value`, if any.
    pub open spec fn parse_spec(value: Seq<char>) -> Option<UserRole> {
        if value == "customer"@ {
            Some(UserRole::Customer)
        } else if value == "company"@ {
            Some(UserRole::Company)
        } else if value == "courier"@ {
            Some(UserRole::Courier)
        } else if value == "admin"@ {
            Some(UserRole::Admin)
        } else if value == "super_admin"@ {
            Some(UserRole::SuperAdmin)
        } else if value == "operator"@ {
            Some(UserRole::Operator)
        } else if value == "dispatcher"@ {
            Some(UserRole::Dispatcher)
        } else if value == "fleet_manager"@ {
            Some(UserRole::FleetManager)
        } else if value == "support"@ {
            Some(UserRole::Support)
        } else {
            None
        }
    }

    /// The message of the error for an unknown text.
    pub open spec fn unknown_message(value: Seq<char>) -> Seq<char> {
        "unknown user role: "@ + value
    }

    pub fn as_str(&self) -> (s: &'static str)
        ensures
            s@ == self.name(),
    {
        match self {
            UserRole::Customer => "customer",
            UserRole::Company => "company",
            UserRole::Courier => "courier",
            UserRole::Admin => "admin",
            UserRole::SuperAdmin => "super_admin",
            UserRole::Operator => "operator",
            UserRole::Dispatcher => "dispatcher",
            UserRole::FleetManager => "fleet_manager",
            UserRole::Support => "support",
        }
    }

    /// Parses the canonical text of a variant.
    pub fn parse(value: &str) -> (r: Result<UserRole, DomainError>)
        ensures
            match UserRole::parse_spec(value@) {
                Some(s) => r == Ok::<UserRole, DomainError>(s),
                None => fails_validation(r, UserRole::unknown_message(value@)),
            },
    {
        if text_eq(value, "customer") {
            Ok(UserRole::Customer)
        } else if text_eq(value, "company") {
            Ok(UserRole::Company)
        } else if text_eq(value, "courier") {
            Ok(UserRole::Courier)
        } else if text_eq(value, "admin") {
            Ok(UserRole::Admin)
        } else if text_eq(value, "super_admin") {
            Ok(UserRole::SuperAdmin)
        } else if text_eq(value, "operator") {
            Ok(UserRole::Operator)
        } else if text_eq(value, "dispatcher") {
            Ok(UserRole::Dispatcher)
        } else if text_eq(value, "fleet_manager") {
            Ok(UserRole::FleetManager)
        } else if text_eq(value, "support") {
            Ok(UserRole::Support)
        } else {
            Err(DomainError::validation(join_text("unknown user role: ", value)))
        }
    }
}

impl std::str::FromStr for UserRole {
    type Err = DomainError;

    fn from_str(value: &str) -> (r: Result<UserRole, DomainError>)
        ensures
            match UserRole::parse_spec(value@) {
                Some(s) => r == Ok::<UserRole, DomainError>(s),
                None => fails_validation(r, UserRole::unknown_message(value@)),
            },
    {
        UserRole::parse(value)
    }
}

/// Every variant's canonical text parses back to that variant.
pub proof fn lemma_user_role_text_round_trip(s: UserRole)
    ensures
        UserRole::parse_spec(s.name()) == Some(s),
{
    reveal_strlit("customer");
    reveal_strlit("company");
    reveal_strlit("courier");
    reveal_strlit("admin");
    reveal_strlit("super_admin");
    reveal_strlit("operator");
    reveal_strlit("dispatcher");
    reveal_strlit("fleet_manager");
    reveal_strlit("support");
    assert("customer"@.len() != "company"@.len());
    assert("customer"@.len() != "courier"@.len());
    assert("customer"@.len() != "admin"@.len());
    assert("customer"@.len() != "super_admin"@.len());
    assert("customer"@[0] != "operator"@[0]);
    assert("customer"@.len() != "dispatcher"@.len());
    assert("customer"@.len() != "fleet_manager"@.len());
    assert("customer"@.len() != "support"@.len());
    assert("company"@[2] != "courier"@[2]);
    assert("company"@.len() != "admin"@.len());
    assert("company"@.len() != "super_admin"@.len());
    assert("company"@.len() != "operator"@.len());
    assert("company"@.len() != "dispatcher"@.len());
    assert("company"@.len() != "fleet_manager"@.len());
    assert("company"@[0] != "support"@[0]);
    assert("courier"@.len() != "admin"@.len());
    assert("courier"@.len() != "super_admin"@.len());
    assert("courier"@.len() != "operator"@.len());
    assert("courier"@.len() != "dispatcher"@.len());
    assert("courier"@.len() != "fleet_manager"@.len());
    assert("courier"@[0] != "support"@[0]);
    assert("admin"@.len() != "super_admin"@.len());
    assert("admin"@.len() != "operator"@.len());
    assert("admin"@.len() != "dispatcher"@.len());
    assert("admin"@.len() != "fleet_manager"@.len());
    assert("admin"@.len() != "support"@.len());
    assert("super_admin"@.len() != "operator"@.len());
    assert("super_admin"@.len() != "dispatcher"@.len());
    assert("super_admin"@.len() != "fleet_manager"@.len());
    assert("super_admin"@.len() != "support"@.len());
    assert("operator"@.len() != "dispatcher"@.len());
    assert("operator"@.len() != "fleet_manager"@.len());
    assert("operator"@.len() != "support"@.len());
    assert("dispatcher"@.len() != "fleet_manager"@.len());
    assert("dispatcher"@.len() != "support"@.len());
    assert("fleet_manager"@.len() != "support"@.len());
}

impl UserRole {
    pub fn is_admin(&self) -> (b: bool)
        ensures
            b == (*self == UserRole::Admin || *self == UserRole::SuperAdmin),
    {
        *self == UserRole::Admin || *self == UserRole::SuperAdmin
    }
}

/// Account state of a user.
#[derive(Debug, Clone, Copy, PartialEq, Eq, Hash, Structural)]
pub enum UserStatus {
    Active,
    Suspended,
    Deleted,
}

impl UserStatus {
    /// The canonical text of each variant.
    pub open spec fn name(self) -> Seq<char> {
        match self {
            UserStatus::Active => "active"@,
            UserStatus::Suspended => "suspended"@,
            UserStatus::Deleted => "deleted"@,
        }
    }

    /// The variant whose canonical text is `value`, if any.
    pub open spec fn parse_spec(value: Seq<char>) -> Option<UserStatus> {
        if value == "active"@ {
            Some(UserStatus::Active)
        } else if value == "suspended"@ {
            Some(UserStatus::Suspended)
        } else if value == "deleted"@ {
            Some(UserStatus::Deleted)
        } else {
            None
        }
    }

    /// The message of the error for an unknown text.
    pub open spec fn unknown_message(value: Seq<char>) -> Seq<char> {
        "unknown user status: "@ + value
    }

    pub fn as_str(&self) -> (s: &'static str)
        ensures
            s@ == self.name(),
    {
        match self {
            UserStatus::Active => "active",
            UserStatus::Suspended => "suspended",
            UserStatus::Deleted => "deleted",
        }
    }

    /// Parses the canonical text of a variant.
    pub fn parse(value: &str) -> (r: Result<UserStatus, DomainError>)
        ensures
            match UserStatus::parse_spec(value@) {
                Some(s) => r == Ok::<UserStatus, DomainError>(s),
                None => fails_validation(r, UserStatus::unknown_message(value@)),
            },
    {
        if text_eq(value, "active") {
            Ok(UserStatus::Active)
        } else if text_eq(value, "suspended") {
            Ok(UserStatus::Suspended)
        } else if text_eq(value, "deleted") {
            Ok(UserStatus::Deleted)
        } else {
            Err(DomainError::validation(join_text("unknown user status: ", value)))
        }
    }
}

impl std::str::FromStr for UserStatus {
    type Err = DomainError;

    fn from_str(value: &str) -> (r: Result<UserStatus, DomainError>)
        ensures
            match UserStatus::parse_spec(value@) {
                Some(s) => r == Ok::<UserStatus, DomainError>(s),
                None => fails_validation(r, UserStatus::unknown_message(value@)),
            },
    {
        UserStatus::parse(value)
    }
}

/// Every variant's canonical text parses back to that variant.
pub proof fn lemma_user_status_text_round_trip(s: UserStatus)
    ensures
        UserStatus::parse_spec(s.name()) == Some(s),
{
    reveal_strlit("active");
    reveal_strlit("suspended");
    reveal_strlit("deleted");
    assert("active"@.len() != "suspended"@.len());
    assert("active"@.len() != "deleted"@.len());
    assert("suspended"@.len() != "deleted"@.len());
}

/// A user account. `created_at` is in microseconds since the Unix epoch.
#[derive(Debug, Clone, PartialEq)]
pub struct User {
    pub id: UserId,
    pub email: String,
    pub phone: Option<String>,
    pub display_name: String,
    pub role: UserRole,
    pub status: UserStatus,
    pub created_at: i64,
}

/// The message of the first check that `User::create` fails, if any.
pub open spec fn user_error(email: Seq<char>, display_name: Seq<char>) -> Option<Seq<char>> {
    if is_blank_spec(email) || !email.contains('@') {
        Some("a valid email is required"@)
    } else if is_blank_spec(display_name) {
        Some("display name is required"@)
    } else {
        None
    }
}

impl User {
    /// An active user with a plausible email and a display name.
    pub fn create(id: UserId, email: &str, display_name: &str, role: UserRole, now: i64) -> (r:
        Result<User, DomainError>)
        ensures
            match user_error(email@, display_name@) {
                Some(m) => fails_validation(r, m),
                None => r matches Ok(u) && u.id == id && u.email@ == email@ && u.phone is None
                    && u.display_name@ == display_name@ && u.role == role && u.status
                    == UserStatus::Active && u.created_at == now,
            },
    {
        if is_blank(email) || !contains_char(email, '@') {
            return Err(validation_error("a valid email is required"));
        }
        if is_blank(display_name) {
            return Err(validation_error("display name is required"));
        }
        Ok(
            User {
                id,
                email: email.to_owned(),
                phone: None,
                display_name: display_name.to_owned(),
                role,
                status: UserStatus::Active,
                created_at: now,
            },
        )
    }

    pub fn set_phone(&mut self, phone: &str)
        ensures
            final(self).phone matches Some(p) && p@ == phone@,
            *final(self) == (User { phone: final(self).phone, ..*old(self) }),
    {
        self.phone = Some(phone.to_owned());
    }

    /// Active -> Suspended.
    pub fn suspend(&mut self) -> (r: Result<(), DomainError>)
        ensures
            old(self).status == UserStatus::Active ==> r is Ok && *final(self) == (User {
                status: UserStatus::Suspended,
                ..*old(self)
            }),
            old(self).status != UserStatus::Active ==> *final(self) == *old(self)
                && fails_transition(r, "cannot suspend a "@ + old(self).status.name() + " user"@),
    {
        if self.status != UserStatus::Active {
            return Err(
                DomainError::invalid_transition(
                    join_text("cannot suspend a ", self.status.as_str()).concat(" user"),
                ),
            );
        }
        self.status = UserStatus::Suspended;
        Ok(())
    }

    /// Suspended -> Active.
    pub fn reactivate(&mut self) -> (r: Result<(), DomainError>)
        ensures
            old(self).status == UserStatus::Suspended ==> r is Ok && *final(self) == (User {
                status: UserStatus::Active,
                ..*old(self)
            }),
            old(self).status != UserStatus::Suspended ==> *final(self) == *old(self)
                && fails_transition(
                r,
                "can only reactivate a suspended user, current status: "@ + old(self).status.name(),
            ),
    {
        if self.status != UserStatus::Suspended {
            return Err(
                DomainError::invalid_transition(
                    join_text(
                        "can only reactivate a suspended user, current status: ",
                        self.status.as_str(),
                    ),
                ),
            );
        }
        self.status = UserStatus::Active;
        Ok(())
    }

    /// Any status but Deleted -> Deleted.
    pub fn soft_delete(&mut self) -> (r: Result<(), DomainError>)
        ensures
            old(self).status != UserStatus::Deleted ==> r is Ok && *final(self) == (User {
                status: UserStatus::Deleted,
                ..*old(self)
            }),
            old(self).status == UserStatus::Deleted ==> *final(self) == *old(self)
                && fails_transition(r, "user is already deleted"@),
    {
        if self.status == UserStatus::Deleted {
            return Err(transition_error("user is already deleted"));
        }
        self.status = UserStatus::Deleted;
        Ok(())
    }

    pub fn change_role(&mut self, new_role: UserRole)
        ensures
            *final(self) == (User { role: new_role, ..*old(self) }),
    {
        self.role = new_role;
    }

    pub fn is_active(&self) -> (b: bool)
        ensures
            b == (self.status == UserStatus::Active),
    {
        self.status == UserStatus::Active
    }
}

} // verus!
