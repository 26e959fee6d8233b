use vstd::prelude::*;

use crate::error::{fails_transition, fails_validation, join_text, validation_error, DomainError};
use crate::platform::{new_id, uuid_version};
use crate::text::{is_blank, is_blank_spec, text_eq};

verus! {

/// Identifier of a notification.
#[derive(Debug, Clone, Copy, PartialEq, Eq, Hash, Structural)]
pub struct NotificationId(pub u128);

impl NotificationId {
    /// A fresh time-ordered identifier.
    pub fn new() -> (id: NotificationId)
        ensures
            id.0 != 0,
            uuid_version(id.0) == 7,
    {
        NotificationId(new_id())
    }
}

impl Default for NotificationId {
    fn default() -> (id: NotificationId)
        ensures
            id.0 != 0,
            uuid_version(id.0) == 7,
    {
        NotificationId::new()
    }
}

/// Delivery channel of a notification.
#[derive(Debug, Clone, Copy, PartialEq, Eq, Hash, Structural)]
pub enum NotificationChannel {
    Push,
    Sms,
    Email,
    WhatsApp,
}

impl NotificationChannel {
    /// The canonical text of each variant.
    pub open spec fn name(self) -> Seq<char> {
        match self {
            NotificationChannel::Push => "push"@,
            NotificationChannel::Sms => "sms"@,
            NotificationChannel::Email => "email"@,
            NotificationChannel::WhatsApp => "whatsapp"@,
        }
    }

    /// The variant whose canonical text is `value`, if any.
    pub open spec fn parse_spec(value: Seq<char>) -> Option<NotificationChannel> {
        if value == "push"@ {
            Some(NotificationChannel::Push)
        } else if value == "sms"@ {
            Some(NotificationChannel::Sms)
        } else if value == "email"@ {
            Some(NotificationChannel::Email)
        } else if value == "whatsapp"@ {
            Some(NotificationChannel::WhatsApp)
        } else {
            None
        }
    }

    /// The message of the error for an unknown text.
    pub open spec fn unknown_message(value: Seq<char>) -> Seq<char> {
        "unknown notification channel: "@ + value
    }

    pub fn as_str(&self) -> (s: &'static str)
        ensures
            s@ == self.name(),
    {
        match self {
            NotificationChannel::Push => "push",
            NotificationChannel::Sms => "sms",
            NotificationChannel::Email => "email",
            NotificationChannel::WhatsApp => "whatsapp",
        }
    }

    /// Parses the canonical text of a variant.
    pub fn parse(value: &str) -> (r: Result<NotificationChannel, DomainError>)
        ensures
            match NotificationChannel::parse_spec(value@) {
                Some(s) => r == Ok::<NotificationChannel, DomainError>(s),
                None => fails_validation(r, NotificationChannel::unknown_message(value@)),
            },
    {
        if text_eq(value, "push") {
            Ok(NotificationChannel::Push)
        } else if text_eq(value, "sms") {
            Ok(NotificationChannel::Sms)
        } else if text_eq(value, "email") {
            Ok(NotificationChannel::Email)
        } else if text_eq(value, "whatsapp") {
            Ok(NotificationChannel::WhatsApp)
        } else {
            Err(DomainError::validation(join_text("unknown notification channel: ", value)))
        }
    }
}

impl std::str::FromStr for NotificationChannel {
    type Err = DomainError;

    fn from_str(value: &str) -> (r: Result<NotificationChannel, DomainError>)
        ensures
            match NotificationChannel::parse_spec(value@) {
                Some(s) => r == Ok::<NotificationChannel, DomainError>(s),
                None => fails_validation(r, NotificationChannel::unknown_message(value@)),
            },
    {
        NotificationChannel::parse(value)
    }
}

/// Every variant's canonical text parses back to that variant.
pub proof fn lemma_notification_channel_text_round_trip(s: NotificationChannel)
    ensures
        NotificationChannel::parse_spec(s.name()) == Some(s),
{
    reveal_strlit("push");
    reveal_strlit("sms");
    reveal_strlit("email");
    reveal_strlit("whatsapp");
    assert("push"@.len() != "sms"@.len());
    assert("push"@.len() != "email"@.len());
    assert("push"@.len() != "whatsapp"@.len());
    assert("sms"@.len() != "email"@.len());
    assert("sms"@.len() != "whatsapp"@.len());
    assert("email"@.len() != "whatsapp"@.len());
}

/// Delivery state of a notification.
#[derive(Debug, Clone, Copy, PartialEq, Eq, Hash, Structural)]
pub enum NotificationStatus {
    Queued,
    Sent,
    Failed,
    Read,
}

impl NotificationStatus {
    /// The canonical text of each variant.
    pub open spec fn name(self) -> Seq<char> {
        match self {
            NotificationStatus::Queued => "queued"@,
            NotificationStatus::Sent => "sent"@,
            NotificationStatus::Failed => "failed"@,
            NotificationStatus::Read => "read"@,
        }
    }

    /// The variant whose canonical text is `value`, if any.
    pub open spec fn parse_spec(value: Seq<char>) -> Option<NotificationStatus> {
        if value == "queued"@ {
            Some(NotificationStatus::Queued)
        } else if value == "sent"@ {
            Some(NotificationStatus::Sent)
        } else if value == "failed"@ {
            Some(NotificationStatus::Failed)
        } else if value == "read"@ {
            Some(NotificationStatus::Read)
        } else {
            None
        }
    }

    /// The message of the error for an unknown text.
    pub open spec fn unknown_message(value: Seq<char>) -> Seq<char> {
        "unknown notification status: "@ + value
    }

    pub fn as_str(&self) -> (s: &'static str)
        ensures
            s@ == self.name(),
    {
        match self {
            NotificationStatus::Queued => "queued",
            NotificationStatus::Sent => "sent",
            NotificationStatus::Failed => "failed",
            NotificationStatus::Read => "read",
        }
    }

    /// Parses the canonical text of a variant.
    pub fn parse(value: &str) -> (r: Result<NotificationStatus, DomainError>)
        ensures
            match NotificationStatus::parse_spec(value@) {
                Some(s) => r == Ok::<NotificationStatus, DomainError>(s),
                None => fails_validation(r, NotificationStatus::unknown_message(value@)),
            },
    {
        if text_eq(value, "queued") {
            Ok(NotificationStatus::Queued)
        } else if text_eq(value, "sent") {
            Ok(NotificationStatus::Sent)
        } else if text_eq(value, "failed") {
            Ok(NotificationStatus::Failed)
        } else if text_eq(value, "read") {
            Ok(NotificationStatus::Read)
        } else {
            Err(DomainError::validation(join_text("unknown notification status: ", value)))
        }
    }
}

impl std::str::FromStr for NotificationStatus {
    type Err = DomainError;

    fn from_str(value: &str) -> (r: Result<NotificationStatus, DomainError>)
        ensures
            match NotificationStatus::parse_spec(value@) {
                Some(s) => r == Ok::<NotificationStatus, DomainError>(s),
                None => fails_validation(r, NotificationStatus::unknown_message(value@)),
            },
    {
        NotificationStatus::parse(value)
    }
}

/// Every variant's canonical text parses back to that variant.
pub proof fn lemma_notification_status_text_round_trip(s: NotificationStatus)
    ensures
        NotificationStatus::parse_spec(s.name()) == Some(s),
{
    reveal_strlit("queued");
    reveal_strlit("sent");
    reveal_strlit("failed");
    reveal_strlit("read");
    assert("queued"@.len() != "sent"@.len());
    assert("queued"@[0] != "failed"@[0]);
    assert("queued"@.len() != "read"@.len());
    assert("sent"@.len() != "failed"@.len());
    assert("sent"@[0] != "read"@[0]);
    assert("failed"@.len() != "read"@.len());
}

/// A notification to a recipient. Timestamps are microseconds since the Unix epoch.
#[derive(Debug, Clone, PartialEq)]
pub struct Notification {
    pub id: NotificationId,
    pub recipient_id: u128,
    pub channel: NotificationChannel,
    pub title: String,
    pub body: String,
    pub status: NotificationStatus,
    pub created_at: i64,
    pub sent_at: Option<i64>,
}

/// The message of the first check that `Notification::create` fails, if any.
pub open spec fn notification_error(recipient_id: u128, title: Seq<char>, body: Seq<char>) -> Option<
    Seq<char>,
> {
    if recipient_id == 0 {
        Some("recipient id is required"@)
    } else if is_blank_spec(title) {
        Some("notification title is required"@)
    } else if is_blank_spec(body) {
        Some("notification body is required"@)
    } else {
        None
    }
}

impl Notification {
    /// A queued notification with a recipient, a title and a body.
    pub fn create(
        id: NotificationId,
        recipient_id: u128,
        channel: NotificationChannel,
        title: &str,
        body: &str,
        now: i64,
    ) -> (r: Result<Notification, DomainError>)
        ensures
            match notification_error(recipient_id, title@, body@) {
                Some(m) => fails_validation(r, m),
                None => r matches Ok(n) && n.id == id && n.recipient_id == recipient_id
                    && n.channel == channel && n.title@ == title@ && n.body@ == body@ && n.status
                    == NotificationStatus::Queued && n.created_at == now && n.sent_at is None,
            },
    {
        if recipient_id == 0 {
            return Err(validation_error("recipient id is required"));
        }
        if is_blank(title) {
            return Err(validation_error("notification title is required"));
        }
        if is_blank(body) {
            return Err(validation_error("notification body is required"));
        }
        Ok(
            Notification {
                id,
                recipient_id,
                channel,
                title: title.to_owned(),
                body: body.to_owned(),
                status: NotificationStatus::Queued,
                created_at: now,
                sent_at: None,
            },
        )
    }

    /// Queued -> Sent, stamping `sent_at`.
    pub fn mark_sent(&mut self, now: i64) -> (r: Result<(), DomainError>)
        ensures
            old(self).status == NotificationStatus::Queued ==> r is Ok && *final(self) == (
            Notification { status: NotificationStatus::Sent, sent_at: Some(now), ..*old(self) }),
            old(self).status != NotificationStatus::Queued ==> *final(self) == *old(self)
                && fails_transition(
                r,
                "cannot mark "@ + old(self).status.name() + " notification as sent"@,
            ),
    {
        if self.status != NotificationStatus::Queued {
            return Err(
                DomainError::invalid_transition(
                    join_text("cannot mark ", self.status.as_str()).concat(" notification as sent"),
                ),
            );
        }
        self.status = NotificationStatus::Sent;
        self.sent_at = Some(now);
        Ok(())
    }

    /// Queued -> Failed.
    pub fn mark_failed(&mut self) -> (r: Result<(), DomainError>)
        ensures
            old(self).status == NotificationStatus::Queued ==> r is Ok && *final(self) == (
            Notification { status: NotificationStatus::Failed, ..*old(self) }),
            old(self).status != NotificationStatus::Queued ==> *final(self) == *old(self)
                && fails_transition(
                r,
                "cannot mark "@ + old(self).status.name() + " notification as failed"@,
            ),
    {
        if self.status != NotificationStatus::Queued {
            return Err(
                DomainError::invalid_transition(
                    join_text("cannot mark ", self.status.as_str()).concat(
                        " notification as failed",
                    ),
                ),
            );
        }
        self.status = NotificationStatus::Failed;
        Ok(())
    }

    /// Sent -> Read.
    pub fn mark_read(&mut self) -> (r: Result<(), DomainError>)
        ensures
            old(self).status == NotificationStatus::Sent ==> r is Ok && *final(self) == (
            Notification { status: NotificationStatus::Read, ..*old(self) }),
            old(self).status != NotificationStatus::Sent ==> *final(self) == *old(self)
                && fails_transition(
                r,
                "cannot mark "@ + old(self).status.name() + " notification as read"@,
            ),
    {
        if self.status != NotificationStatus::Sent {
            return Err(
                DomainError::invalid_transition(
                    join_text("cannot mark ", self.status.as_str()).concat(" notification as read"),
                ),
            );
        }
        self.status = NotificationStatus::Read;
        Ok(())
    }
}

} // verus!
