//! Support desk rules: ticket fields, lifecycle updates, comments, attachments and SLA policies.
use crate::api::error::ApiError;
use crate::kernel::{Timestamp, UserId};
use crate::text::{byte_len, str_equals, trim, trim_seq};
use crate::ticket::{
    parse_priority, parse_status, transition_allowed, TicketPriority, TicketStatus,
};
use vstd::prelude::*;
use vstd::string::StringSliceAdditionalSpecFns;

verus! {

/// The trimmed value, if it holds `min` to `max` characters.
pub open spec fn bounded_text(value: Seq<char>, min: usize, max: usize) -> Option<Seq<char>> {
    let t = trim_seq(value);
    if min <= t.len() <= max {
        Some(t)
    } else {
        None
    }
}

/// A trimmed text field of `min` to `max` characters; `message` when it is not.
pub fn bounded(value: &str, min: usize, max: usize, message: &'static str) -> (r: Result<
    String,
    ApiError,
>)
    ensures
        match bounded_text(value@, min, max) {
            Some(t) => r matches Ok(s) && s@ == t,
            None => r == Err::<String, ApiError>(ApiError::BadRequest(message)),
        },
{
    let value = trim(value);
    let count = value.unicode_len();
    if min <= count && count <= max {
        Ok(value.to_owned())
    } else {
        Err(ApiError::BadRequest(message))
    }
}

/// The priority of a new ticket: `normal` unless one is given.
pub open spec fn requested_priority(priority: Option<Seq<char>>) -> Seq<char> {
    match priority {
        Some(p) => p,
        None => "normal"@,
    }
}

/// A new ticket: a subject of 1 to 200 characters, a description of 1 to 20 000 characters and a
/// known priority. Gives back the subject, description and priority to store.
pub fn validate_new_ticket(subject: &str, description: &str, priority: Option<&str>) -> (r: Result<
    (String, String, String),
    ApiError,
>)
    ensures
        ({
            let p = requested_priority(match priority {
                Some(p) => Some(p@),
                None => None,
            });
            match (bounded_text(subject@, 1, 200), bounded_text(description@, 1, 20_000)) {
                (None, _) => r == Err::<(String, String, String), ApiError>(
                    ApiError::BadRequest("invalid ticket subject"),
                ),
                (Some(_), None) => r == Err::<(String, String, String), ApiError>(
                    ApiError::BadRequest("invalid ticket description"),
                ),
                (Some(s), Some(d)) => if parse_priority(p) is Err {
                    r == Err::<(String, String, String), ApiError>(
                        ApiError::BadRequest("invalid ticket priority"),
                    )
                } else {
                    r matches Ok((s2, d2, p2)) && s2@ == s && d2@ == d && p2@ == p
                },
            }
        }),
{
    let subject = bounded(subject, 1, 200, "invalid ticket subject")?;
    let description = bounded(description, 1, 20_000, "invalid ticket description")?;
    let priority = match priority {
        Some(p) => p,
        None => "normal",
    };
    if TicketPriority::parse(priority).is_err() {
        return Err(ApiError::BadRequest("invalid ticket priority"));
    }
    Ok((subject, description, priority.to_owned()))
}

/// The response and resolution minutes of a new ticket: those of the default SLA policy, or one
/// hour and one day.
pub fn sla_minutes(default_policy: Option<(i32, i32)>) -> (r: (i32, i32))
    ensures
        r == match default_policy {
            Some(p) => p,
            None => (60i32, 1440i32),
        },
{
    match default_policy {
        Some(p) => p,
        None => (60, 1440),
    }
}

/// An update must name the version it was made against.
pub fn check_ticket_version(stored: i32, requested: i32) -> (r: Result<(), ApiError>)
    ensures
        r == if stored == requested {
            Ok::<(), ApiError>(())
        } else {
            Err(ApiError::Conflict("ticket was modified; refresh and retry"))
        },
{
    if stored != requested {
        Err(ApiError::Conflict("ticket was modified; refresh and retry"))
    } else {
        Ok(())
    }
}

/// Whether a status ends the work on a ticket, which stamps its resolution time.
pub open spec fn resolves(status: TicketStatus) -> bool {
    status == TicketStatus::Resolved || status == TicketStatus::Closed
}

/// A status change: the stored status must parse, the requested one must be a status, and the
/// lifecycle must allow the move. Gives back the new status and its resolution time: `now` for a
/// resolved or closed ticket, none otherwise.
pub fn status_change(stored: &str, requested: &str, now: Timestamp) -> (r: Result<
    (TicketStatus, Option<Timestamp>),
    ApiError,
>)
    ensures
        r == match (parse_status(stored@), parse_status(requested@)) {
            (Err(_), _) => Err(ApiError::Internal),
            (Ok(_), Err(_)) => Err(ApiError::BadRequest("invalid ticket status")),
            (Ok(current), Ok(next)) => if !transition_allowed(current, next) {
                Err(ApiError::Conflict("invalid ticket status transition"))
            } else {
                Ok(
                    (
                        next,
                        if resolves(next) {
                            Some(now)
                        } else {
                            None
                        },
                    ),
                )
            },
        },
{
    let current = match TicketStatus::parse(stored) {
        Ok(s) => s,
        Err(_) => {
            return Err(ApiError::Internal);
        },
    };
    let next = match TicketStatus::parse(requested) {
        Ok(s) => s,
        Err(_) => {
            return Err(ApiError::BadRequest("invalid ticket status"));
        },
    };
    if current.transition_to(next).is_err() {
        return Err(ApiError::Conflict("invalid ticket status transition"));
    }
    let resolved_at = match next {
        TicketStatus::Resolved | TicketStatus::Closed => Some(now),
        _ => None,
    };
    Ok((next, resolved_at))
}

/// A priority change must name a priority.
pub fn check_priority(priority: &str) -> (r: Result<(), ApiError>)
    ensures
        r is Ok <==> parse_priority(priority@) is Ok,
        r is Err ==> r == Err::<(), ApiError>(ApiError::BadRequest("invalid ticket priority")),
{
    if TicketPriority::parse(priority).is_err() {
        Err(ApiError::BadRequest("invalid ticket priority"))
    } else {
        Ok(())
    }
}

/// The user to notify of an assignment: the new assignee, when there is one and it changed.
pub fn assignment_notification(before: Option<UserId>, after: Option<UserId>) -> (r: Option<UserId>)
    ensures
        r == if after is Some && after != before {
            after
        } else {
            None
        },
{
    match after {
        Some(a) => match before {
            Some(b) => if a.0 == b.0 {
                None
            } else {
                Some(a)
            },
            None => Some(a),
        },
        None => None,
    }
}

/// Who is notified of a new comment: the requester unless they wrote it, and the assignee unless
/// they wrote it or are the requester.
pub fn comment_recipients(requester: UserId, assignee: Option<UserId>, author: UserId) -> (r: Vec<
    UserId,
>)
    ensures
        r@ == (if requester != author {
            seq![requester]
        } else {
            Seq::empty()
        }) + match assignee {
            Some(a) => if a != author && a != requester {
                seq![a]
            } else {
                Seq::empty()
            },
            None => Seq::empty(),
        },
{
    let mut r: Vec<UserId> = Vec::new();
    if requester.0 != author.0 {
        r.push(requester);
    }
    let ghost first = r@;
    if let Some(a) = assignee {
        if a.0 != author.0 && a.0 != requester.0 {
            r.push(a);
            proof {
                assert(r@ == first + seq![a]);
            }
        } else {
            proof {
                assert(r@ == first + Seq::<UserId>::empty());
            }
        }
    } else {
        proof {
            assert(r@ == first + Seq::<UserId>::empty());
        }
    }
    r
}

/// A comment by anyone but the requester is the first response, if there was none yet.
pub fn marks_first_response(already_responded: bool, requester: UserId, author: UserId) -> (r: bool)
    ensures
        r == (!already_responded && author != requester),
{
    !already_responded && author.0 != requester.0
}

/// The visibility of a comment (`public` unless asked) with the permission it needs: internal
/// comments need ticket management, public ones the comment permission.
pub fn comment_visibility(visibility: Option<&str>) -> (r: Result<
    (&'static str, &'static str),
    ApiError,
>)
    ensures
        match visibility {
            None => r == Ok::<(&'static str, &'static str), ApiError>(
                ("public", crate::authorization::permissions::TICKET_COMMENT),
            ),
            Some(v) => r == if v@ == "public"@ {
                Ok::<(&'static str, &'static str), ApiError>(
                    ("public", crate::authorization::permissions::TICKET_COMMENT),
                )
            } else if v@ == "internal"@ {
                Ok(("internal", crate::authorization::permissions::TICKET_MANAGE))
            } else {
                Err(ApiError::BadRequest("invalid comment visibility"))
            },
        },
{
    match visibility {
        None => Ok(("public", crate::authorization::permissions::TICKET_COMMENT)),
        Some(v) => {
            if str_equals(v, "public") {
                Ok(("public", crate::authorization::permissions::TICKET_COMMENT))
            } else if str_equals(v, "internal") {
                Ok(("internal", crate::authorization::permissions::TICKET_MANAGE))
            } else {
                Err(ApiError::BadRequest("invalid comment visibility"))
            }
        },
    }
}

/// What an attachment belongs to.
#[derive(Clone, Copy, Debug, PartialEq, Eq, Structural)]
pub enum AttachmentOwner {
    Ticket,
    Comment,
}

/// The owner of an attachment: the ticket itself, or one of its comments (which the caller must
/// then find).
pub fn attachment_owner(owner_type: &str, owner_id: u128, ticket_id: u128) -> (r: Result<
    AttachmentOwner,
    ApiError,
>)
    ensures
        r == if owner_type@ == "ticket"@ && owner_id != ticket_id {
            Err(ApiError::BadRequest("attachment owner does not match ticket"))
        } else if owner_type@ == "ticket_comment"@ {
            Ok(AttachmentOwner::Comment)
        } else if owner_type@ != "ticket"@ {
            Err(ApiError::BadRequest("invalid attachment owner"))
        } else {
            Ok(AttachmentOwner::Ticket)
        },
{
    let is_ticket = str_equals(owner_type, "ticket");
    if is_ticket && owner_id != ticket_id {
        return Err(ApiError::BadRequest("attachment owner does not match ticket"));
    }
    if str_equals(owner_type, "ticket_comment") {
        Ok(AttachmentOwner::Comment)
    } else if !is_ticket {
        Err(ApiError::BadRequest("invalid attachment owner"))
    } else {
        Ok(AttachmentOwner::Ticket)
    }
}

/// The comment an attachment belongs to must exist on the ticket.
pub fn check_comment_found(found: bool) -> (r: Result<(), ApiError>)
    ensures
        r == if found {
            Ok::<(), ApiError>(())
        } else {
            Err(ApiError::BadRequest("attachment comment was not found"))
        },
{
    if !found {
        Err(ApiError::BadRequest("attachment comment was not found"))
    } else {
        Ok(())
    }
}

/// A SHA-256 checksum in lowercase hex: 64 bytes of `0-9a-f`.
pub open spec fn lowercase_sha256_hex(b: Seq<u8>) -> bool {
    &&& b.len() == 64
    &&& forall|i: int| 0 <= i < b.len() ==> (48 <= #[trigger] b[i] <= 57) || (97 <= b[i] <= 102)
}

fn is_lowercase_sha256_hex(checksum: &str) -> (r: bool)
    ensures
        r == lowercase_sha256_hex(checksum.spec_bytes()),
{
    let bytes = checksum.as_bytes();
    if bytes.len() != 64 {
        return false;
    }
    let mut i: usize = 0;
    while i < 64
        invariant
            bytes@ == checksum.spec_bytes(),
            bytes@.len() == 64,
            i <= 64,
            forall|j: int| 0 <= j < i ==> (48 <= #[trigger] bytes@[j] <= 57) || (97 <= bytes@[j]
                <= 102),
        decreases 64 - i,
    {
        let b = bytes[i];
        if !((48 <= b && b <= 57) || (97 <= b && b <= 102)) {
            return false;
        }
        i += 1;
    }
    true
}

/// The metadata of an attachment: a filename of 1 to 255 characters, a content type of 1 to 160
/// characters, 1 byte to 100 MiB, and a lowercase hex SHA-256 checksum. Gives back the trimmed
/// filename and content type.
pub fn validate_attachment_metadata(
    filename: &str,
    content_type: &str,
    size_bytes: i64,
    checksum_sha256: &str,
) -> (r: Result<(String, String), ApiError>)
    ensures
        match (bounded_text(filename@, 1, 255), bounded_text(content_type@, 1, 160)) {
            (None, _) => r == Err::<(String, String), ApiError>(
                ApiError::BadRequest("invalid attachment filename"),
            ),
            (Some(_), None) => r == Err::<(String, String), ApiError>(
                ApiError::BadRequest("invalid attachment content type"),
            ),
            (Some(f), Some(c)) => if 1 <= size_bytes <= 104_857_600 && lowercase_sha256_hex(
                checksum_sha256.spec_bytes(),
            ) {
                r matches Ok((f2, c2)) && f2@ == f && c2@ == c
            } else {
                r == Err::<(String, String), ApiError>(
                    ApiError::BadRequest("invalid attachment metadata"),
                )
            },
        },
{
    let filename = bounded(filename, 1, 255, "invalid attachment filename")?;
    let content_type = bounded(content_type, 1, 160, "invalid attachment content type")?;
    if !(1 <= size_bytes && size_bytes <= 104_857_600) || !is_lowercase_sha256_hex(
        checksum_sha256,
    ) {
        return Err(ApiError::BadRequest("invalid attachment metadata"));
    }
    Ok((filename, content_type))
}

/// An SLA policy: a response target of at least one minute, a resolution target no sooner than
/// the response and at most a year, and a name of 1 to 120 characters. Gives back the name.
pub fn validate_sla_policy(name: &str, response_minutes: i32, resolution_minutes: i32) -> (r: Result<
    String,
    ApiError,
>)
    ensures
        if response_minutes < 1 || resolution_minutes < response_minutes || resolution_minutes
            > 525_600 {
            r == Err::<String, ApiError>(ApiError::BadRequest("invalid SLA targets"))
        } else {
            match bounded_text(name@, 1, 120) {
                Some(n) => r matches Ok(s) && s@ == n,
                None => r == Err::<String, ApiError>(ApiError::BadRequest("invalid SLA name")),
            }
        },
{
    if response_minutes < 1 || resolution_minutes < response_minutes || resolution_minutes
        > 525_600 {
        return Err(ApiError::BadRequest("invalid SLA targets"));
    }
    bounded(name, 1, 120, "invalid SLA name")
}

/// How many tickets a listing shows.
pub const TICKET_LIST_LIMIT: u64 = 200;

/// How many notifications a listing shows.
pub const NOTIFICATION_LIST_LIMIT: u64 = 100;

/// A ticket must exist in the caller's organization.
pub fn check_ticket_found(found: bool) -> (r: Result<(), ApiError>)
    ensures
        r == if found {
            Ok::<(), ApiError>(())
        } else {
            Err::<(), ApiError>(ApiError::BadRequest("ticket was not found"))
        },
{
    if found {
        Ok(())
    } else {
        Err(ApiError::BadRequest("ticket was not found"))
    }
}

/// A ticket is assigned only to an active member of its organization.
pub fn check_assignee(active_member: bool) -> (r: Result<(), ApiError>)
    ensures
        r == if active_member {
            Ok::<(), ApiError>(())
        } else {
            Err::<(), ApiError>(ApiError::BadRequest("assignee is not an active organization member"))
        },
{
    if active_member {
        Ok(())
    } else {
        Err(ApiError::BadRequest("assignee is not an active organization member"))
    }
}

/// A notification is read only by its recipient.
pub fn check_notification_found(found: bool) -> (r: Result<(), ApiError>)
    ensures
        r == if found {
            Ok::<(), ApiError>(())
        } else {
            Err::<(), ApiError>(ApiError::BadRequest("notification was not found"))
        },
{
    if found {
        Ok(())
    } else {
        Err(ApiError::BadRequest("notification was not found"))
    }
}

/// Only those who manage tickets see internal comments.
pub fn shows_internal_comments(granted: &Vec<String>) -> (r: bool)
    ensures
        r == exists|i: int|
            0 <= i < granted@.len() && (#[trigger] granted@[i])@
                == crate::authorization::permissions::TICKET_MANAGE@,
{
    crate::api::authorization::permission_granted(granted, crate::authorization::permissions::TICKET_MANAGE)
}

} // verus!
