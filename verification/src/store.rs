//! The record that the webhook store keeps for each webhook.
use vstd::prelude::*;
use vstd::string::*;

verus! {

/// Fewest characters that a webhook's id may have: the id is the only
/// secret that guards the room.
pub const MIN_ID_LEN: usize = 32;

/// A webhook: the id it is posted to, the room it posts into and the user who
/// made it.
#[derive(Debug, Clone, PartialEq, Eq)]
pub struct Webhook {
    pub id: String,
    pub room_id: String,
    pub user_id: String,
    pub label: Option<String>,
}

impl Webhook {
    /// Whether the record may be stored: its id is long enough.
    pub open spec fn well_formed(&self) -> bool {
        self.id@.len() >= MIN_ID_LEN
    }

    /// The record of a new webhook with the freshly drawn `id`, for `room_id`
    /// and `user_id`, without a label; `None` where `id` is too short to be
    /// issued.
    pub fn issue(id: String, room_id: &str, user_id: &str) -> (hook: Option<Webhook>)
        ensures
            hook is Some <==> id@.len() >= MIN_ID_LEN,
            hook is Some ==> {
                let h = hook.unwrap();
                &&& h.well_formed()
                &&& h.id == id
                &&& h.room_id@ == room_id@
                &&& h.user_id@ == user_id@
                &&& h.label is None
            },
    {
        if id.as_str().unicode_len() < MIN_ID_LEN {
            return None;
        }
        Some(Webhook { id, room_id: room_id.to_owned(), user_id: user_id.to_owned(), label: None })
    }

    /// Whether two records are the same in every field.
    pub fn same_as(&self, other: &Webhook) -> (same: bool)
        ensures
            same == (self.id@ == other.id@ && self.room_id@ == other.room_id@ && self.user_id@
                == other.user_id@ && match (self.label, other.label) {
                (Some(a), Some(b)) => a@ == b@,
                (None, None) => true,
                _ => false,
            }),
    {
        let labels = match (&self.label, &other.label) {
            (Some(a), Some(b)) => *a == *b,
            (None, None) => true,
            _ => false,
        };
        self.id == other.id && self.room_id == other.room_id && self.user_id == other.user_id
            && labels
    }
}

} // verus!
