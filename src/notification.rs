//! Notifications and their status: produced as unread, later dismissed.

use crate::ordering::{sort_desc, sorted_desc, SortColumn, SortKey};
use crate::seqs::{lemma_filter_member, lemma_filter_step};
use vstd::prelude::*;

verus! {

/// A message to the users of the server.
pub struct Notification {
    pub id: i32,
    pub type_of_message: String,
    pub message: String,
    pub created_at: String,
    pub status: String,
}

/// Notifications are ordered by creation time, whichever column is asked for.
impl SortKey for Notification {
    open spec fn key(&self, column: SortColumn) -> Seq<char> {
        self.created_at@
    }

    fn key_text(&self, column: SortColumn) -> (r: &str) {
        self.created_at.as_str()
    }
}

impl Notification {
    /// A copy of the row.
    pub fn copy(&self) -> (r: Notification)
        ensures
            r == *self,
    {
        Notification {
            id: self.id,
            type_of_message: self.type_of_message.clone(),
            message: self.message.clone(),
            created_at: self.created_at.clone(),
            status: self.status.clone(),
        }
    }
}

/// Whether a notification has not been read yet.
pub open spec fn is_unread(n: Notification) -> bool {
    n.status@ == "unread"@
}

/// The unread notifications of a table, in table order.
pub open spec fn unread_rows(rows: Seq<Notification>) -> Seq<Notification> {
    rows.filter(|n: Notification| is_unread(n))
}

/// `a` is `b`, its status replaced where it has the given id.
pub open spec fn row_updated(a: Notification, b: Notification, id: i32, status: Seq<char>) -> bool {
    &&& a.id == b.id
    &&& a.type_of_message == b.type_of_message
    &&& a.message == b.message
    &&& a.created_at == b.created_at
    &&& if b.id == id {
        a.status@ == status
    } else {
        a.status == b.status
    }
}

/// `after` is `before` with the status of every row of the given id replaced.
pub open spec fn status_updated(before: Seq<Notification>, after: Seq<Notification>, id: i32, status: Seq<char>) -> bool {
    &&& after.len() == before.len()
    &&& forall|i: int| 0 <= i < before.len() ==> row_updated(#[trigger] after[i], before[i], id, status)
}

/// The largest id of a table, or 0 for an empty one.
pub open spec fn max_id(rows: Seq<Notification>) -> int
    decreases rows.len(),
{
    if rows.len() == 0 {
        0
    } else {
        let m = max_id(rows.drop_last());
        if rows.last().id > m {
            rows.last().id as int
        } else {
            m
        }
    }
}

/// The id that the next inserted row receives: one above the largest.
pub open spec fn next_id(rows: Seq<Notification>) -> int {
    max_id(rows) + 1
}

impl Notification {
    /// The unread notifications, newest first.
    pub fn get_unread_notifications(notifications: &Vec<Notification>) -> (r: Result<Vec<Notification>, String>)
        ensures
            r is Ok,
            sorted_desc(r->Ok_0@, SortColumn::Date),
            r->Ok_0@.to_multiset() == unread_rows(notifications@).to_multiset(),
    {
        let unread = String::from_str("unread");
        let ghost rows = notifications@;
        let mut out: Vec<Notification> = Vec::new();
        let mut i: usize = 0;
        while i < notifications.len()
            invariant
                notifications@ == rows,
                unread@ == "unread"@,
                0 <= i <= rows.len(),
                out@ == rows.subrange(0, i as int).filter(|n: Notification| is_unread(n)),
            decreases rows.len() - i,
        {
            proof {
                lemma_filter_step(rows, i as int, |n: Notification| is_unread(n));
            }
            if notifications[i].status == unread {
                out.push(notifications[i].copy());
            }
            i = i + 1;
        }
        proof {
            assert(rows.subrange(0, rows.len() as int) =~= rows);
        }
        Ok(sort_desc(out, SortColumn::Date))
    }

    /// Stores a notification under the next id; the id it carries is not used.
    /// Fails where the ids are exhausted.
    pub fn insert_notification(notification: Notification, notifications: &mut Vec<Notification>) -> (r: Result<(), String>)
        ensures
            r is Ok <==> next_id(old(notifications)@) <= i32::MAX,
            r is Ok ==> final(notifications)@ == old(notifications)@.push(
                Notification { id: next_id(old(notifications)@) as i32, ..notification },
            ),
            r is Err ==> final(notifications)@ == old(notifications)@,
    {
        let ghost rows = notifications@;
        let mut m: i32 = 0;
        let mut i: usize = 0;
        while i < notifications.len()
            invariant
                notifications@ == rows,
                0 <= i <= rows.len(),
                m as int == max_id(rows.subrange(0, i as int)),
            decreases rows.len() - i,
        {
            proof {
                assert(rows.subrange(0, i + 1).drop_last() =~= rows.subrange(0, i as int));
            }
            if notifications[i].id > m {
                m = notifications[i].id;
            }
            i = i + 1;
        }
        proof {
            assert(rows.subrange(0, rows.len() as int) =~= rows);
        }
        if m == i32::MAX {
            return Err(String::from_str("no notification id is left"));
        }
        let mut n = notification;
        n.id = m + 1;
        notifications.push(n);
        Ok(())
    }

    /// Sets the status of the notification with the given id.
    pub fn update_status_of_notification(
        id_to_search: i32,
        status_update: &str,
        notifications: &mut Vec<Notification>,
    ) -> (r: Result<(), String>)
        ensures
            r is Ok,
            status_updated(old(notifications)@, final(notifications)@, id_to_search, status_update@),
    {
        let ghost rows = notifications@;
        let mut out: Vec<Notification> = Vec::new();
        let mut i: usize = 0;
        while i < notifications.len()
            invariant
                notifications@ == rows,
                0 <= i <= rows.len(),
                out@.len() == i,
                status_updated(rows.subrange(0, i as int), out@, id_to_search, status_update@),
            decreases rows.len() - i,
        {
            let row = &notifications[i];
            let mut n = row.copy();
            if row.id == id_to_search {
                n.status = String::from_str(status_update);
            }
            out.push(n);
            proof {
                assert forall|k: int| 0 <= k < i + 1 implies row_updated(
                    #[trigger] out@[k],
                    rows.subrange(0, i + 1)[k],
                    id_to_search,
                    status_update@,
                ) by {
                    if k < i {
                        assert(rows.subrange(0, i + 1)[k] == rows.subrange(0, i as int)[k]);
                    }
                }
            }
            i = i + 1;
        }
        proof {
            assert(rows.subrange(0, rows.len() as int) =~= rows);
        }
        *notifications = out;
        Ok(())
    }
}

/// After the status of a notification is set to anything but unread, the
/// unread notifications, in whatever order they are listed, do not include it.
pub proof fn lemma_status_change_leaves_unread(
    before: Seq<Notification>,
    after: Seq<Notification>,
    id: i32,
    status: Seq<char>,
    listed: Seq<Notification>,
)
    requires
        status_updated(before, after, id, status),
        status != "unread"@,
        listed.to_multiset() == unread_rows(after).to_multiset(),
    ensures
        forall|k: int| 0 <= k < listed.len() ==> (#[trigger] listed[k]).id != id,
{
    broadcast use vstd::seq_lib::group_to_multiset_ensures;

    let pred = |n: Notification| is_unread(n);
    let unread = unread_rows(after);
    assert forall|k: int| 0 <= k < listed.len() implies (#[trigger] listed[k]).id != id by {
        assert(listed.contains(listed[k]));
        vstd::seq_lib::to_multiset_contains(listed, listed[k]);
        vstd::seq_lib::to_multiset_contains(unread, listed[k]);
        assert(unread.contains(listed[k]));
        let m = choose|m: int| 0 <= m < unread.len() && unread[m] == listed[k];
        lemma_filter_member(after, pred, m);
        let j = choose|j: int| 0 <= j < after.len() && after[j] == after.filter(pred)[m];
        after.lemma_filter_pred(pred, m);
        assert(after[j].id == before[j].id);
    }
}

/// Unread notifications are served from a table; dismissal is a status change.
pub struct NotificationService {}

/// The body of a dismissal request.
pub struct NotificationId {
    pub id: i32,
}

impl NotificationService {
    pub fn new() -> (r: NotificationService) {
        NotificationService {}
    }

    /// The unread notifications, newest first.
    pub fn get_unread_notifications(&mut self, notifications: &Vec<Notification>) -> (r: Result<Vec<Notification>, String>)
        ensures
            r is Ok,
            sorted_desc(r->Ok_0@, SortColumn::Date),
            r->Ok_0@.to_multiset() == unread_rows(notifications@).to_multiset(),
    {
        Notification::get_unread_notifications(notifications)
    }

    /// Sets the status of the notification with the given id.
    pub fn update_status_of_notification(&mut self, id: i32, status: &str, notifications: &mut Vec<Notification>) -> (r: Result<(), String>)
        ensures
            r is Ok,
            status_updated(old(notifications)@, final(notifications)@, id, status@),
    {
        Notification::update_status_of_notification(id, status, notifications)
    }

    /// Marks the notification of the request as dismissed.
    pub fn dismiss(&mut self, id: &NotificationId, notifications: &mut Vec<Notification>) -> (r: Result<(), String>)
        ensures
            r is Ok,
            status_updated(old(notifications)@, final(notifications)@, id.id, "dismissed"@),
    {
        self.update_status_of_notification(id.id, "dismissed", notifications)
    }
}

} // verus!
