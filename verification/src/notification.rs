//! Notifications for the user. The manager gathers them; the caller takes
//! them out and shows them.

use vstd::prelude::*;

verus! {

/// One notification for the user.
#[derive(Debug)]
pub struct Notification {
    pub title: String,
    pub body: String,
}

impl View for Notification {
    type V = (Seq<char>, Seq<char>);

    open spec fn view(&self) -> (Seq<char>, Seq<char>) {
        (self.title@, self.body@)
    }
}

/// The notifications of a list as specifications see them.
pub open spec fn notification_views(list: Seq<Notification>) -> Seq<(Seq<char>, Seq<char>)> {
    list.map_values(|n: Notification| n@)
}

/// Gathers the notifications that wait to be shown.
pub struct NotificationManager {
    pending: Vec<Notification>,
}

impl View for NotificationManager {
    type V = Seq<(Seq<char>, Seq<char>)>;

    closed spec fn view(&self) -> Seq<(Seq<char>, Seq<char>)> {
        notification_views(self.pending@)
    }
}

/// Why a notification was not taken.
#[derive(Clone, Copy, Debug, PartialEq, Eq, Structural)]
pub enum NotificationError {
    /// No manager has been set up yet.
    NotInitialized,
    /// A manager has been set up before.
    AlreadyInitialized,
}

impl NotificationManager {
    /// A manager with nothing waiting.
    pub fn new() -> (manager: Self)
        ensures
            manager@ == Seq::<(Seq<char>, Seq<char>)>::empty(),
    {
        let manager = NotificationManager { pending: Vec::new() };
        manager
    }

    /// Takes a notification; it waits behind those taken before.
    pub fn send(&mut self, title: &str, body: &str)
        ensures
            final(self)@ == old(self)@.push((title@, body@)),
    {
        self.pending.push(Notification { title: title.to_owned(), body: body.to_owned() });
    }

    /// How many notifications wait.
    pub fn pending_count(&self) -> (r: usize)
        ensures
            r == self@.len(),
    {
        self.pending.len()
    }

    /// Hands out the waiting notifications, oldest first, and keeps none.
    pub fn take_pending(&mut self) -> (taken: Vec<Notification>)
        ensures
            notification_views(taken@) == old(self)@,
            final(self)@ == Seq::<(Seq<char>, Seq<char>)>::empty(),
    {
        let mut taken: Vec<Notification> = Vec::new();
        std::mem::swap(&mut self.pending, &mut taken);
        taken
    }
}

/// Sets up the manager; this can be done once.
pub fn init_notification_manager(slot: &mut Option<NotificationManager>) -> (r: Result<
    (),
    NotificationError,
>)
    ensures
        match *old(slot) {
            Some(_) => r == Err::<(), NotificationError>(NotificationError::AlreadyInitialized)
                && *final(slot) == *old(slot),
            None => {
                &&& r is Ok
                &&& *final(slot) matches Some(m)
                &&& m@ == Seq::<(Seq<char>, Seq<char>)>::empty()
            },
        },
{
    if slot.is_some() {
        return Err(NotificationError::AlreadyInitialized);
    }
    *slot = Some(NotificationManager::new());
    Ok(())
}

/// Hands a notification to the manager, where one has been set up.
pub fn send_notification(slot: &mut Option<NotificationManager>, title: &str, body: &str) -> (r:
    Result<(), NotificationError>)
    ensures
        match *old(slot) {
            Some(before) => {
                &&& r is Ok
                &&& *final(slot) matches Some(after)
                &&& after@ == before@.push((title@, body@))
            },
            None => r == Err::<(), NotificationError>(NotificationError::NotInitialized)
                && *final(slot) is None,
        },
{
    match slot {
        Some(manager) => {
            manager.send(title, body);
            Ok(())
        },
        None => Err(NotificationError::NotInitialized),
    }
}

} // verus!
