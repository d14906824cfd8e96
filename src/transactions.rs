use vstd::prelude::*;

use crate::component::ComponentEvent;
use crate::paginator::{navigate, navigation_of, rendered, Controls, Page, PageError};
use crate::records::Record;
use crate::user::User;

verus! {

/// Transactions shown per page.
pub const CHUNK_SIZE: usize = 10;

/// A user's transaction history, a page at a time.
pub struct Transactions {
    pub page: Page<Record>,
}

impl Transactions {
    /// The history of `user`, on its first page.
    pub fn new(user: User) -> (r: Transactions)
        ensures
            r.page.wf(),
            r.page@.items == user.transactions.0@,
            r.page@.chunk_size == CHUNK_SIZE,
            r.page@.index == 0,
    {
        match Page::new(user.transactions.0, CHUNK_SIZE) {
            Ok(page) => Transactions { page },
            Err(_) => vstd::pervasive::unreached(),
        }
    }

    /// The current page of transactions and its controls.
    pub fn render(&self) -> (r: (&[Record], Controls))
        requires
            self.page.wf(),
        ensures
            (r.0@, r.1) == rendered(self.page@),
    {
        self.page.render()
    }

    /// Applies a click on the navigation buttons; see `Page::handle_event`.
    pub fn handle_event(&mut self, event: &ComponentEvent) -> (r: Result<bool, PageError>)
        requires
            old(self).page.wf(),
        ensures
            final(self).page.wf(),
            final(self).page@.items == old(self).page@.items,
            final(self).page@.chunk_size == old(self).page@.chunk_size,
            (final(self).page@.index, r) == navigate(
                old(self).page@,
                navigation_of(event.kind, event.custom_id@),
            ),
    {
        self.page.handle_event(event)
    }
}

} // verus!
