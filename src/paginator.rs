use vstd::prelude::*;

use crate::component::{ComponentEvent, ComponentKind};
use crate::text::str_eq;

verus! {

/// Identifier of the "previous page" button.
pub const PREVIOUS_ID: &'static str = "left_page_select";

/// Identifier of the "next page" button.
pub const NEXT_ID: &'static str = "right_page_select";

/// Identifier of the page indicator, which is never clickable.
pub const INDICATOR_ID: &'static str = "page_display";

/// Number of pages needed to show `len` items, `chunk` per page; an empty
/// sequence still has one (empty) page.
pub open spec fn page_count(len: nat, chunk: nat) -> nat
    recommends
        chunk > 0,
{
    if len == 0 {
        1
    } else if len % chunk == 0 {
        len / chunk
    } else {
        len / chunk + 1
    }
}

/// Position of the first item of page `i`, clipped to the sequence.
pub open spec fn page_start(len: nat, chunk: nat, i: nat) -> nat {
    if i * chunk <= len {
        i * chunk
    } else {
        len
    }
}

/// Position just past the last item of page `i`, clipped to the sequence.
pub open spec fn page_end(len: nat, chunk: nat, i: nat) -> nat {
    if i * chunk + chunk <= len {
        i * chunk + chunk
    } else {
        len
    }
}

/// The items shown on page `i`.
pub open spec fn page_slice<T>(items: Seq<T>, chunk: nat, i: nat) -> Seq<T> {
    items.subrange(
        page_start(items.len(), chunk, i) as int,
        page_end(items.len(), chunk, i) as int,
    )
}

/// Pages `0 .. n` laid end to end.
pub open spec fn pages_joined<T>(items: Seq<T>, chunk: nat, n: nat) -> Seq<T>
    decreases n,
{
    if n == 0 {
        Seq::empty()
    } else {
        pages_joined(items, chunk, (n - 1) as nat) + page_slice(items, chunk, (n - 1) as nat)
    }
}

/// What a click asks a pager to do.
#[derive(Clone, Copy, Debug, PartialEq, Eq, Structural)]
pub enum Navigation {
    Previous,
    Next,
}

/// The navigation that a component event stands for, if any: only the two
/// arrow buttons move a pager.
pub open spec fn navigation_of(kind: ComponentKind, custom_id: Seq<char>) -> Option<Navigation> {
    if kind != ComponentKind::Button {
        None
    } else if custom_id == PREVIOUS_ID@ {
        Some(Navigation::Previous)
    } else if custom_id == NEXT_ID@ {
        Some(Navigation::Next)
    } else {
        None
    }
}

/// Errors of a pager.
#[derive(Clone, Copy, Debug, PartialEq, Eq, Structural)]
pub enum PageError {
    /// A page must hold at least one item.
    ConfigError,
    /// The event did not come from one of the pager's navigation buttons.
    UnexpectedEventKind,
}

/// The navigation row under a page: previous, the indicator, next.
#[derive(Clone, Copy, Debug, PartialEq, Eq, Structural)]
pub struct Controls {
    /// "Previous" cannot be clicked on the first page.
    pub previous_disabled: bool,
    /// The page shown, counted from one.
    pub page_number: usize,
    /// How many pages there are.
    pub total_pages: usize,
    /// "Next" cannot be clicked on the last page.
    pub next_disabled: bool,
}

/// The abstract state of a pager.
pub struct PageState<T> {
    pub items: Seq<T>,
    pub chunk_size: nat,
    pub index: nat,
}

/// The controls that go with page `index` of `len` items.
pub open spec fn controls_of(len: nat, chunk: nat, index: nat) -> Controls {
    Controls {
        previous_disabled: index == 0,
        page_number: (index + 1) as usize,
        total_pages: page_count(len, chunk) as usize,
        next_disabled: index + 1 >= page_count(len, chunk),
    }
}

/// A sequence of items shown a fixed number at a time, with a current page.
pub struct Page<T> {
    items: Vec<T>,
    chunk_size: usize,
    index: usize,
}

impl<T> View for Page<T> {
    type V = PageState<T>;

    closed spec fn view(&self) -> PageState<T> {
        PageState { items: self.items@, chunk_size: self.chunk_size as nat, index: self.index as nat }
    }
}

/// Bounds on the number of pages: ceil(len / chunk), and at least one.
proof fn lemma_page_count_bounds(len: nat, chunk: nat)
    requires
        chunk > 0,
    ensures
        page_count(len, chunk) >= 1,
        page_count(len, chunk) <= len + 1,
        len > 0 ==> page_count(len, chunk) <= len,
        len > 0 ==> (page_count(len, chunk) - 1) * chunk < len,
        len <= page_count(len, chunk) * chunk,
{
    if len > 0 {
        let q = len / chunk;
        let r = len % chunk;
        assert(len == q * chunk + r && r < chunk) by (nonlinear_arith)
            requires
                chunk > 0,
                q == len / chunk,
                r == len % chunk,
        ;
        assert(q <= len) by (nonlinear_arith)
            requires
                chunk > 0,
                len == q * chunk + r,
        ;
        if r == 0 {
            assert(q >= 1) by (nonlinear_arith)
                requires
                    len == q * chunk,
                    len > 0,
            ;
            assert((q - 1) * chunk < len) by (nonlinear_arith)
                requires
                    len == q * chunk,
                    chunk > 0,
                    q >= 1,
            ;
        } else {
            assert(q + 1 <= len) by (nonlinear_arith)
                requires
                    len == q * chunk + r,
                    r > 0,
                    chunk > 0,
            ;
            assert(q * chunk < len);
            assert((q + 1) * chunk == q * chunk + chunk) by (nonlinear_arith);
        }
    }
}

/// One more item never means fewer pages.
proof fn lemma_page_count_monotone(len: nat, chunk: nat)
    requires
        chunk > 0,
    ensures
        page_count(len, chunk) <= page_count(len + 1, chunk),
{
    lemma_page_count_bounds(len, chunk);
    lemma_page_count_bounds(len + 1, chunk);
    if len > 0 {
        let p = page_count(len, chunk);
        let p1 = page_count(len + 1, chunk);
        if p1 < p {
            assert(p1 * chunk <= (p - 1) * chunk) by (nonlinear_arith)
                requires
                    p1 <= p - 1,
                    chunk > 0,
            ;
        }
    }
}

/// A page's first item comes before the end of the sequence, on every page
/// there is.
proof fn lemma_start_in_bounds(len: nat, chunk: nat, i: nat)
    requires
        chunk > 0,
        i < page_count(len, chunk),
    ensures
        len > 0 ==> i * chunk < len,
        len == 0 ==> i == 0,
{
    lemma_page_count_bounds(len, chunk);
    if len > 0 {
        let p = page_count(len, chunk);
        assert(i * chunk <= (p - 1) * chunk) by (nonlinear_arith)
            requires
                i <= p - 1,
                chunk > 0,
        ;
    }
}

/// The page a click leads to and what handling it returns: no navigation is
/// an error, a move off either end is a no-op (`false`), any other move
/// changes the page by one (`true`).
pub open spec fn navigate<T>(s: PageState<T>, nav: Option<Navigation>) -> (nat, Result<bool, PageError>) {
    match nav {
        None => (s.index, Err(PageError::UnexpectedEventKind)),
        Some(Navigation::Previous) => if s.index == 0 {
            (s.index, Ok(false))
        } else {
            ((s.index - 1) as nat, Ok(true))
        },
        Some(Navigation::Next) => if s.index + 1 >= page_count(s.items.len(), s.chunk_size) {
            (s.index, Ok(false))
        } else {
            (s.index + 1, Ok(true))
        },
    }
}

/// Whatever the click, the current page stays one of the pages; "previous"
/// on the first page and "next" on the last leave it where it is.
pub proof fn lemma_navigation_stays_in_bounds<T>(s: PageState<T>, nav: Option<Navigation>)
    requires
        s.chunk_size > 0,
        s.index < page_count(s.items.len(), s.chunk_size),
    ensures
        navigate(s, nav).0 < page_count(s.items.len(), s.chunk_size),
        s.index == 0 && nav == Some(Navigation::Previous) ==> navigate(s, nav) == (
            s.index,
            Ok::<bool, PageError>(false),
        ),
        s.index + 1 == page_count(s.items.len(), s.chunk_size) && nav == Some(Navigation::Next)
            ==> navigate(s, nav) == (s.index, Ok::<bool, PageError>(false)),
{
}

/// What rendering shows for a pager state: the items of the current page and
/// the controls under them.
pub open spec fn rendered<T>(s: PageState<T>) -> (Seq<T>, Controls) {
    (page_slice(s.items, s.chunk_size, s.index), controls_of(s.items.len(), s.chunk_size, s.index))
}

/// The first `n` pages laid end to end are the items up to the end of page `n - 1`.
proof fn lemma_pages_joined_prefix<T>(items: Seq<T>, chunk: nat, n: nat)
    requires
        chunk > 0,
        items.len() > 0,
        n <= page_count(items.len(), chunk),
    ensures
        pages_joined(items, chunk, n) == items.subrange(
            0,
            if n * chunk <= items.len() {
                n * chunk
            } else {
                items.len()
            } as int,
        ),
    decreases n,
{
    let len = items.len();
    if n == 0 {
        assert(pages_joined(items, chunk, 0) =~= items.subrange(0, 0));
    } else {
        let m = (n - 1) as nat;
        lemma_pages_joined_prefix(items, chunk, m);
        lemma_start_in_bounds(len, chunk, m);
        assert(m * chunk + chunk == n * chunk) by (nonlinear_arith)
            requires
                m == n - 1,
                n > 0,
        ;
        assert(page_start(len, chunk, m) == m * chunk);
        let e = if n * chunk <= len {
            n * chunk
        } else {
            len
        };
        assert(page_end(len, chunk, m) == e);
        assert(items.subrange(0, (m * chunk) as int) + items.subrange((m * chunk) as int, e as int)
            =~= items.subrange(0, e as int));
    }
}

/// Laying all pages end to end gives back the items in order, each exactly
/// once; the number of pages is the least that holds them all.
pub proof fn lemma_pages_cover_items<T>(items: Seq<T>, chunk_size: nat)
    requires
        chunk_size >= 1,
        items.len() > 0,
    ensures
        page_count(items.len(), chunk_size) * chunk_size >= items.len(),
        (page_count(items.len(), chunk_size) - 1) * chunk_size < items.len(),
        pages_joined(items, chunk_size, page_count(items.len(), chunk_size)) == items,
{
    let n = page_count(items.len(), chunk_size);
    lemma_page_count_bounds(items.len(), chunk_size);
    lemma_pages_joined_prefix(items, chunk_size, n);
    assert(items.subrange(0, items.len() as int) =~= items);
}

/// A well-formed pager's current page is always one of its pages.
pub proof fn lemma_index_in_bounds<T>(p: &Page<T>)
    requires
        p.wf(),
    ensures
        0 <= p@.index < page_count(p@.items.len(), p@.chunk_size),
        p@.index + 1 <= page_count(p@.items.len(), p@.chunk_size),
{
}

/// Rendering depends on the pager's state alone: two renders with no event
/// between them show the same page and the same controls.
pub proof fn lemma_render_idempotent<T>(before: PageState<T>, after: PageState<T>)
    requires
        before == after,
    ensures
        rendered(before) == rendered(after),
{
}

impl<T> Page<T> {
    /// A page holds at least one item and the current page is one of the
    /// pages. Every operation keeps this.
    pub open spec fn wf(&self) -> bool {
        &&& self@.chunk_size > 0
        &&& self@.index < page_count(self@.items.len(), self@.chunk_size)
    }

    /// A pager over `items`, `chunk_size` per page, showing the first page.
    pub fn new(items: Vec<T>, chunk_size: usize) -> (r: Result<Page<T>, PageError>)
        ensures
            chunk_size == 0 ==> r == Err::<Page<T>, PageError>(PageError::ConfigError),
            chunk_size > 0 ==> (r matches Ok(p) && p@.items == items@ && p@.chunk_size
                == chunk_size && p@.index == 0 && p.wf()),
    {
        if chunk_size == 0 {
            return Err(PageError::ConfigError);
        }
        proof {
            lemma_page_count_bounds(items@.len(), chunk_size as nat);
        }
        Ok(Page { items, chunk_size, index: 0 })
    }

    /// Appends an item after the last one; the current page stays.
    pub fn push(&mut self, item: T)
        requires
            old(self).wf(),
        ensures
            final(self).wf(),
            final(self)@.items == old(self)@.items.push(item),
            final(self)@.chunk_size == old(self)@.chunk_size,
            final(self)@.index == old(self)@.index,
    {
        proof {
            lemma_page_count_monotone(self.items@.len(), self.chunk_size as nat);
        }
        self.items.push(item);
    }

    /// Number of pages, at least one.
    pub fn total_pages(&self) -> (r: usize)
        requires
            self.wf(),
        ensures
            r == page_count(self@.items.len(), self@.chunk_size),
    {
        proof {
            lemma_page_count_bounds(self.items@.len(), self.chunk_size as nat);
        }
        let len = self.items.len();
        if len == 0 {
            1
        } else if len % self.chunk_size == 0 {
            len / self.chunk_size
        } else {
            len / self.chunk_size + 1
        }
    }

    /// The current page, counted from zero.
    pub fn index(&self) -> (r: usize)
        ensures
            r == self@.index,
    {
        self.index
    }

    /// The items of page `page_index`, which must be one of the pages.
    pub fn page_items(&self, page_index: usize) -> (r: &[T])
        requires
            self.wf(),
            page_index < page_count(self@.items.len(), self@.chunk_size),
        ensures
            r@ == page_slice(self@.items, self@.chunk_size, page_index as nat),
    {
        proof {
            lemma_start_in_bounds(self.items@.len(), self.chunk_size as nat, page_index as nat);
        }
        let len = self.items.len();
        let start = page_index * self.chunk_size;
        let end = if len - start < self.chunk_size {
            len
        } else {
            start + self.chunk_size
        };
        &self.items.as_slice()[start..end]
    }

    /// The controls shown under page `page_index`.
    pub fn controls(&self, page_index: usize) -> (r: Controls)
        requires
            self.wf(),
            page_index < page_count(self@.items.len(), self@.chunk_size),
        ensures
            r == controls_of(self@.items.len(), self@.chunk_size, page_index as nat),
    {
        let total = self.total_pages();
        Controls {
            previous_disabled: page_index == 0,
            page_number: page_index + 1,
            total_pages: total,
            next_disabled: page_index + 1 >= total,
        }
    }

    /// The current page: its items and its controls.
    pub fn render(&self) -> (r: (&[T], Controls))
        requires
            self.wf(),
        ensures
            (r.0@, r.1) == rendered(self@),
    {
        (self.page_items(self.index), self.controls(self.index))
    }

    /// Applies a click. Only the two arrow buttons are accepted; a click
    /// that would leave the pages is a no-op. Returns whether the page moved.
    pub fn handle_event(&mut self, event: &ComponentEvent) -> (r: Result<bool, PageError>)
        requires
            old(self).wf(),
        ensures
            final(self).wf(),
            final(self)@.items == old(self)@.items,
            final(self)@.chunk_size == old(self)@.chunk_size,
            (final(self)@.index, r) == navigate(old(self)@, navigation_of(event.kind, event.custom_id@)),
    {
        if event.kind != ComponentKind::Button {
            return Err(PageError::UnexpectedEventKind);
        }
        let id = event.custom_id.as_str();
        if str_eq(id, PREVIOUS_ID) {
            if self.index == 0 {
                Ok(false)
            } else {
                self.index = self.index - 1;
                Ok(true)
            }
        } else if str_eq(id, NEXT_ID) {
            let total = self.total_pages();
            if self.index + 1 >= total {
                Ok(false)
            } else {
                self.index = self.index + 1;
                Ok(true)
            }
        } else {
            Err(PageError::UnexpectedEventKind)
        }
    }
}

} // verus!
