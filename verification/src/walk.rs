//! Walking a paged listing: fetch a page, look up each of its items in
//! order, then fetch the next page, until an empty or last page. The program
//! performs each action and answers with what happened.
use vstd::prelude::*;

verus! {

/// How the next page is addressed.
#[derive(Debug, Clone, Copy, PartialEq, Eq, Structural)]
pub enum Paging {
    /// By the index of its first item (`start`): the next page starts after
    /// this page's items.
    Offset,
    /// By its number: the next page is this number plus one.
    Number,
}

/// What the walk waits for.
#[derive(Debug, Clone, Copy, PartialEq, Eq, Structural)]
pub enum Phase {
    /// A page that has been asked for.
    AwaitPage,
    /// The lookup of the current item of the current page.
    LookingUp,
}

/// The state of a walk.
#[derive(Debug, Clone, Copy, PartialEq, Eq, Structural)]
pub struct Walk {
    pub paging: Paging,
    pub phase: Phase,
    /// Where the current page starts (`Offset`) or its number (`Number`).
    pub position: u32,
    /// The number of items on the current page.
    pub page_len: usize,
    /// The item being looked up.
    pub item: usize,
    /// The current page is the listing's last.
    pub last_page: bool,
}

/// What happened to the last action.
#[derive(Debug, Clone, Copy, PartialEq, Eq, Structural)]
pub enum WalkEvent {
    /// A page arrived with this many items.
    Page { items: usize, is_last_page: bool },
    /// The page could not be fetched or read.
    ListingFailed,
    /// The listing does not exist: there is nothing (more) to read.
    ListingMissing,
    /// The current item has been looked up, whether or not its lookup
    /// succeeded.
    ItemDone,
}

/// What the program does next.
#[derive(Debug, Clone, Copy, PartialEq, Eq, Structural)]
pub enum WalkAction {
    /// Fetch the page at this position.
    FetchPage(u32),
    /// Look up this item of the current page.
    LookUp(usize),
    /// The walk is complete.
    Finish,
    /// The walk fails: a page could not be read.
    Abort,
}

/// The position of the page after the current one.
pub open spec fn next_position(w: Walk) -> int {
    match w.paging {
        Paging::Offset => w.position + w.page_len,
        Paging::Number => w.position + 1,
    }
}

/// The event answers the action that the walk took last, and the next
/// page's position fits in a `u32`.
pub open spec fn step_allowed(w: Walk, e: WalkEvent) -> bool {
    match w.phase {
        Phase::AwaitPage => e != WalkEvent::ItemDone,
        Phase::LookingUp => {
            &&& e == WalkEvent::ItemDone
            &&& w.item < w.page_len
            &&& (w.item + 1 >= w.page_len && !w.last_page) ==> next_position(w) <= u32::MAX
        },
    }
}

/// One step of the walk:
/// - an empty page, or a missing listing, completes it;
/// - a page that cannot be read aborts it;
/// - a page with items starts looking them up, from the first;
/// - after each lookup the next item of the page is looked up; after the
///   page's last item the walk completes on the listing's last page, else
///   it fetches the next page.
pub open spec fn walk_next(w: Walk, e: WalkEvent) -> (Walk, WalkAction) {
    match w.phase {
        Phase::AwaitPage => match e {
            WalkEvent::Page { items, is_last_page } => if items == 0 {
                (w, WalkAction::Finish)
            } else {
                (
                    Walk {
                        phase: Phase::LookingUp,
                        page_len: items,
                        item: 0,
                        last_page: is_last_page,
                        ..w
                    },
                    WalkAction::LookUp(0),
                )
            },
            WalkEvent::ListingFailed => (w, WalkAction::Abort),
            _ => (w, WalkAction::Finish),
        },
        Phase::LookingUp => if w.item + 1 < w.page_len {
            (Walk { item: (w.item + 1) as usize, ..w }, WalkAction::LookUp((w.item + 1) as usize))
        } else if w.last_page {
            (w, WalkAction::Finish)
        } else {
            let next = next_position(w) as u32;
            (
                Walk {
                    phase: Phase::AwaitPage,
                    position: next,
                    page_len: 0,
                    item: 0,
                    last_page: false,
                    ..w
                },
                WalkAction::FetchPage(next),
            )
        },
    }
}

impl Walk {
    /// A walk from the page at `position`, which it fetches first.
    pub fn start(paging: Paging, position: u32) -> (r: (Walk, WalkAction))
        ensures
            r.0 == (Walk {
                paging,
                phase: Phase::AwaitPage,
                position,
                page_len: 0,
                item: 0,
                last_page: false,
            }),
            r.1 == WalkAction::FetchPage(position),
    {
        (
            Walk {
                paging,
                phase: Phase::AwaitPage,
                position,
                page_len: 0,
                item: 0,
                last_page: false,
            },
            WalkAction::FetchPage(position),
        )
    }

    /// Whether `e` may answer the walk's last action (see [`step_allowed`]).
    pub fn allows(&self, e: WalkEvent) -> (r: bool)
        ensures
            r == step_allowed(*self, e),
    {
        match self.phase {
            Phase::AwaitPage => e != WalkEvent::ItemDone,
            Phase::LookingUp => {
                if e != WalkEvent::ItemDone || self.item >= self.page_len {
                    false
                } else if self.item + 1 >= self.page_len && !self.last_page {
                    match self.paging {
                        Paging::Offset => self.page_len <= (u32::MAX - self.position) as usize,
                        Paging::Number => self.position < u32::MAX,
                    }
                } else {
                    true
                }
            },
        }
    }

    /// The next state and action after `e`.
    pub fn step(&self, e: WalkEvent) -> (r: (Walk, WalkAction))
        requires
            step_allowed(*self, e),
        ensures
            r == walk_next(*self, e),
    {
        let w = *self;
        match w.phase {
            Phase::AwaitPage => match e {
                WalkEvent::Page { items, is_last_page } => if items == 0 {
                    (w, WalkAction::Finish)
                } else {
                    (
                        Walk {
                            phase: Phase::LookingUp,
                            page_len: items,
                            item: 0,
                            last_page: is_last_page,
                            ..w
                        },
                        WalkAction::LookUp(0),
                    )
                },
                WalkEvent::ListingFailed => (w, WalkAction::Abort),
                _ => (w, WalkAction::Finish),
            },
            Phase::LookingUp => if w.item + 1 < w.page_len {
                (Walk { item: w.item + 1, ..w }, WalkAction::LookUp(w.item + 1))
            } else if w.last_page {
                (w, WalkAction::Finish)
            } else {
                let next = match w.paging {
                    Paging::Offset => w.position + w.page_len as u32,
                    Paging::Number => w.position + 1,
                };
                (
                    Walk {
                        phase: Phase::AwaitPage,
                        position: next,
                        page_len: 0,
                        item: 0,
                        last_page: false,
                        ..w
                    },
                    WalkAction::FetchPage(next),
                )
            },
        }
    }
}

/// The state after answering `k` lookups with `ItemDone`.
pub open spec fn after_lookups(w: Walk, k: nat) -> Walk
    decreases k,
{
    if k == 0 {
        w
    } else {
        walk_next(after_lookups(w, (k - 1) as nat), WalkEvent::ItemDone).0
    }
}

/// A page of `n` items is looked up item by item, each once and in order:
/// the page starts the lookup of item 0, the answer to the lookup of item
/// `k` starts that of item `k + 1`, and the answer to the last one completes
/// the walk on the last page or fetches the page after it.
pub proof fn law_page_items_looked_up_in_order(w: Walk, n: usize, last: bool, k: nat)
    requires
        w.phase == Phase::AwaitPage,
        n > 0,
        k < n,
    ensures
        walk_next(w, WalkEvent::Page { items: n, is_last_page: last }).1 == WalkAction::LookUp(0),
        ({
            let s = after_lookups(walk_next(w, WalkEvent::Page { items: n, is_last_page: last }).0, k);
            &&& s.phase == Phase::LookingUp
            &&& s.item == k
            &&& s.page_len == n
            &&& s.last_page == last
            &&& s.position == w.position
            &&& s.paging == w.paging
            &&& walk_next(s, WalkEvent::ItemDone).1 == if k + 1 < n {
                WalkAction::LookUp((k + 1) as usize)
            } else if last {
                WalkAction::Finish
            } else {
                WalkAction::FetchPage(
                    (match w.paging {
                        Paging::Offset => w.position + n,
                        Paging::Number => w.position + 1,
                    }) as u32,
                )
            }
        }),
    decreases k,
{
    if k > 0 {
        law_page_items_looked_up_in_order(w, n, last, (k - 1) as nat);
    }
}

/// A page that cannot be read aborts the walk, and an empty page or a
/// missing listing completes it; nothing is looked up.
pub proof fn law_walk_ends_on_failed_or_empty_page(w: Walk, last: bool)
    requires
        w.phase == Phase::AwaitPage,
    ensures
        walk_next(w, WalkEvent::ListingFailed).1 == WalkAction::Abort,
        walk_next(w, WalkEvent::ListingMissing).1 == WalkAction::Finish,
        walk_next(w, WalkEvent::Page { items: 0, is_last_page: last }).1 == WalkAction::Finish,
{
}

/// A step that fetches a page records where that page is: the walk then
/// waits for the page at exactly the position it asks for, and that
/// position lies beyond the current page's (pages with items are never
/// fetched twice, so successive fetches go 1, 2, 3, ... or 0, n1, n1 + n2, ...).
pub proof fn law_fetch_records_next_position(w: Walk, e: WalkEvent, p: u32)
    requires
        step_allowed(w, e),
        walk_next(w, e).1 == WalkAction::FetchPage(p),
    ensures
        walk_next(w, e).0.phase == Phase::AwaitPage,
        walk_next(w, e).0.position == p,
        walk_next(w, e).0.paging == w.paging,
        w.paging == Paging::Number ==> p == w.position + 1,
        w.paging == Paging::Offset ==> p == w.position + w.page_len && p > w.position,
{
}

} // verus!
