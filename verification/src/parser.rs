//! Reading a Renovate "Dependency Dashboard" issue body into its sections.
//!
//! The body is Markdown. Each `## ` heading names a section; each list item
//! below it is one update: a checkbox, an HTML comment naming the branch, and
//! a description.
use crate::markdown::{MdEvent, MdEventView, events_view, markdown_events, markdown_events_of};
use crate::text::{
    has_prefix, has_suffix, trim, trim_str, starts_with, ends_with, str_eq, string_of,
};
use vstd::prelude::*;
use vstd::string::*;

verus! {

/// One update listed on a dashboard.
#[derive(Debug, Clone)]
pub struct Update {
    /// The branch that Renovate uses for the update (empty when none is named).
    pub branch: String,
    /// The description of the update, as the dashboard shows it.
    pub description: String,
    /// Whether the item's checkbox is ticked.
    pub checked: bool,
    /// The state of the builds on the branch's latest commit, where known.
    pub build_status: Option<String>,
}

/// The value of an [`Update`].
pub struct UpdateView {
    pub branch: Seq<char>,
    pub description: Seq<char>,
    pub checked: bool,
    pub build_status: Option<Seq<char>>,
}

impl View for Update {
    type V = UpdateView;

    open spec fn view(&self) -> UpdateView {
        UpdateView {
            branch: self.branch@,
            description: self.description@,
            checked: self.checked,
            build_status: match &self.build_status {
                Some(s) => Some(s@),
                None => None,
            },
        }
    }
}

/// The updates of a dashboard, by section.
#[derive(Debug, Clone)]
pub struct Dashboard {
    pub pending_approval: Vec<Update>,
    pub open: Vec<Update>,
    pub awaiting_schedule: Vec<Update>,
    pub rate_limited: Vec<Update>,
    pub errored: Vec<Update>,
    pub pending_automerge: Vec<Update>,
    pub other: Vec<Update>,
}

/// The value of a [`Dashboard`].
pub struct DashboardView {
    pub pending_approval: Seq<UpdateView>,
    pub open: Seq<UpdateView>,
    pub awaiting_schedule: Seq<UpdateView>,
    pub rate_limited: Seq<UpdateView>,
    pub errored: Seq<UpdateView>,
    pub pending_automerge: Seq<UpdateView>,
    pub other: Seq<UpdateView>,
}

/// The sections of a dashboard.
#[derive(Clone, Copy, PartialEq, Eq, Structural, Debug)]
pub enum Section {
    PendingApproval,
    Open,
    AwaitingSchedule,
    RateLimited,
    Errored,
    PendingAutomerge,
    Other,
}

/// The values of a sequence of updates.
pub open spec fn updates_view(v: Seq<Update>) -> Seq<UpdateView> {
    v.map_values(|u: Update| u@)
}

impl View for Dashboard {
    type V = DashboardView;

    open spec fn view(&self) -> DashboardView {
        DashboardView {
            pending_approval: updates_view(self.pending_approval@),
            open: updates_view(self.open@),
            awaiting_schedule: updates_view(self.awaiting_schedule@),
            rate_limited: updates_view(self.rate_limited@),
            errored: updates_view(self.errored@),
            pending_automerge: updates_view(self.pending_automerge@),
            other: updates_view(self.other@),
        }
    }
}

impl DashboardView {
    /// The dashboard with no updates.
    pub open spec fn empty() -> DashboardView {
        DashboardView {
            pending_approval: seq![],
            open: seq![],
            awaiting_schedule: seq![],
            rate_limited: seq![],
            errored: seq![],
            pending_automerge: seq![],
            other: seq![],
        }
    }

    /// The updates of one section.
    pub open spec fn section(self, s: Section) -> Seq<UpdateView> {
        match s {
            Section::PendingApproval => self.pending_approval,
            Section::Open => self.open,
            Section::AwaitingSchedule => self.awaiting_schedule,
            Section::RateLimited => self.rate_limited,
            Section::Errored => self.errored,
            Section::PendingAutomerge => self.pending_automerge,
            Section::Other => self.other,
        }
    }

    /// The dashboard with `u` appended to section `s`.
    pub open spec fn push(self, s: Section, u: UpdateView) -> DashboardView {
        match s {
            Section::PendingApproval => DashboardView {
                pending_approval: self.pending_approval.push(u),
                ..self
            },
            Section::Open => DashboardView { open: self.open.push(u), ..self },
            Section::AwaitingSchedule => DashboardView {
                awaiting_schedule: self.awaiting_schedule.push(u),
                ..self
            },
            Section::RateLimited => DashboardView {
                rate_limited: self.rate_limited.push(u),
                ..self
            },
            Section::Errored => DashboardView { errored: self.errored.push(u), ..self },
            Section::PendingAutomerge => DashboardView {
                pending_automerge: self.pending_automerge.push(u),
                ..self
            },
            Section::Other => DashboardView { other: self.other.push(u), ..self },
        }
    }
}

proof fn lemma_updates_view_push(v: Seq<Update>, u: Update)
    ensures
        updates_view(v.push(u)) == updates_view(v).push(u@),
{
    assert(updates_view(v.push(u)) =~= updates_view(v).push(u@));
}

impl Dashboard {
    /// A dashboard with no updates.
    pub fn new() -> (d: Dashboard)
        ensures
            d@ == DashboardView::empty(),
    {
        let d = Dashboard {
            pending_approval: Vec::new(),
            open: Vec::new(),
            awaiting_schedule: Vec::new(),
            rate_limited: Vec::new(),
            errored: Vec::new(),
            pending_automerge: Vec::new(),
            other: Vec::new(),
        };
        assert(d@.pending_approval =~= seq![]);
        assert(d@.open =~= seq![]);
        assert(d@.awaiting_schedule =~= seq![]);
        assert(d@.rate_limited =~= seq![]);
        assert(d@.errored =~= seq![]);
        assert(d@.pending_automerge =~= seq![]);
        assert(d@.other =~= seq![]);
        d
    }

    /// Appends `u` to section `s`.
    pub fn push(&mut self, s: Section, u: Update)
        ensures
            final(self)@ == old(self)@.push(s, u@),
    {
        match s {
            Section::PendingApproval => {
                proof { lemma_updates_view_push(self.pending_approval@, u); }
                self.pending_approval.push(u);
            },
            Section::Open => {
                proof { lemma_updates_view_push(self.open@, u); }
                self.open.push(u);
            },
            Section::AwaitingSchedule => {
                proof { lemma_updates_view_push(self.awaiting_schedule@, u); }
                self.awaiting_schedule.push(u);
            },
            Section::RateLimited => {
                proof { lemma_updates_view_push(self.rate_limited@, u); }
                self.rate_limited.push(u);
            },
            Section::Errored => {
                proof { lemma_updates_view_push(self.errored@, u); }
                self.errored.push(u);
            },
            Section::PendingAutomerge => {
                proof { lemma_updates_view_push(self.pending_automerge@, u); }
                self.pending_automerge.push(u);
            },
            Section::Other => {
                proof { lemma_updates_view_push(self.other@, u); }
                self.other.push(u);
            },
        }
    }
}

/// The section that a heading's text names, if it names one.
pub open spec fn section_titled(title: Seq<char>) -> Option<Section> {
    if title == "Pending Approval"@ {
        Some(Section::PendingApproval)
    } else if title == "Open"@ {
        Some(Section::Open)
    } else if title == "Awaiting Schedule"@ {
        Some(Section::AwaitingSchedule)
    } else if title == "Rate-Limited"@ {
        Some(Section::RateLimited)
    } else if title == "Errored"@ {
        Some(Section::Errored)
    } else if title == "Pending Branch Automerge"@ {
        Some(Section::PendingAutomerge)
    } else if title == "Other Branches"@ {
        Some(Section::Other)
    } else {
        None
    }
}

/// The section that a heading's text names, if it names one.
pub fn section_from_title(title: &str) -> (r: Option<Section>)
    ensures
        r == section_titled(title@),
{
    if str_eq(title, "Pending Approval") {
        Some(Section::PendingApproval)
    } else if str_eq(title, "Open") {
        Some(Section::Open)
    } else if str_eq(title, "Awaiting Schedule") {
        Some(Section::AwaitingSchedule)
    } else if str_eq(title, "Rate-Limited") {
        Some(Section::RateLimited)
    } else if str_eq(title, "Errored") {
        Some(Section::Errored)
    } else if str_eq(title, "Pending Branch Automerge") {
        Some(Section::PendingAutomerge)
    } else if str_eq(title, "Other Branches") {
        Some(Section::Other)
    } else {
        None
    }
}

// ---------------------------------------------------------------------------
// Branch names in HTML comments
// ---------------------------------------------------------------------------

/// `s` without the prefix `p`, if it starts with `p`.
pub open spec fn without_prefix(s: Seq<char>, p: Seq<char>) -> Option<Seq<char>> {
    if has_prefix(s, p) {
        Some(s.skip(p.len() as int))
    } else {
        None
    }
}

/// `s` without the prefix `p`, if it starts with `p` (`str::strip_prefix`).
pub fn strip_prefix<'a>(s: &'a str, p: &str) -> (r: Option<&'a str>)
    ensures
        r matches Some(t) ==> without_prefix(s@, p@) == Some(t@),
        r is None ==> without_prefix(s@, p@) is None,
{
    if starts_with(s, p) {
        let n = s.unicode_len();
        let m = p.unicode_len();
        let t = s.substring_char(m, n);
        assert(t@ =~= s@.skip(m as int));
        Some(t)
    } else {
        None
    }
}

/// The branch that the marker inside an HTML comment names: the text after
/// the first of the known markers that the comment's inside starts with.
pub open spec fn branch_after_marker(inner: Seq<char>) -> Option<Seq<char>> {
    if has_prefix(inner, "approve-branch="@) {
        without_prefix(inner, "approve-branch="@)
    } else if has_prefix(inner, "approvePr-branch="@) {
        without_prefix(inner, "approvePr-branch="@)
    } else if has_prefix(inner, "retry-branch="@) {
        without_prefix(inner, "retry-branch="@)
    } else if has_prefix(inner, "unlimit-branch="@) {
        without_prefix(inner, "unlimit-branch="@)
    } else if has_prefix(inner, "unschedule-branch="@) {
        without_prefix(inner, "unschedule-branch="@)
    } else if has_prefix(inner, "other-branch="@) {
        without_prefix(inner, "other-branch="@)
    } else {
        without_prefix(inner, "rebase-branch="@)
    }
}

/// Whether the trimmed text both starts with `<!-- ` and ends with ` -->`
/// but is too short to hold both apart, as `<!-- -->` is.
pub open spec fn comment_markers_overlap(t: Seq<char>) -> bool {
    &&& has_prefix(t, "<!-- "@)
    &&& has_suffix(t, " -->"@)
    &&& t.len() < "<!-- "@.len() + " -->"@.len()
}

/// The branch that an HTML comment `<!-- marker=branch -->` names, if any.
pub open spec fn branch_from_comment(text: Seq<char>) -> Option<Seq<char>> {
    let t = trim(text);
    if has_prefix(t, "<!-- "@) && has_suffix(t, " -->"@) && !comment_markers_overlap(t) {
        branch_after_marker(t.subrange("<!-- "@.len() as int, t.len() - " -->"@.len()))
    } else {
        None
    }
}

/// The branch named by a Renovate HTML comment such as
/// `<!-- approve-branch=renovate/foo -->`, if the comment holds one of the
/// known markers.
pub fn extract_branch_from_comment(text: &str) -> (r: Option<String>)
    requires
        !comment_markers_overlap(trim(text@)),
    ensures
        r matches Some(b) ==> branch_from_comment(text@) == Some(b@),
        r is None ==> branch_from_comment(text@) is None,
{
    let t = trim_str(text);
    if starts_with(t, "<!-- ") && ends_with(t, " -->") {
        let n = t.unicode_len();
        let a = "<!-- ".unicode_len();
        let b = " -->".unicode_len();
        let inner = t.substring_char(a, n - b);
        if let Some(br) = strip_prefix(inner, "approve-branch=") {
            return Some(string_of(br));
        }
        if let Some(br) = strip_prefix(inner, "approvePr-branch=") {
            return Some(string_of(br));
        }
        if let Some(br) = strip_prefix(inner, "retry-branch=") {
            return Some(string_of(br));
        }
        if let Some(br) = strip_prefix(inner, "unlimit-branch=") {
            return Some(string_of(br));
        }
        if let Some(br) = strip_prefix(inner, "unschedule-branch=") {
            return Some(string_of(br));
        }
        if let Some(br) = strip_prefix(inner, "other-branch=") {
            return Some(string_of(br));
        }
        if let Some(br) = strip_prefix(inner, "rebase-branch=") {
            return Some(string_of(br));
        }
    }
    None
}

// ---------------------------------------------------------------------------
// List items
// ---------------------------------------------------------------------------

/// What has been read of one list item so far.
pub struct ItemScan {
    pub branch: Seq<char>,
    pub description: Seq<char>,
    pub checked: bool,
    /// A `[` of the checkbox has been read.
    pub bracket_open: bool,
    /// A `]` closing the checkbox has been read.
    pub bracket_close: bool,
    /// The HTML comment has been read: text from here on is description.
    pub past_checkbox: bool,
}

/// Nothing read yet.
pub open spec fn item_start() -> ItemScan {
    ItemScan {
        branch: seq![],
        description: seq![],
        checked: false,
        bracket_open: false,
        bracket_close: false,
        past_checkbox: false,
    }
}

/// Reading a text node of an item. Before the HTML comment the text belongs
/// to the checkbox `[ ]` or `[x]`; after it, non-blank text is description.
pub open spec fn item_text(st: ItemScan, x: Seq<char>) -> ItemScan {
    let t = trim(x);
    if !st.past_checkbox {
        if t == "["@ {
            ItemScan { bracket_open: true, bracket_close: false, ..st }
        } else if t == "]"@ && st.bracket_open {
            ItemScan { bracket_close: true, ..st }
        } else if st.bracket_close && (t == "x"@ || t == "X"@) {
            ItemScan { checked: true, bracket_open: false, bracket_close: false, ..st }
        } else if t == "-"@ || t.len() == 0 || t == " "@ {
            st
        } else if st.bracket_close && t != "x"@ && t != "X"@ {
            ItemScan { bracket_open: false, bracket_close: false, ..st }
        } else {
            st
        }
    } else if t.len() > 0 {
        ItemScan { description: st.description + t, ..st }
    } else {
        st
    }
}

/// Reading one event inside an item.
pub open spec fn item_step(st: ItemScan, e: MdEventView) -> ItemScan {
    match e {
        MdEventView::InlineHtml(h) => ItemScan {
            branch: match branch_from_comment(h) {
                Some(b) => b,
                None => st.branch,
            },
            past_checkbox: true,
            ..st
        },
        MdEventView::Text(x) => item_text(st, x),
        MdEventView::Code(c) => if st.past_checkbox {
            ItemScan { description: st.description + "`"@ + c + "`"@, ..st }
        } else {
            st
        },
        _ => st,
    }
}

/// The update that an item describes.
pub open spec fn item_update(st: ItemScan) -> UpdateView {
    UpdateView {
        branch: st.branch,
        description: st.description,
        checked: st.checked,
        build_status: None,
    }
}

/// The dashboard with a finished item recorded: an item with a description
/// or a branch goes into the section that the current heading names; any
/// other item, or an item under another heading, is dropped.
pub open spec fn record_item(d: DashboardView, section: Seq<char>, st: ItemScan) -> DashboardView {
    if st.description.len() > 0 || st.branch.len() > 0 {
        match section_titled(section) {
            Some(s) => d.push(s, item_update(st)),
            None => d,
        }
    } else {
        d
    }
}

// ---------------------------------------------------------------------------
// The event stream
// ---------------------------------------------------------------------------

/// Where in the document the parser is.
#[derive(Clone, Copy, PartialEq, Eq, Structural, Debug)]
pub enum Mode {
    /// Between items.
    Outside,
    /// Right after the start of a level-2 heading: the next event holds its title.
    AwaitTitle,
    /// Inside a list item.
    InItem,
}

/// The parser's state between two events.
pub struct ParseState {
    /// The text of the last level-2 heading (empty before the first).
    pub section: Seq<char>,
    pub dashboard: DashboardView,
    pub mode: Mode,
    pub item: ItemScan,
}

pub open spec fn parse_start() -> ParseState {
    ParseState {
        section: seq![],
        dashboard: DashboardView::empty(),
        mode: Mode::Outside,
        item: item_start(),
    }
}

/// Reading one event.
pub open spec fn parse_step(p: ParseState, e: MdEventView) -> ParseState {
    match p.mode {
        Mode::Outside => match e {
            MdEventView::HeadingStart(level) => if level == 2 {
                ParseState { mode: Mode::AwaitTitle, ..p }
            } else {
                p
            },
            MdEventView::ItemStart => ParseState { mode: Mode::InItem, item: item_start(), ..p },
            _ => p,
        },
        Mode::AwaitTitle => match e {
            MdEventView::Text(t) => ParseState { mode: Mode::Outside, section: t, ..p },
            _ => ParseState { mode: Mode::Outside, ..p },
        },
        Mode::InItem => match e {
            MdEventView::ItemEnd => ParseState {
                mode: Mode::Outside,
                dashboard: record_item(p.dashboard, p.section, p.item),
                ..p
            },
            _ => ParseState { item: item_step(p.item, e), ..p },
        },
    }
}

/// The state after reading all of `ev`.
pub open spec fn parse_run(ev: Seq<MdEventView>) -> ParseState
    decreases ev.len(),
{
    if ev.len() == 0 {
        parse_start()
    } else {
        parse_step(parse_run(ev.drop_last()), ev.last())
    }
}

/// The dashboard at the end of the stream: an item still open there is
/// recorded as if it had ended.
pub open spec fn parse_finish(p: ParseState) -> DashboardView {
    if p.mode == Mode::InItem {
        record_item(p.dashboard, p.section, p.item)
    } else {
        p.dashboard
    }
}

/// The dashboard that an event stream describes.
pub open spec fn dashboard_of(ev: Seq<MdEventView>) -> DashboardView {
    parse_finish(parse_run(ev))
}

/// Reading event `e` in state `p` meets a comment `<!-- -->` inside an item,
/// whose markers overlap.
pub open spec fn malformed_at(p: ParseState, e: MdEventView) -> bool {
    &&& p.mode == Mode::InItem
    &&& e matches MdEventView::InlineHtml(h)
    &&& comment_markers_overlap(trim(h))
}

/// Some item of the stream holds a comment whose markers overlap.
pub open spec fn has_malformed_comment(ev: Seq<MdEventView>) -> bool {
    exists|i: int| 0 <= i < ev.len() && malformed_at(parse_run(ev.take(i)), #[trigger] ev[i])
}

/// Why a dashboard body was not read.
#[derive(Debug, PartialEq, Eq, Structural, Clone, Copy)]
pub enum DashboardError {
    /// An item holds the comment `<!-- -->`, whose opening and closing
    /// markers overlap.
    MalformedComment,
}

/// An item being read.
pub struct ItemScanner {
    pub branch: String,
    pub description: String,
    pub checked: bool,
    pub bracket_open: bool,
    pub bracket_close: bool,
    pub past_checkbox: bool,
}

impl View for ItemScanner {
    type V = ItemScan;

    open spec fn view(&self) -> ItemScan {
        ItemScan {
            branch: self.branch@,
            description: self.description@,
            checked: self.checked,
            bracket_open: self.bracket_open,
            bracket_close: self.bracket_close,
            past_checkbox: self.past_checkbox,
        }
    }
}

impl ItemScanner {
    pub fn new() -> (r: ItemScanner)
        ensures
            r@ == item_start(),
    {
        ItemScanner {
            branch: String::new(),
            description: String::new(),
            checked: false,
            bracket_open: false,
            bracket_close: false,
            past_checkbox: false,
        }
    }

    /// Reads a text node.
    pub fn text(&mut self, x: &str)
        ensures
            final(self)@ == item_text(old(self)@, x@),
    {
        let t = trim_str(x);
        if !self.past_checkbox {
            if str_eq(t, "[") {
                self.bracket_open = true;
                self.bracket_close = false;
            } else if str_eq(t, "]") && self.bracket_open {
                self.bracket_close = true;
            } else if self.bracket_close && (str_eq(t, "x") || str_eq(t, "X")) {
                self.checked = true;
                self.bracket_open = false;
                self.bracket_close = false;
            } else if str_eq(t, "-") || t.unicode_len() == 0 || str_eq(t, " ") {
            } else if self.bracket_close && !str_eq(t, "x") && !str_eq(t, "X") {
                self.bracket_open = false;
                self.bracket_close = false;
            }
        } else if t.unicode_len() > 0 {
            self.description.append(t);
        }
    }

    /// Reads one event of the item.
    pub fn step(&mut self, e: &MdEvent)
        requires
            e@ matches MdEventView::InlineHtml(h) ==> !comment_markers_overlap(trim(h)),
        ensures
            final(self)@ == item_step(old(self)@, e@),
    {
        match e {
            MdEvent::InlineHtml(h) => {
                if let Some(b) = extract_branch_from_comment(h.as_str()) {
                    self.branch = b;
                }
                self.past_checkbox = true;
            },
            MdEvent::Text(x) => {
                self.text(x.as_str());
            },
            MdEvent::Code(c) => {
                if self.past_checkbox {
                    self.description.append("`");
                    self.description.append(c.as_str());
                    self.description.append("`");
                }
            },
            _ => {},
        }
    }

    /// The update that the item describes.
    pub fn to_update(&self) -> (u: Update)
        ensures
            u@ == item_update(self@),
    {
        Update {
            branch: self.branch.clone(),
            description: self.description.clone(),
            checked: self.checked,
            build_status: None,
        }
    }
}

/// The state of a parse in progress.
pub struct DashboardParser {
    pub section: String,
    pub dashboard: Dashboard,
    pub mode: Mode,
    pub item: ItemScanner,
}

impl View for DashboardParser {
    type V = ParseState;

    open spec fn view(&self) -> ParseState {
        ParseState {
            section: self.section@,
            dashboard: self.dashboard@,
            mode: self.mode,
            item: self.item@,
        }
    }
}

impl DashboardParser {
    pub fn new() -> (p: DashboardParser)
        ensures
            p@ == parse_start(),
    {
        DashboardParser {
            section: String::new(),
            dashboard: Dashboard::new(),
            mode: Mode::Outside,
            item: ItemScanner::new(),
        }
    }

    /// Records the item just read.
    fn record(&mut self)
        ensures
            final(self)@ == (ParseState {
                dashboard: record_item(old(self)@.dashboard, old(self)@.section, old(self)@.item),
                ..old(self)@
            }),
    {
        if self.item.description.as_str().unicode_len() > 0
            || self.item.branch.as_str().unicode_len() > 0 {
            if let Some(s) = section_from_title(self.section.as_str()) {
                let u = self.item.to_update();
                self.dashboard.push(s, u);
            }
        }
    }

    /// Reads one event.
    pub fn step(&mut self, e: &MdEvent)
        requires
            !malformed_at(old(self)@, e@),
        ensures
            final(self)@ == parse_step(old(self)@, e@),
    {
        match self.mode {
            Mode::Outside => {
                match e {
                    MdEvent::HeadingStart(level) => {
                        if *level == 2 {
                            self.mode = Mode::AwaitTitle;
                        }
                    },
                    MdEvent::ItemStart => {
                        self.mode = Mode::InItem;
                        self.item = ItemScanner::new();
                    },
                    _ => {},
                }
            },
            Mode::AwaitTitle => {
                if let MdEvent::Text(t) = e {
                    self.section = string_of(t.as_str());
                }
                self.mode = Mode::Outside;
            },
            Mode::InItem => {
                match e {
                    MdEvent::ItemEnd => {
                        self.record();
                        self.mode = Mode::Outside;
                    },
                    _ => {
                        self.item.step(e);
                    },
                }
            },
        }
    }

    /// The dashboard read so far, with an item still open recorded.
    pub fn finish(self) -> (d: Dashboard)
        ensures
            d@ == parse_finish(self@),
    {
        let mut p = self;
        if p.mode == Mode::InItem {
            p.record();
        }
        p.dashboard
    }
}


/// Whether the trimmed text starts with `<!-- ` and ends with ` -->` with the
/// two markers overlapping.
pub fn markers_overlap(t: &str) -> (r: bool)
    ensures
        r == comment_markers_overlap(t@),
{
    proof {
        reveal_strlit("<!-- ");
        reveal_strlit(" -->");
    }
    starts_with(t, "<!-- ") && ends_with(t, " -->") && t.unicode_len() < 9
}

impl DashboardParser {
    /// Whether reading `e` next would meet a comment `<!-- -->` inside an item.
    pub fn meets_malformed_comment(&self, e: &MdEvent) -> (r: bool)
        ensures
            r == malformed_at(self@, e@),
    {
        if self.mode == Mode::InItem {
            if let MdEvent::InlineHtml(h) = e {
                return markers_overlap(trim_str(h.as_str()));
            }
        }
        false
    }
}

proof fn lemma_parse_run_take(ev: Seq<MdEventView>, i: int)
    requires
        0 <= i < ev.len(),
    ensures
        parse_run(ev.take(i + 1)) == parse_step(parse_run(ev.take(i)), ev[i]),
{
    assert(ev.take(i + 1).drop_last() =~= ev.take(i));
}

/// Reads the dashboard that an event stream describes. The stream is refused
/// where an item holds a comment `<!-- -->`.
pub fn parse_events(events: &Vec<MdEvent>) -> (r: Result<Dashboard, DashboardError>)
    ensures
        r is Err <==> has_malformed_comment(events_view(events@)),
        r matches Ok(d) ==> d@ == dashboard_of(events_view(events@)),
{
    let ghost ev = events_view(events@);
    let mut p = DashboardParser::new();
    let n = events.len();
    let mut i: usize = 0;
    assert(ev.take(0) =~= Seq::<MdEventView>::empty());
    while i < n
        invariant
            n == events@.len(),
            ev == events_view(events@),
            ev.len() == n,
            i <= n,
            p@ == parse_run(ev.take(i as int)),
            forall|k: int| 0 <= k < i ==> !malformed_at(parse_run(ev.take(k)), #[trigger] ev[k]),
        decreases n - i,
    {
        let e = &events[i];
        assert(e@ == ev[i as int]);
        if p.meets_malformed_comment(e) {
            return Err(DashboardError::MalformedComment);
        }
        proof {
            lemma_parse_run_take(ev, i as int);
        }
        p.step(e);
        i = i + 1;
    }
    assert(ev.take(n as int) =~= ev);
    Ok(p.finish())
}

/// Reads a dashboard issue body: its Markdown events, as `pulldown_cmark`
/// gives them, run through [`parse_events`].
pub fn parse_dashboard(body: &str) -> (r: Result<Dashboard, DashboardError>)
    ensures
        r is Err <==> has_malformed_comment(markdown_events(body@)),
        r matches Ok(d) ==> d@ == dashboard_of(markdown_events(body@)),
{
    let events = markdown_events_of(body);
    parse_events(&events)
}

// ---------------------------------------------------------------------------
// Laws
// ---------------------------------------------------------------------------

/// An update as the dashboard parser records it: it names a branch or has a
/// description, and carries no build status.
pub open spec fn parsed_update(u: UpdateView) -> bool {
    &&& (u.description.len() > 0 || u.branch.len() > 0)
    &&& u.build_status is None
}

/// Every update in every section of `d` is a [`parsed_update`].
pub open spec fn all_parsed(d: DashboardView) -> bool {
    forall|s: Section, i: int|
        0 <= i < d.section(s).len() ==> parsed_update(#[trigger] d.section(s)[i])
}

proof fn lemma_push_section(d: DashboardView, s: Section, u: UpdateView, t: Section)
    ensures
        d.push(s, u).section(t) == if s == t {
            d.section(t).push(u)
        } else {
            d.section(t)
        },
{
}

proof fn lemma_record_keeps_parsed(d: DashboardView, section: Seq<char>, st: ItemScan)
    requires
        all_parsed(d),
    ensures
        all_parsed(record_item(d, section, st)),
{
    if st.description.len() > 0 || st.branch.len() > 0 {
        if let Some(s) = section_titled(section) {
            let u = item_update(st);
            assert forall|t: Section, i: int|
                0 <= i < d.push(s, u).section(t).len() implies parsed_update(
                #[trigger] d.push(s, u).section(t)[i],
            ) by {
                lemma_push_section(d, s, u, t);
                if s == t && i == d.section(t).len() {
                } else {
                    assert(d.push(s, u).section(t)[i] == d.section(t)[i]);
                }
            }
        }
    }
}

proof fn lemma_run_parsed(ev: Seq<MdEventView>)
    ensures
        all_parsed(parse_run(ev).dashboard),
    decreases ev.len(),
{
    if ev.len() == 0 {
        assert(all_parsed(DashboardView::empty()));
    } else {
        let p = parse_run(ev.drop_last());
        lemma_run_parsed(ev.drop_last());
        if p.mode == Mode::InItem {
            lemma_record_keeps_parsed(p.dashboard, p.section, p.item);
        }
    }
}

/// Every update that the parser records names a branch or has a
/// description, and has no build status.
pub proof fn law_parsed_updates_are_named(ev: Seq<MdEventView>)
    ensures
        all_parsed(dashboard_of(ev)),
{
    lemma_run_parsed(ev);
    let p = parse_run(ev);
    if p.mode == Mode::InItem {
        lemma_record_keeps_parsed(p.dashboard, p.section, p.item);
    }
}

/// The update that an item read so far stands for: its branch (empty where
/// none is named), its description and its checkbox, with no build status.
pub open spec fn read_update(st: ItemScan) -> UpdateView {
    UpdateView {
        branch: st.branch,
        description: st.description,
        checked: st.checked,
        build_status: None,
    }
}

/// What ending an item does to the dashboard `d`, read under the heading
/// `section`: where the heading names section `s` and the item has a
/// description or names a branch (either alone is enough), the item is
/// appended to `s` and every other section `t` stays as it was; an item with
/// neither, or under a heading that names no section, leaves `d` unchanged.
pub open spec fn item_recorded(
    d: DashboardView,
    after: DashboardView,
    section: Seq<char>,
    st: ItemScan,
    s: Section,
    t: Section,
) -> bool {
    &&& (section_titled(section) == Some(s) && (st.description.len() > 0 || st.branch.len() > 0))
        ==> {
        &&& after.section(s) == d.section(s).push(read_update(st))
        &&& t != s ==> after.section(t) == d.section(t)
    }
    &&& (section_titled(section) is None || (st.description.len() == 0 && st.branch.len()
        == 0)) ==> after == d
}

/// An item is recorded when it ends, or when the stream ends inside it:
/// under a heading that names a section, an item that has a description is
/// appended to that section whether or not it names a branch (and one that
/// names a branch whether or not it has a description), with its branch,
/// description and checkbox; the other sections do not change. Only an item
/// with neither, or one under a heading that names no section, is dropped.
pub proof fn law_ended_item_is_recorded(ev: Seq<MdEventView>, s: Section, t: Section)
    requires
        parse_run(ev).mode == Mode::InItem,
    ensures
        ({
            let p = parse_run(ev);
            let q = parse_run(ev.push(MdEventView::ItemEnd));
            &&& q.mode == Mode::Outside
            &&& q.section == p.section
            &&& item_recorded(p.dashboard, q.dashboard, p.section, p.item, s, t)
            &&& item_recorded(p.dashboard, dashboard_of(ev), p.section, p.item, s, t)
        }),
{
    assert(ev.push(MdEventView::ItemEnd).drop_last() =~= ev);
    let p = parse_run(ev);
    if let Some(s0) = section_titled(p.section) {
        lemma_push_section(p.dashboard, s0, item_update(p.item), s);
        lemma_push_section(p.dashboard, s0, item_update(p.item), t);
    }
}

} // verus!
