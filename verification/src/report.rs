//! The HTML report: a summary of all dashboards, then each repository's
//! dashboard, the repositories with the most updates first.
use crate::client::PlatformClient;
use crate::order::{order_by_key_desc, order_desc};
use crate::parser::{Dashboard, DashboardView, Section, Update, UpdateView, updates_view};
use crate::text::{decimal, push_decimal, string_of};
use vstd::prelude::*;
use vstd::string::*;

verus! {

/// The page up to the generation time: document head, styles and title.
pub const REPORT_HEAD: &'static str = r#"<!DOCTYPE html>
<html lang="en">
<head>
    <meta charset="UTF-8">
    <meta name="viewport" content="width=device-width, initial-scale=1.0">
    <title>Renovate Dashboard Report</title>
    <style>
        * { margin: 0; padding: 0; box-sizing: border-box; }
        body { font-family: -apple-system, BlinkMacSystemFont, 'Segoe UI', Roboto, sans-serif; background: #f5f5f5; color: #333; padding: 2rem; }
        .container { max-width: 1200px; margin: 0 auto; }
        h1 { margin-bottom: 0.5rem; color: #1a1a1a; }
        .timestamp { color: #666; margin-bottom: 2rem; }
        .summary { display: grid; grid-template-columns: repeat(auto-fit, minmax(150px, 1fr)); gap: 1rem; margin-bottom: 2rem; }
        .card { background: white; border-radius: 8px; padding: 1.5rem; box-shadow: 0 1px 3px rgba(0,0,0,0.1); text-align: center; }
        .card h3 { font-size: 2rem; margin-bottom: 0.5rem; }
        .card p { color: #666; font-size: 0.9rem; }
        .card.total h3 { color: #1a1a1a; }
        .card.pending h3 { color: #f59e0b; }
        .card.open h3 { color: #10b981; }
        .card.awaiting h3 { color: #3b82f6; }
        .card.ratelimited h3 { color: #8b5cf6; }
        .card.error h3 { color: #ef4444; }
        .card.automerge h3 { color: #10b981; }
        .card.other h3 { color: #6b7280; }
        .repo { background: white; border-radius: 8px; padding: 1.5rem; margin-bottom: 1rem; box-shadow: 0 1px 3px rgba(0,0,0,0.1); }
        .repo h2 { font-size: 1.25rem; margin-bottom: 1rem; color: #1a1a1a; border-bottom: 2px solid #e5e7eb; padding-bottom: 0.5rem; }
        .repo a { color: #3b82f6; text-decoration: none; }
        .repo a:hover { text-decoration: underline; }
        .section { margin-bottom: 1rem; }
        .section h3 { font-size: 1rem; margin-bottom: 0.5rem; color: #374151; }
        .section.empty { color: #9ca3af; font-style: italic; }
        table { width: 100%; border-collapse: collapse; margin-bottom: 1rem; }
        th, td { padding: 0.75rem; text-align: left; border-bottom: 1px solid #e5e7eb; }
        th { background: #f9fafb; font-weight: 600; font-size: 0.85rem; text-transform: uppercase; color: #6b7280; }
        tr:hover { background: #f9fafb; }
        td a { color: #3b82f6; text-decoration: none; }
        td a:hover { text-decoration: underline; }
        .badge { display: inline-block; padding: 0.25rem 0.5rem; border-radius: 4px; font-size: 0.75rem; font-weight: 500; }
        .badge.pending { background: #fef3c7; color: #92400e; }
        .badge.open { background: #d1fae5; color: #065f46; }
        .badge.awaiting { background: #dbeafe; color: #1e40af; }
        .badge.ratelimited { background: #ede9fe; color: #5b21b6; }
        .badge.error { background: #fee2e2; color: #991b1b; }
        .badge.automerge { background: #d1fae5; color: #065f46; }
        .badge.other { background: #f3f4f6; color: #374151; }
        .no-dashboards { text-align: center; padding: 3rem; color: #6b7280; }
    </style>
</head>
<body>
    <div class="container">
        <h1>Renovate Dashboard Report</h1>
        <p class="timestamp">Generated: "#;

/// After the generation time: opening of the summary and of the card of all updates.
pub const CARD_TOTAL: &'static str = r#"</p>

        <div class="summary">
            <div class="card total">
                <h3>"#;

/// After the number of all updates: the card of updates pending approval.
pub const CARD_PENDING: &'static str = r#"</h3>
                <p>Total Updates</p>
            </div>
            <div class="card pending">
                <h3>"#;

/// After the number pending approval: the card of open pull requests.
pub const CARD_OPEN: &'static str = r#"</h3>
                <p>Pending Approval</p>
            </div>
            <div class="card open">
                <h3>"#;

/// After the number of open pull requests: the card of updates awaiting their schedule.
pub const CARD_AWAITING: &'static str = r#"</h3>
                <p>Open PRs</p>
            </div>
            <div class="card awaiting">
                <h3>"#;

/// After the number awaiting schedule: the card of rate-limited updates.
pub const CARD_RATE_LIMITED: &'static str = r#"</h3>
                <p>Awaiting Schedule</p>
            </div>
            <div class="card ratelimited">
                <h3>"#;

/// After the number rate-limited: the card of errored updates.
pub const CARD_ERRORED: &'static str = r#"</h3>
                <p>Rate-Limited</p>
            </div>
            <div class="card error">
                <h3>"#;

/// After the number errored: the card of updates pending automerge.
pub const CARD_AUTOMERGE: &'static str = r#"</h3>
                <p>Errored</p>
            </div>
            <div class="card automerge">
                <h3>"#;

/// After the number pending automerge: the card of other branches.
pub const CARD_OTHER: &'static str = r#"</h3>
                <p>Pending Automerge</p>
            </div>
            <div class="card other">
                <h3>"#;

/// After the number of other branches: end of the summary.
pub const SUMMARY_END: &'static str = r#"</h3>
                <p>Other</p>
            </div>
        </div>
"#;

/// Opening of a repository's block, before the dashboard's URL.
pub const REPO_OPEN: &'static str = r#"<div class="repo">
    <h2><a href=""#;

/// Between the dashboard's URL and the repository's name.
pub const REPO_LINK_MID: &'static str = r#"">"#;

/// After the repository's name.
pub const REPO_LINK_END: &'static str = "</a></h2>";

/// End of a repository's block.
pub const REPO_CLOSE: &'static str = "</div>\n";

/// What the report shows where no dashboard was found.
pub const NO_DASHBOARDS: &'static str = r#"<div class="no-dashboards"><p>No Renovate dashboards found.</p></div>"#;

/// End of the page.
pub const REPORT_FOOT: &'static str = "</div>\n</body>\n</html>";

/// Opening of an empty section, before its title.
pub const EMPTY_SECTION_OPEN: &'static str = r#"<div class="section empty"><h3>"#;

/// End of an empty section, after its title.
pub const EMPTY_SECTION_CLOSE: &'static str = ": None</h3></div>";

/// Opening of a section, before its badge's class.
pub const SECTION_OPEN: &'static str = r#"<div class="section">
    <h3><span class="badge "#;

/// Between the badge's class and the section's title.
pub const SECTION_BADGE_MID: &'static str = r#"">"#;

/// Between the section's title and its number of updates.
pub const SECTION_COUNT_OPEN: &'static str = "</span> (";

/// After the number of updates: the table's head.
pub const SECTION_TABLE_HEAD: &'static str = r#")</h3>
    <table>
        <thead><tr><th>Description</th><th>Branch</th></tr></thead>
        <tbody>"#;

/// End of a section's table.
pub const SECTION_CLOSE: &'static str = "</tbody></table></div>";

/// Opening of a table row, before the description.
pub const ROW_OPEN: &'static str = "<tr><td>";

/// Between the description and the branch cell.
pub const ROW_MID: &'static str = "</td><td>";

/// End of a table row.
pub const ROW_CLOSE: &'static str = "</td></tr>";

/// The branch cell of an update that names no branch.
pub const NO_BRANCH: &'static str = "-";

/// Opening of a branch link, before its URL.
pub const BRANCH_LINK_OPEN: &'static str = r#"<a href=""#;

/// Between the link's URL and the branch name.
pub const BRANCH_LINK_MID: &'static str = r#""><code>"#;

/// After the branch name.
pub const BRANCH_LINK_CLOSE: &'static str = "</code></a>";


// ---------------------------------------------------------------------------
// Counting
// ---------------------------------------------------------------------------

/// The number of updates on a dashboard, over all sections.
pub open spec fn update_count(d: DashboardView) -> nat {
    d.pending_approval.len() + d.open.len() + d.awaiting_schedule.len() + d.rate_limited.len()
        + d.errored.len() + d.pending_automerge.len() + d.other.len()
}

/// The number of updates of one section (`Some`) or of all (`None`).
pub open spec fn tally(d: DashboardView, k: Option<Section>) -> nat {
    match k {
        None => update_count(d),
        Some(s) => d.section(s).len(),
    }
}

/// One repository's dashboard: the repository's full name, its short name,
/// the dashboard's URL and the dashboard.
pub type RepoDashboard = (String, String, String, Dashboard);

/// The value of a [`RepoDashboard`].
pub type RepoDashboardView = (Seq<char>, Seq<char>, Seq<char>, DashboardView);

/// The values of a sequence of repository dashboards.
pub open spec fn repos_view(v: Seq<RepoDashboard>) -> Seq<RepoDashboardView> {
    v.map_values(|r: RepoDashboard| r@)
}

/// The number of updates of one section, or of all, over all dashboards.
pub open spec fn tally_all(ds: Seq<RepoDashboardView>, k: Option<Section>) -> nat
    decreases ds.len(),
{
    if ds.len() == 0 {
        0
    } else {
        tally_all(ds.drop_last(), k) + tally(ds.last().3, k)
    }
}

/// The number of updates on a dashboard.
pub fn count_updates(dashboard: &Dashboard) -> (n: usize)
    requires
        update_count(dashboard@) <= usize::MAX,
    ensures
        n == update_count(dashboard@),
{
    dashboard.pending_approval.len() + dashboard.open.len() + dashboard.awaiting_schedule.len()
        + dashboard.rate_limited.len() + dashboard.errored.len()
        + dashboard.pending_automerge.len() + dashboard.other.len()
}

/// The number of updates of one section (`Some`) or of all (`None`).
fn tally_of(dashboard: &Dashboard, k: Option<Section>) -> (n: usize)
    requires
        update_count(dashboard@) <= usize::MAX,
    ensures
        n == tally(dashboard@, k),
{
    match k {
        None => count_updates(dashboard),
        Some(Section::PendingApproval) => dashboard.pending_approval.len(),
        Some(Section::Open) => dashboard.open.len(),
        Some(Section::AwaitingSchedule) => dashboard.awaiting_schedule.len(),
        Some(Section::RateLimited) => dashboard.rate_limited.len(),
        Some(Section::Errored) => dashboard.errored.len(),
        Some(Section::PendingAutomerge) => dashboard.pending_automerge.len(),
        Some(Section::Other) => dashboard.other.len(),
    }
}

proof fn lemma_tally_all_bounded(ds: Seq<RepoDashboardView>, k: Option<Section>)
    ensures
        tally_all(ds, k) <= tally_all(ds, None),
        forall|i: int| 0 <= i < ds.len() ==> update_count(#[trigger] ds[i].3) <= tally_all(ds, None),
    decreases ds.len(),
{
    if ds.len() > 0 {
        lemma_tally_all_bounded(ds.drop_last(), k);
        assert forall|i: int| 0 <= i < ds.len() implies update_count(#[trigger] ds[i].3)
            <= tally_all(ds, None) by {
            if i < ds.len() - 1 {
                assert(ds.drop_last()[i] == ds[i]);
            }
        }
    }
}

proof fn lemma_tally_all_prefix(ds: Seq<RepoDashboardView>, k: Option<Section>, i: int)
    requires
        0 <= i <= ds.len(),
    ensures
        tally_all(ds.take(i), k) <= tally_all(ds, k),
    decreases ds.len(),
{
    if i == ds.len() {
        assert(ds.take(i) =~= ds);
    } else {
        lemma_tally_all_prefix(ds.drop_last(), k, i);
        assert(ds.drop_last().take(i) =~= ds.take(i));
    }
}

/// The number of updates of one section, or of all, over all dashboards.
pub fn sum_tally(dashboards: &Vec<RepoDashboard>, k: Option<Section>) -> (n: usize)
    requires
        tally_all(repos_view(dashboards@), None) <= usize::MAX,
    ensures
        n == tally_all(repos_view(dashboards@), k),
{
    let ghost ds = repos_view(dashboards@);
    let len = dashboards.len();
    let mut acc: usize = 0;
    let mut i: usize = 0;
    proof {
        lemma_tally_all_bounded(ds, k);
        assert(ds.take(0) =~= Seq::<RepoDashboardView>::empty());
    }
    while i < len
        invariant
            len == dashboards@.len(),
            ds == repos_view(dashboards@),
            i <= len,
            acc == tally_all(ds.take(i as int), k),
            tally_all(ds, k) <= tally_all(ds, None),
            forall|j: int| 0 <= j < ds.len() ==> update_count(#[trigger] ds[j].3) <= tally_all(
                ds,
                None,
            ),
            tally_all(ds, None) <= usize::MAX,
        decreases len - i,
    {
        proof {
            assert(ds.take(i + 1).drop_last() =~= ds.take(i as int));
            lemma_tally_all_prefix(ds, k, i + 1);
            assert(ds[i as int] == dashboards@[i as int]@);
        }
        let n = tally_of(&dashboards[i].3, k);
        acc = acc + n;
        i = i + 1;
    }
    assert(ds.take(len as int) =~= ds);
    acc
}

// ---------------------------------------------------------------------------
// Rendering
// ---------------------------------------------------------------------------

/// The branch cell of an update's row: a link to the pull requests of the
/// branch, or `-` where the update names no branch.
pub open spec fn branch_cell(u: UpdateView, full_name: Seq<char>, client: PlatformClient) -> Seq<
    char,
> {
    if u.branch.len() == 0 {
        NO_BRANCH@
    } else {
        BRANCH_LINK_OPEN@ + client.spec_pr_search_url(full_name, u.branch) + BRANCH_LINK_MID@
            + u.branch + BRANCH_LINK_CLOSE@
    }
}

/// The table row of one update.
pub open spec fn row_html(u: UpdateView, full_name: Seq<char>, client: PlatformClient) -> Seq<
    char,
> {
    ROW_OPEN@ + u.description + ROW_MID@ + branch_cell(u, full_name, client) + ROW_CLOSE@
}

/// The table rows of the updates, in order.
pub open spec fn rows_html(us: Seq<UpdateView>, full_name: Seq<char>, client: PlatformClient) -> Seq<
    char,
>
    decreases us.len(),
{
    if us.len() == 0 {
        seq![]
    } else {
        rows_html(us.drop_last(), full_name, client) + row_html(us.last(), full_name, client)
    }
}

/// A section of a repository's block: its title and, where it has updates,
/// their number and their table.
pub open spec fn section_html(
    title: Seq<char>,
    us: Seq<UpdateView>,
    badge: Seq<char>,
    full_name: Seq<char>,
    client: PlatformClient,
) -> Seq<char> {
    if us.len() == 0 {
        EMPTY_SECTION_OPEN@ + title + EMPTY_SECTION_CLOSE@
    } else {
        SECTION_OPEN@ + badge + SECTION_BADGE_MID@ + title + SECTION_COUNT_OPEN@ + decimal(us.len())
            + SECTION_TABLE_HEAD@ + rows_html(us, full_name, client) + SECTION_CLOSE@
    }
}

/// A repository's block: a link to its dashboard and its seven sections.
pub open spec fn repo_html(r: RepoDashboardView, client: PlatformClient) -> Seq<char> {
    let d = r.3;
    REPO_OPEN@ + r.2 + REPO_LINK_MID@ + r.0 + REPO_LINK_END@
        + section_html("Pending Approval"@, d.pending_approval, "pending"@, r.0, client)
        + section_html("Open PRs"@, d.open, "open"@, r.0, client)
        + section_html("Awaiting Schedule"@, d.awaiting_schedule, "awaiting"@, r.0, client)
        + section_html("Rate-Limited"@, d.rate_limited, "ratelimited"@, r.0, client)
        + section_html("Errored"@, d.errored, "error"@, r.0, client)
        + section_html("Pending Branch Automerge"@, d.pending_automerge, "automerge"@, r.0, client)
        + section_html("Other Branches"@, d.other, "other"@, r.0, client) + REPO_CLOSE@
}

/// The blocks of the repositories, in order.
pub open spec fn repos_html(rs: Seq<RepoDashboardView>, client: PlatformClient) -> Seq<char>
    decreases rs.len(),
{
    if rs.len() == 0 {
        seq![]
    } else {
        repos_html(rs.drop_last(), client) + repo_html(rs.last(), client)
    }
}

/// The number of updates of each dashboard.
pub open spec fn repo_keys(ds: Seq<RepoDashboardView>) -> Seq<usize> {
    Seq::new(ds.len(), |i: int| update_count(ds[i].3) as usize)
}

/// The dashboards, those with the most updates first; dashboards with as
/// many updates keep their order.
pub open spec fn by_update_count(ds: Seq<RepoDashboardView>) -> Seq<RepoDashboardView> {
    order_desc(repo_keys(ds)).map_values(|i: usize| ds[i as int])
}

/// The top of the page: head, generation time, and the summary cards with
/// the number of all updates and of each section's updates.
pub open spec fn summary_html(timestamp: Seq<char>, ds: Seq<RepoDashboardView>) -> Seq<char> {
    REPORT_HEAD@ + timestamp + CARD_TOTAL@ + decimal(tally_all(ds, None)) + CARD_PENDING@
        + decimal(tally_all(ds, Some(Section::PendingApproval))) + CARD_OPEN@ + decimal(
        tally_all(ds, Some(Section::Open)),
    ) + CARD_AWAITING@ + decimal(tally_all(ds, Some(Section::AwaitingSchedule)))
        + CARD_RATE_LIMITED@ + decimal(tally_all(ds, Some(Section::RateLimited)))
        + CARD_ERRORED@ + decimal(tally_all(ds, Some(Section::Errored))) + CARD_AUTOMERGE@
        + decimal(tally_all(ds, Some(Section::PendingAutomerge))) + CARD_OTHER@ + decimal(
        tally_all(ds, Some(Section::Other)),
    ) + SUMMARY_END@
}

/// The whole report.
pub open spec fn report_html(
    timestamp: Seq<char>,
    ds: Seq<RepoDashboardView>,
    client: PlatformClient,
) -> Seq<char> {
    summary_html(timestamp, ds) + (if ds.len() == 0 {
        NO_DASHBOARDS@
    } else {
        repos_html(by_update_count(ds), client)
    }) + REPORT_FOOT@
}

/// Appends a section of a repository's block.
pub fn render_section(
    html: &mut String,
    title: &str,
    updates: &Vec<Update>,
    badge_class: &str,
    full_name: &str,
    client: &PlatformClient,
)
    ensures
        final(html)@ == old(html)@ + section_html(
            title@,
            updates_view(updates@),
            badge_class@,
            full_name@,
            *client,
        ),
{
    let ghost us = updates_view(updates@);
    let ghost start = html@;
    let n = updates.len();
    if n == 0 {
        html.append(EMPTY_SECTION_OPEN);
        html.append(title);
        html.append(EMPTY_SECTION_CLOSE);
        return;
    }
    html.append(SECTION_OPEN);
    html.append(badge_class);
    html.append(SECTION_BADGE_MID);
    html.append(title);
    html.append(SECTION_COUNT_OPEN);
    push_decimal(html, n as u64);
    html.append(SECTION_TABLE_HEAD);
    let ghost table = html@;
    let mut i: usize = 0;
    assert(us.take(0) =~= Seq::<UpdateView>::empty());
    assert(table =~= table + rows_html(us.take(0), full_name@, *client));
    while i < n
        invariant
            n == updates@.len(),
            us == updates_view(updates@),
            i <= n,
            html@ == table + rows_html(us.take(i as int), full_name@, *client),
        decreases n - i,
    {
        let u = &updates[i];
        let ghost before = html@;
        html.append(ROW_OPEN);
        html.append(u.description.as_str());
        html.append(ROW_MID);
        if u.branch.as_str().unicode_len() == 0 {
            html.append(NO_BRANCH);
        } else {
            let url = client.pr_search_url(full_name, u.branch.as_str());
            html.append(BRANCH_LINK_OPEN);
            html.append(url.as_str());
            html.append(BRANCH_LINK_MID);
            html.append(u.branch.as_str());
            html.append(BRANCH_LINK_CLOSE);
        }
        html.append(ROW_CLOSE);
        proof {
            assert(us[i as int] == u@);
            assert(html@ =~= before + row_html(u@, full_name@, *client));
            assert(us.take(i + 1).drop_last() =~= us.take(i as int));
            assert(html@ =~= table + rows_html(us.take(i + 1), full_name@, *client));
        }
        i = i + 1;
    }
    html.append(SECTION_CLOSE);
    assert(us.take(n as int) =~= us);
    assert(html@ =~= start + section_html(title@, us, badge_class@, full_name@, *client));
}

/// A repository's block.
fn render_repo(r: &RepoDashboard, client: &PlatformClient) -> (html: String)
    ensures
        html@ == repo_html(r@, *client),
{
    let (full_name, _repo_name, dashboard_url, dashboard) = r;
    let mut html = string_of(REPO_OPEN);
    html.append(dashboard_url.as_str());
    html.append(REPO_LINK_MID);
    html.append(full_name.as_str());
    html.append(REPO_LINK_END);
    let f = full_name.as_str();
    render_section(&mut html, "Pending Approval", &dashboard.pending_approval, "pending", f, client);
    render_section(&mut html, "Open PRs", &dashboard.open, "open", f, client);
    render_section(
        &mut html,
        "Awaiting Schedule",
        &dashboard.awaiting_schedule,
        "awaiting",
        f,
        client,
    );
    render_section(&mut html, "Rate-Limited", &dashboard.rate_limited, "ratelimited", f, client);
    render_section(&mut html, "Errored", &dashboard.errored, "error", f, client);
    render_section(
        &mut html,
        "Pending Branch Automerge",
        &dashboard.pending_automerge,
        "automerge",
        f,
        client,
    );
    render_section(&mut html, "Other Branches", &dashboard.other, "other", f, client);
    html.append(REPO_CLOSE);
    html
}

/// The summary at the top of the page.
fn render_summary(dashboards: &Vec<RepoDashboard>, timestamp: &str) -> (html: String)
    requires
        tally_all(repos_view(dashboards@), None) <= usize::MAX,
    ensures
        html@ == summary_html(timestamp@, repos_view(dashboards@)),
{
    let mut html = string_of(REPORT_HEAD);
    html.append(timestamp);
    html.append(CARD_TOTAL);
    push_decimal(&mut html, sum_tally(dashboards, None) as u64);
    html.append(CARD_PENDING);
    push_decimal(&mut html, sum_tally(dashboards, Some(Section::PendingApproval)) as u64);
    html.append(CARD_OPEN);
    push_decimal(&mut html, sum_tally(dashboards, Some(Section::Open)) as u64);
    html.append(CARD_AWAITING);
    push_decimal(&mut html, sum_tally(dashboards, Some(Section::AwaitingSchedule)) as u64);
    html.append(CARD_RATE_LIMITED);
    push_decimal(&mut html, sum_tally(dashboards, Some(Section::RateLimited)) as u64);
    html.append(CARD_ERRORED);
    push_decimal(&mut html, sum_tally(dashboards, Some(Section::Errored)) as u64);
    html.append(CARD_AUTOMERGE);
    push_decimal(&mut html, sum_tally(dashboards, Some(Section::PendingAutomerge)) as u64);
    html.append(CARD_OTHER);
    push_decimal(&mut html, sum_tally(dashboards, Some(Section::Other)) as u64);
    html.append(SUMMARY_END);
    html
}

/// The number of updates of each dashboard.
fn update_counts(dashboards: &Vec<RepoDashboard>) -> (keys: Vec<usize>)
    requires
        tally_all(repos_view(dashboards@), None) <= usize::MAX,
    ensures
        keys@ == repo_keys(repos_view(dashboards@)),
{
    let ghost ds = repos_view(dashboards@);
    let n = dashboards.len();
    let mut keys: Vec<usize> = Vec::new();
    let mut i: usize = 0;
    proof {
        lemma_tally_all_bounded(ds, None);
    }
    while i < n
        invariant
            n == dashboards@.len(),
            ds == repos_view(dashboards@),
            i <= n,
            keys@.len() == i,
            forall|j: int| 0 <= j < i ==> keys@[j] == repo_keys(ds)[j],
            forall|j: int| 0 <= j < ds.len() ==> update_count(#[trigger] ds[j].3) <= tally_all(
                ds,
                None,
            ),
            tally_all(ds, None) <= usize::MAX,
        decreases n - i,
    {
        assert(ds[i as int] == dashboards@[i as int]@);
        assert(update_count(ds[i as int].3) <= tally_all(ds, None));
        keys.push(count_updates(&dashboards[i].3));
        i = i + 1;
    }
    assert(keys@ =~= repo_keys(ds));
    keys
}

/// The blocks of the repositories, most updates first.
fn render_repos(dashboards: &Vec<RepoDashboard>, client: &PlatformClient) -> (html: String)
    requires
        tally_all(repos_view(dashboards@), None) <= usize::MAX,
    ensures
        html@ == repos_html(by_update_count(repos_view(dashboards@)), *client),
{
    let ghost ds = repos_view(dashboards@);
    let n = dashboards.len();
    let keys = update_counts(dashboards);
    let order = order_by_key_desc(&keys);
    proof {
        crate::order::law_order_is_stable_sort(keys@);
    }
    let ghost sorted = by_update_count(ds);
    let mut html = String::new();
    let mut k: usize = 0;
    assert(sorted.take(0) =~= Seq::<RepoDashboardView>::empty());
    while k < n
        invariant
            n == dashboards@.len(),
            ds == repos_view(dashboards@),
            order@ == order_desc(keys@),
            keys@ == repo_keys(ds),
            order@.len() == n,
            crate::order::below(order@, n as int),
            sorted == by_update_count(ds),
            sorted.len() == n,
            k <= n,
            html@ == repos_html(sorted.take(k as int), *client),
        decreases n - k,
    {
        let j = order[k];
        assert(j < n);
        assert(sorted[k as int] == dashboards@[j as int]@);
        let block = render_repo(&dashboards[j], client);
        html.append(block.as_str());
        proof {
            assert(sorted.take(k + 1).drop_last() =~= sorted.take(k as int));
        }
        k = k + 1;
    }
    assert(sorted.take(n as int) =~= sorted);
    html
}

/// The report of `dashboards`, generated at `timestamp`: the summary, then
/// each repository's block, most updates first.
pub fn render_report(dashboards: &Vec<RepoDashboard>, client: &PlatformClient, timestamp: &str) -> (html: String)
    requires
        tally_all(repos_view(dashboards@), None) <= usize::MAX,
    ensures
        html@ == report_html(timestamp@, repos_view(dashboards@), *client),
{
    let mut html = render_summary(dashboards, timestamp);
    if dashboards.len() == 0 {
        html.append(NO_DASHBOARDS);
    } else {
        let body = render_repos(dashboards, client);
        html.append(body.as_str());
    }
    html.append(REPORT_FOOT);
    html
}

// ---------------------------------------------------------------------------
// Laws
// ---------------------------------------------------------------------------

/// The number of all updates is the sum of the numbers of the seven
/// sections, for one dashboard and over all dashboards.
pub proof fn law_total_is_sum_of_sections(ds: Seq<RepoDashboardView>)
    ensures
        tally_all(ds, None) == tally_all(ds, Some(Section::PendingApproval)) + tally_all(
            ds,
            Some(Section::Open),
        ) + tally_all(ds, Some(Section::AwaitingSchedule)) + tally_all(
            ds,
            Some(Section::RateLimited),
        ) + tally_all(ds, Some(Section::Errored)) + tally_all(
            ds,
            Some(Section::PendingAutomerge),
        ) + tally_all(ds, Some(Section::Other)),
    decreases ds.len(),
{
    if ds.len() > 0 {
        law_total_is_sum_of_sections(ds.drop_last());
    }
}

/// The report shows every dashboard, and no other: its blocks are the
/// dashboards reordered so that the numbers of updates never increase; two
/// dashboards with as many updates keep the order in which they were found.
pub proof fn law_report_lists_every_dashboard_most_updates_first(ds: Seq<RepoDashboardView>)
    requires
        ds.len() <= usize::MAX,
        tally_all(ds, None) <= usize::MAX,
    ensures
        by_update_count(ds).len() == ds.len(),
        forall|i: int| 0 <= i < ds.len() ==> by_update_count(ds).contains(#[trigger] ds[i]),
        forall|k: int| 0 <= k < ds.len() ==> ds.contains(#[trigger] by_update_count(ds)[k]),
        forall|k: int, l: int|
            #![trigger by_update_count(ds)[k], by_update_count(ds)[l]]
            0 <= k < l < ds.len() ==> update_count(by_update_count(ds)[k].3) >= update_count(
                by_update_count(ds)[l].3,
            ),
        forall|k: int, l: int|
            #![trigger order_desc(repo_keys(ds))[k], order_desc(repo_keys(ds))[l]]
            0 <= k < l < ds.len() && update_count(by_update_count(ds)[k].3) == update_count(
                by_update_count(ds)[l].3,
            ) ==> order_desc(repo_keys(ds))[k] < order_desc(repo_keys(ds))[l],
{
    let keys = repo_keys(ds);
    let o = order_desc(keys);
    let sorted = by_update_count(ds);
    crate::order::law_order_is_stable_sort(keys);
    lemma_tally_all_bounded(ds, None);
    assert forall|i: int| 0 <= i < ds.len() implies sorted.contains(#[trigger] ds[i]) by {
        assert(o.contains(i as usize));
        let k = choose|k: int| 0 <= k < o.len() && o[k] == i as usize;
        assert(sorted[k] == ds[i]);
    }
    assert forall|k: int| 0 <= k < ds.len() implies ds.contains(#[trigger] sorted[k]) by {
        assert(sorted[k] == ds[o[k] as int]);
    }
    assert forall|k: int, l: int|
        #![trigger sorted[k], sorted[l]]
        0 <= k < l < ds.len() implies update_count(sorted[k].3) >= update_count(sorted[l].3) by {
        assert(keys[o[k] as int] >= keys[o[l] as int]);
        assert(update_count(ds[o[k] as int].3) <= tally_all(ds, None));
        assert(update_count(ds[o[l] as int].3) <= tally_all(ds, None));
    }
    assert forall|k: int, l: int|
        #![trigger o[k], o[l]]
        0 <= k < l < ds.len() && update_count(sorted[k].3) == update_count(sorted[l].3) implies o[k]
        < o[l] by {
        assert(keys[o[k] as int] == keys[o[l] as int]);
    }
}

} // verus!
