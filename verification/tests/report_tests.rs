use renovate_metadashboard::client::{GitlabClient, PlatformClient};
use renovate_metadashboard::parser::{Dashboard, Section, Update};
use renovate_metadashboard::report::{
    count_updates, render_report, render_section, sum_tally, RepoDashboard,
    REPORT_HEAD,
};

fn client() -> PlatformClient {
    PlatformClient::Gitlab(GitlabClient {
        base_url: "https://gl".to_string(),
        host: "gl".to_string(),
        token: "t".to_string(),
    })
}

fn update(branch: &str, description: &str) -> Update {
    Update {
        branch: branch.to_string(),
        description: description.to_string(),
        checked: false,
        build_status: None,
    }
}

fn repo(name: &str, open: usize, errored: usize) -> RepoDashboard {
    let mut d = Dashboard::new();
    for i in 0..open {
        d.push(Section::Open, update(&format!("renovate/o{}", i), "open"));
    }
    for _ in 0..errored {
        d.push(Section::Errored, update("", "failed"));
    }
    (name.to_string(), name.to_string(), format!("https://gl/{}/-/issues/1", name), d)
}

#[test]
fn counting_updates() {
    let r = repo("a", 2, 3);
    assert_eq!(count_updates(&r.3), 5);
    let ds = vec![repo("a", 2, 3), repo("b", 1, 0)];
    assert_eq!(sum_tally(&ds, None), 6);
    assert_eq!(sum_tally(&ds, Some(Section::Open)), 3);
    assert_eq!(sum_tally(&ds, Some(Section::Errored)), 3);
    assert_eq!(sum_tally(&ds, Some(Section::Other)), 0);
}

#[test]
fn law_total_is_sum_example() {
    let ds = vec![repo("a", 2, 3), repo("b", 1, 4), repo("c", 0, 0)];
    let sections = [
        Section::PendingApproval,
        Section::Open,
        Section::AwaitingSchedule,
        Section::RateLimited,
        Section::Errored,
        Section::PendingAutomerge,
        Section::Other,
    ];
    let sum: usize = sections.iter().map(|s| sum_tally(&ds, Some(*s))).sum();
    assert_eq!(sum_tally(&ds, None), sum);
}

#[test]
fn section_rendering() {
    let c = client();
    let mut html = String::new();
    render_section(&mut html, "Errored", &vec![], "error", "g/p", &c);
    assert_eq!(html, r#"<div class="section empty"><h3>Errored: None</h3></div>"#);

    let mut html = String::new();
    render_section(
        &mut html,
        "Open PRs",
        &vec![update("renovate/x", "Update x"), update("", "manual")],
        "open",
        "g/p",
        &c,
    );
    let expected = [
        "<div class=\"section\">\n    <h3><span class=\"badge open\">Open PRs</span> (2)</h3>\n    <table>\n",
        "        <thead><tr><th>Description</th><th>Branch</th></tr></thead>\n        <tbody>",
        "<tr><td>Update x</td><td><a href=\"https://gl/g/p/-/merge_requests?search=renovate/x\"><code>renovate/x</code></a></td></tr>",
        "<tr><td>manual</td><td>-</td></tr>",
        "</tbody></table></div>",
    ]
    .concat();
    assert_eq!(html, expected);
}

#[test]
fn report_without_dashboards() {
    let html = render_report(&vec![], &client(), "2024-01-02 03:04:05");
    assert!(html.starts_with(REPORT_HEAD));
    assert!(html.contains("Generated: 2024-01-02 03:04:05</p>"));
    assert!(html.contains("<h3>0</h3>\n                <p>Total Updates</p>"));
    assert!(html.ends_with(
        "<div class=\"no-dashboards\"><p>No Renovate dashboards found.</p></div></div>\n</body>\n</html>"
    ));
}

#[test]
fn report_orders_by_update_count() {
    let ds = vec![repo("few", 1, 0), repo("many", 2, 3), repo("tie", 0, 1), repo("none", 0, 0)];
    let html = render_report(&ds, &client(), "ts");
    let pos = |name: &str| html.find(&format!(">{}</a></h2>", name)).unwrap();
    assert!(pos("many") < pos("few"));
    assert!(pos("few") < pos("tie"));
    assert!(pos("tie") < pos("none"));
    assert!(html.contains("<h3>7</h3>\n                <p>Total Updates</p>"));
    assert!(html.contains("<h3>3</h3>\n                <p>Open PRs</p>"));
    assert!(html.contains("<h3>4</h3>\n                <p>Errored</p>"));
    assert!(html.contains("<h2><a href=\"https://gl/many/-/issues/1\">many</a></h2>"));
    assert_eq!(html.matches("<div class=\"repo\">").count(), 4);
    assert!(html.ends_with("</div>\n</div>\n</body>\n</html>"));
}

#[test]
fn report_carries_the_given_timestamp() {
    let html = render_report(&vec![repo("a", 1, 0)], &client(), "2025-06-01 12:00:00");
    assert!(html.contains("<p class=\"timestamp\">Generated: 2025-06-01 12:00:00</p>"));
}
