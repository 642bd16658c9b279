use renovate_metadashboard::markdown::MdEvent;
use renovate_metadashboard::parser::{
    extract_branch_from_comment, parse_dashboard, parse_events, section_from_title,
    DashboardError, Section, Update,
};

fn text(s: &str) -> MdEvent {
    MdEvent::Text(s.to_string())
}

fn html(s: &str) -> MdEvent {
    MdEvent::InlineHtml(s.to_string())
}

fn branches(us: &[Update]) -> Vec<&str> {
    us.iter().map(|u| u.branch.as_str()).collect()
}

#[test]
fn extract_branch_known_markers() {
    assert_eq!(
        extract_branch_from_comment("<!-- approve-branch=renovate/foo -->"),
        Some("renovate/foo".to_string())
    );
    assert_eq!(
        extract_branch_from_comment("  <!-- approvePr-branch=renovate/pr -->\n"),
        Some("renovate/pr".to_string())
    );
    assert_eq!(
        extract_branch_from_comment("<!-- retry-branch=renovate/r -->"),
        Some("renovate/r".to_string())
    );
    assert_eq!(
        extract_branch_from_comment("<!-- unlimit-branch=renovate/u -->"),
        Some("renovate/u".to_string())
    );
    assert_eq!(
        extract_branch_from_comment("<!-- unschedule-branch=renovate/s -->"),
        Some("renovate/s".to_string())
    );
    assert_eq!(
        extract_branch_from_comment("<!-- other-branch=renovate/o -->"),
        Some("renovate/o".to_string())
    );
    assert_eq!(
        extract_branch_from_comment("<!-- rebase-branch=renovate/b -->"),
        Some("renovate/b".to_string())
    );
}

#[test]
fn extract_branch_rejects_other_comments() {
    assert_eq!(extract_branch_from_comment("<!-- manual job -->"), None);
    assert_eq!(extract_branch_from_comment("<!-- approve-branch=x"), None);
    assert_eq!(extract_branch_from_comment("approve-branch=x -->"), None);
    assert_eq!(extract_branch_from_comment("<b>"), None);
    assert_eq!(extract_branch_from_comment("<!--approve-branch=x-->"), None);
    // the marker must start right after the opening
    assert_eq!(extract_branch_from_comment("<!--  approve-branch=x -->"), None);
}

#[test]
fn extract_branch_empty_name() {
    assert_eq!(
        extract_branch_from_comment("<!-- approve-branch= -->"),
        Some(String::new())
    );
}

#[test]
fn section_titles() {
    assert_eq!(section_from_title("Pending Approval"), Some(Section::PendingApproval));
    assert_eq!(section_from_title("Open"), Some(Section::Open));
    assert_eq!(section_from_title("Awaiting Schedule"), Some(Section::AwaitingSchedule));
    assert_eq!(section_from_title("Rate-Limited"), Some(Section::RateLimited));
    assert_eq!(section_from_title("Errored"), Some(Section::Errored));
    assert_eq!(section_from_title("Pending Branch Automerge"), Some(Section::PendingAutomerge));
    assert_eq!(section_from_title("Other Branches"), Some(Section::Other));
    assert_eq!(section_from_title("Detected dependencies"), None);
    assert_eq!(section_from_title("open"), None);
}

#[test]
fn events_item_with_branch_and_description() {
    let events = vec![
        MdEvent::HeadingStart(2),
        text("Pending Approval"),
        MdEvent::Other,
        MdEvent::ItemStart,
        text("["),
        text(" "),
        text("]"),
        text(" "),
        html("<!-- approve-branch=renovate/foo -->"),
        text("chore(deps): update "),
        MdEvent::Code("foo".to_string()),
        text(" to v2"),
        MdEvent::ItemEnd,
    ];
    let d = parse_events(&events).unwrap();
    assert_eq!(d.pending_approval.len(), 1);
    let u = &d.pending_approval[0];
    assert_eq!(u.branch, "renovate/foo");
    assert_eq!(u.description, "chore(deps): update`foo`to v2");
    assert!(!u.checked);
    assert_eq!(u.build_status, None);
    assert!(d.open.is_empty() && d.other.is_empty());
}

#[test]
fn events_checkbox_ticked() {
    // `[`, `]` and then `x` tick the box
    let events = vec![
        MdEvent::HeadingStart(2),
        text("Open"),
        MdEvent::ItemStart,
        text("["),
        text("]"),
        text("x"),
        html("<!-- rebase-branch=renovate/a -->"),
        text("a"),
        MdEvent::ItemEnd,
        MdEvent::ItemStart,
        text("["),
        text("]"),
        text("y"),
        text("X"),
        html("<!-- rebase-branch=renovate/b -->"),
        text("b"),
        MdEvent::ItemEnd,
    ];
    let d = parse_events(&events).unwrap();
    assert_eq!(branches(&d.open), vec!["renovate/a", "renovate/b"]);
    assert!(d.open[0].checked);
    // after `]` another text unticks the box before `X` is read
    assert!(!d.open[1].checked);
}

#[test]
fn events_code_before_comment_is_ignored() {
    let events = vec![
        MdEvent::HeadingStart(2),
        text("Errored"),
        MdEvent::ItemStart,
        MdEvent::Code("ignored".to_string()),
        text("also ignored"),
        html("<!-- retry-branch=renovate/e -->"),
        text("   "),
        text("  desc  "),
        MdEvent::ItemEnd,
    ];
    let d = parse_events(&events).unwrap();
    assert_eq!(d.errored.len(), 1);
    assert_eq!(d.errored[0].description, "desc");
}

#[test]
fn events_items_without_content_or_section_are_dropped() {
    let events = vec![
        // an item before any heading
        MdEvent::ItemStart,
        html("<!-- other-branch=renovate/x -->"),
        MdEvent::ItemEnd,
        MdEvent::HeadingStart(2),
        text("Other Branches"),
        // an item with neither branch nor description
        MdEvent::ItemStart,
        text("["),
        text("]"),
        MdEvent::ItemEnd,
        // a level-3 heading does not change the section
        MdEvent::HeadingStart(3),
        text("Open"),
        MdEvent::ItemStart,
        html("<!-- other-branch=renovate/y -->"),
        MdEvent::ItemEnd,
        // an unknown section
        MdEvent::HeadingStart(2),
        text("Detected dependencies"),
        MdEvent::ItemStart,
        text("npm"),
        MdEvent::ItemEnd,
    ];
    let d = parse_events(&events).unwrap();
    assert_eq!(branches(&d.other), vec!["renovate/y"]);
    assert!(d.open.is_empty());
}

#[test]
fn events_heading_skips_next_event() {
    // the event after a level-2 heading start is its title, even when it is
    // no text: here the item start is consumed and its content dropped
    let events = vec![
        MdEvent::HeadingStart(2),
        text("Open"),
        MdEvent::HeadingStart(2),
        MdEvent::ItemStart,
        html("<!-- rebase-branch=renovate/z -->"),
        MdEvent::ItemEnd,
        MdEvent::ItemStart,
        html("<!-- rebase-branch=renovate/w -->"),
        MdEvent::ItemEnd,
    ];
    let d = parse_events(&events).unwrap();
    assert_eq!(branches(&d.open), vec!["renovate/w"]);
}

#[test]
fn events_open_item_at_end_is_recorded() {
    let events = vec![
        MdEvent::HeadingStart(2),
        text("Rate-Limited"),
        MdEvent::ItemStart,
        html("<!-- unlimit-branch=renovate/r -->"),
        text("limited"),
    ];
    let d = parse_events(&events).unwrap();
    assert_eq!(branches(&d.rate_limited), vec!["renovate/r"]);
    assert_eq!(d.rate_limited[0].description, "limited");
}

#[test]
fn events_malformed_comment_is_refused() {
    let events = vec![
        MdEvent::HeadingStart(2),
        text("Open"),
        MdEvent::ItemStart,
        html(" <!-- --> "),
        MdEvent::ItemEnd,
    ];
    assert_eq!(parse_events(&events).unwrap_err(), DashboardError::MalformedComment);
    // outside an item the comment is not read
    let events = vec![html("<!-- -->"), MdEvent::HeadingStart(2), text("Open")];
    assert!(parse_events(&events).is_ok());
}

#[test]
fn parse_dashboard_markdown() {
    let body = "## Pending Approval\n\nThese branches will be created by Renovate only once you click their checkbox below.\n\n - [ ] <!-- approve-branch=renovate/foo-2.x -->chore(deps): update dependency foo to v2\n - [ ] <!-- approve-branch=renovate/bar-1.x -->chore(deps): update dependency bar to v1\n\n## Open\n\nThese updates have all been created already.\n\n - [ ] <!-- rebase-branch=renovate/baz -->update baz\n\n## Detected dependencies\n\n - npm\n";
    let d = parse_dashboard(body).unwrap();
    assert_eq!(branches(&d.pending_approval), vec!["renovate/foo-2.x", "renovate/bar-1.x"]);
    assert_eq!(
        d.pending_approval[0].description,
        "chore(deps): update dependency foo to v2"
    );
    assert_eq!(branches(&d.open), vec!["renovate/baz"]);
    assert_eq!(d.open[0].description, "update baz");
    assert!(d.awaiting_schedule.is_empty());
    assert!(d.other.is_empty());
}

#[test]
fn parse_dashboard_empty_body() {
    let d = parse_dashboard("").unwrap();
    assert!(d.pending_approval.is_empty() && d.open.is_empty() && d.errored.is_empty());
}

#[test]
fn law_parsed_updates_named_example() {
    // items with neither branch nor description never appear
    let d = parse_dashboard("## Open\n\n - [ ]\n - plain text\n - x <!-- rebase-branch=renovate/x -->\n").unwrap();
    assert_eq!(branches(&d.open), vec!["renovate/x"]);
    assert_eq!(d.open[0].description, "");
    for u in &d.open {
        assert!(!u.description.is_empty() || !u.branch.is_empty());
        assert!(u.build_status.is_none());
    }
}
