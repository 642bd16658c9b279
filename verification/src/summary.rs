//! The summary cards at the top of the report: which label each card
//! carries, and that each shows the number of its own section's updates.
use crate::client::PlatformClient;
use crate::parser::Section;
use crate::report::{
    CARD_AUTOMERGE, CARD_AWAITING, CARD_ERRORED, CARD_OPEN, CARD_OTHER, CARD_PENDING,
    CARD_RATE_LIMITED, CARD_TOTAL, REPORT_HEAD, RepoDashboardView, SUMMARY_END, report_html,
    summary_html, tally_all,
};
use crate::text::decimal;
use vstd::prelude::*;

verus! {

/// The label of the summary card that shows the number of `k`'s updates (of
/// all updates where `k` is `None`).
pub open spec fn card_label(k: Option<Section>) -> Seq<char> {
    match k {
        None => "Total Updates"@,
        Some(Section::PendingApproval) => "Pending Approval"@,
        Some(Section::Open) => "Open PRs"@,
        Some(Section::AwaitingSchedule) => "Awaiting Schedule"@,
        Some(Section::RateLimited) => "Rate-Limited"@,
        Some(Section::Errored) => "Errored"@,
        Some(Section::PendingAutomerge) => "Pending Automerge"@,
        Some(Section::Other) => "Other"@,
    }
}

/// What follows a card's number: the end of the number's heading and the
/// card's label.
pub open spec fn card_text(label: Seq<char>) -> Seq<char> {
    "</h3>\n                <p>"@ + label + "</p>"@
}

/// The page shows a summary card labelled `label` whose number is `n`:
/// `<h3>n</h3>` directly followed by the label.
pub open spec fn shows_card(html: Seq<char>, label: Seq<char>, n: nat) -> bool {
    exists|pre: Seq<char>, post: Seq<char>|
        html == pre + "<h3>"@ + decimal(n) + card_text(label) + post
}

/// Text ends with the opening of a card's number.
spec fn ends_with_h3(s: Seq<char>) -> bool {
    s.len() >= 4 && s.skip(s.len() - 4) == "<h3>"@
}

/// Text starts with the end of a card's number and the card's label.
spec fn card_opens(s: Seq<char>, label: Seq<char>) -> bool {
    s.len() >= card_text(label).len() && s.take(card_text(label).len() as int) == card_text(label)
}

/// The card pieces of the page: each ends with the opening `<h3>` of the
/// next card's number, and each after a number starts with that card's
/// label. The pieces' texts are revealed by writing them out again.
proof fn lemma_card_pieces()
    ensures
        ends_with_h3(CARD_TOTAL@),
        ends_with_h3(CARD_PENDING@),
        ends_with_h3(CARD_OPEN@),
        ends_with_h3(CARD_AWAITING@),
        ends_with_h3(CARD_RATE_LIMITED@),
        ends_with_h3(CARD_ERRORED@),
        ends_with_h3(CARD_AUTOMERGE@),
        ends_with_h3(CARD_OTHER@),
        card_opens(CARD_PENDING@, card_label(None)),
        card_opens(CARD_OPEN@, card_label(Some(Section::PendingApproval))),
        card_opens(CARD_AWAITING@, card_label(Some(Section::Open))),
        card_opens(CARD_RATE_LIMITED@, card_label(Some(Section::AwaitingSchedule))),
        card_opens(CARD_ERRORED@, card_label(Some(Section::RateLimited))),
        card_opens(CARD_AUTOMERGE@, card_label(Some(Section::Errored))),
        card_opens(CARD_OTHER@, card_label(Some(Section::PendingAutomerge))),
        card_opens(SUMMARY_END@, card_label(Some(Section::Other))),
{
    reveal_strlit(r#"</p>

        <div class="summary">
            <div class="card total">
                <h3>"#);
    reveal_strlit(r#"</h3>
                <p>Total Updates</p>
            </div>
            <div class="card pending">
                <h3>"#);
    reveal_strlit(r#"</h3>
                <p>Pending Approval</p>
            </div>
            <div class="card open">
                <h3>"#);
    reveal_strlit(r#"</h3>
                <p>Open PRs</p>
            </div>
            <div class="card awaiting">
                <h3>"#);
    reveal_strlit(r#"</h3>
                <p>Awaiting Schedule</p>
            </div>
            <div class="card ratelimited">
                <h3>"#);
    reveal_strlit(r#"</h3>
                <p>Rate-Limited</p>
            </div>
            <div class="card error">
                <h3>"#);
    reveal_strlit(r#"</h3>
                <p>Errored</p>
            </div>
            <div class="card automerge">
                <h3>"#);
    reveal_strlit(r#"</h3>
                <p>Pending Automerge</p>
            </div>
            <div class="card other">
                <h3>"#);
    reveal_strlit(r#"</h3>
                <p>Other</p>
            </div>
        </div>
"#);
    reveal_strlit("<h3>");
    reveal_strlit("</h3>\n                <p>");
    reveal_strlit("</p>");
    reveal_strlit("Total Updates");
    reveal_strlit("Pending Approval");
    reveal_strlit("Open PRs");
    reveal_strlit("Awaiting Schedule");
    reveal_strlit("Rate-Limited");
    reveal_strlit("Errored");
    reveal_strlit("Pending Automerge");
    reveal_strlit("Other");
    assert(CARD_TOTAL@.skip(CARD_TOTAL@.len() - 4) =~= "<h3>"@);
    assert(CARD_PENDING@.skip(CARD_PENDING@.len() - 4) =~= "<h3>"@);
    assert(CARD_OPEN@.skip(CARD_OPEN@.len() - 4) =~= "<h3>"@);
    assert(CARD_AWAITING@.skip(CARD_AWAITING@.len() - 4) =~= "<h3>"@);
    assert(CARD_RATE_LIMITED@.skip(CARD_RATE_LIMITED@.len() - 4) =~= "<h3>"@);
    assert(CARD_ERRORED@.skip(CARD_ERRORED@.len() - 4) =~= "<h3>"@);
    assert(CARD_AUTOMERGE@.skip(CARD_AUTOMERGE@.len() - 4) =~= "<h3>"@);
    assert(CARD_OTHER@.skip(CARD_OTHER@.len() - 4) =~= "<h3>"@);
    assert(CARD_PENDING@.take(card_text(card_label(None)).len() as int) =~= card_text(card_label(None)));
    assert(CARD_OPEN@.take(card_text(card_label(Some(Section::PendingApproval))).len() as int) =~= card_text(card_label(Some(Section::PendingApproval))));
    assert(CARD_AWAITING@.take(card_text(card_label(Some(Section::Open))).len() as int) =~= card_text(card_label(Some(Section::Open))));
    assert(CARD_RATE_LIMITED@.take(card_text(card_label(Some(Section::AwaitingSchedule))).len() as int) =~= card_text(card_label(Some(Section::AwaitingSchedule))));
    assert(CARD_ERRORED@.take(card_text(card_label(Some(Section::RateLimited))).len() as int) =~= card_text(card_label(Some(Section::RateLimited))));
    assert(CARD_AUTOMERGE@.take(card_text(card_label(Some(Section::Errored))).len() as int) =~= card_text(card_label(Some(Section::Errored))));
    assert(CARD_OTHER@.take(card_text(card_label(Some(Section::PendingAutomerge))).len() as int) =~= card_text(card_label(Some(Section::PendingAutomerge))));
    assert(SUMMARY_END@.take(card_text(card_label(Some(Section::Other))).len() as int) =~= card_text(card_label(Some(Section::Other))));
}

proof fn lemma_card_shown(a: Seq<char>, p: Seq<char>, n: nat, q: Seq<char>, label: Seq<char>)
    requires
        ends_with_h3(p),
        card_opens(q, label),
    ensures
        shows_card(a + p + decimal(n) + q, label, n),
{
    let pre = a + p.take(p.len() - 4);
    let post = q.skip(card_text(label).len() as int);
    assert(p =~= p.take(p.len() - 4) + "<h3>"@);
    assert(q =~= card_text(label) + post);
    assert(a + p + decimal(n) + q =~= pre + "<h3>"@ + decimal(n) + card_text(label) + post);
}

proof fn lemma_shows_card_extends()
    ensures
        forall|h: Seq<char>, t: Seq<char>, label: Seq<char>, n: nat|
            shows_card(h, label, n) ==> #[trigger] shows_card(h + t, label, n),
{
    assert forall|h: Seq<char>, t: Seq<char>, label: Seq<char>, n: nat|
        shows_card(h, label, n) implies #[trigger] shows_card(h + t, label, n) by {
        let (pre, post) = choose|pre: Seq<char>, post: Seq<char>|
            h == pre + "<h3>"@ + decimal(n) + card_text(label) + post;
        assert(h + t =~= pre + "<h3>"@ + decimal(n) + card_text(label) + (post + t));
    }
}

/// Each summary card shows the number of its own section's updates over all
/// dashboards, under its own label: the card "Total Updates" shows all
/// updates, "Pending Approval" the updates pending approval, "Open PRs" the
/// open ones, "Awaiting Schedule" those awaiting their schedule,
/// "Rate-Limited" the rate-limited ones, and so on; the whole report shows
/// the same cards.
pub proof fn law_each_card_counts_its_section(
    timestamp: Seq<char>,
    ds: Seq<RepoDashboardView>,
    client: PlatformClient,
    k: Option<Section>,
)
    ensures
        shows_card(summary_html(timestamp, ds), card_label(k), tally_all(ds, k)),
        shows_card(report_html(timestamp, ds, client), card_label(k), tally_all(ds, k)),
{
    lemma_card_pieces();
    lemma_shows_card_extends();
    let h = REPORT_HEAD@ + timestamp;
    let d0 = decimal(tally_all(ds, None));
    let d1 = decimal(tally_all(ds, Some(Section::PendingApproval)));
    let d2 = decimal(tally_all(ds, Some(Section::Open)));
    let d3 = decimal(tally_all(ds, Some(Section::AwaitingSchedule)));
    let d4 = decimal(tally_all(ds, Some(Section::RateLimited)));
    let d5 = decimal(tally_all(ds, Some(Section::Errored)));
    let d6 = decimal(tally_all(ds, Some(Section::PendingAutomerge)));
    let a0 = h;
    let a1 = a0 + CARD_TOTAL@ + d0;
    let a2 = a1 + CARD_PENDING@ + d1;
    let a3 = a2 + CARD_OPEN@ + d2;
    let a4 = a3 + CARD_AWAITING@ + d3;
    let a5 = a4 + CARD_RATE_LIMITED@ + d4;
    let a6 = a5 + CARD_ERRORED@ + d5;
    let a7 = a6 + CARD_AUTOMERGE@ + d6;
    match k {
        None => lemma_card_shown(a0, CARD_TOTAL@, tally_all(ds, k), CARD_PENDING@, card_label(k)),
        Some(Section::PendingApproval) => lemma_card_shown(a1, CARD_PENDING@, tally_all(ds, k), CARD_OPEN@, card_label(k)),
        Some(Section::Open) => lemma_card_shown(a2, CARD_OPEN@, tally_all(ds, k), CARD_AWAITING@, card_label(k)),
        Some(Section::AwaitingSchedule) => lemma_card_shown(a3, CARD_AWAITING@, tally_all(ds, k), CARD_RATE_LIMITED@, card_label(k)),
        Some(Section::RateLimited) => lemma_card_shown(a4, CARD_RATE_LIMITED@, tally_all(ds, k), CARD_ERRORED@, card_label(k)),
        Some(Section::Errored) => lemma_card_shown(a5, CARD_ERRORED@, tally_all(ds, k), CARD_AUTOMERGE@, card_label(k)),
        Some(Section::PendingAutomerge) => lemma_card_shown(a6, CARD_AUTOMERGE@, tally_all(ds, k), CARD_OTHER@, card_label(k)),
        Some(Section::Other) => lemma_card_shown(a7, CARD_OTHER@, tally_all(ds, k), SUMMARY_END@, card_label(k)),
    }
}

} // verus!
