//! The fixed vocabulary: command tokens, category labels and notices.

use vstd::prelude::*;
use vstd::string::StringExecFns;
use crate::model::Notice;
use crate::model::ReasonView;
use crate::model::UserInquiryReason;

verus! {

/// A staff command.
#[derive(Clone, Copy, Debug, PartialEq, Eq, Structural)]
pub enum AdminCommand {
    Accept,
    Reject,
    Done,
    Next,
    Queue,
}

/// The message body that stands for a command.
pub open spec fn command_token(command: AdminCommand) -> Seq<char> {
    match command {
        AdminCommand::Accept => "+accept"@,
        AdminCommand::Reject => "+reject"@,
        AdminCommand::Done => "+done"@,
        AdminCommand::Next => "+next"@,
        AdminCommand::Queue => "+queue"@,
    }
}

/// The command that a message body stands for: the one whose token the
/// whole body equals, if there is one.
pub open spec fn spec_parse_command(text: Seq<char>) -> Option<AdminCommand> {
    if text == command_token(AdminCommand::Accept) {
        Some(AdminCommand::Accept)
    } else if text == command_token(AdminCommand::Reject) {
        Some(AdminCommand::Reject)
    } else if text == command_token(AdminCommand::Done) {
        Some(AdminCommand::Done)
    } else if text == command_token(AdminCommand::Next) {
        Some(AdminCommand::Next)
    } else if text == command_token(AdminCommand::Queue) {
        Some(AdminCommand::Queue)
    } else {
        None
    }
}

/// The label of a canonical category; `Unknown` and custom reasons have none.
pub open spec fn spec_reason_label(reason: ReasonView) -> Option<Seq<char>> {
    match reason {
        ReasonView::Technical => Some("technical"@),
        ReasonView::Content => Some("content & substances"@),
        ReasonView::Press => Some("press & journalists"@),
        ReasonView::Community => Some("community & outreach"@),
        ReasonView::Events => Some("events & invitations"@),
        ReasonView::Emergency => Some("emergency"@),
        ReasonView::Unknown => None,
        ReasonView::Custom(_) => None,
    }
}

/// The reason that a reply to the category prompt stands for: the canonical
/// category whose label the whole text equals, else the text itself.
pub open spec fn spec_classify_reason(text: Seq<char>) -> ReasonView {
    if Some(text) == spec_reason_label(ReasonView::Technical) {
        ReasonView::Technical
    } else if Some(text) == spec_reason_label(ReasonView::Content) {
        ReasonView::Content
    } else if Some(text) == spec_reason_label(ReasonView::Press) {
        ReasonView::Press
    } else if Some(text) == spec_reason_label(ReasonView::Community) {
        ReasonView::Community
    } else if Some(text) == spec_reason_label(ReasonView::Events) {
        ReasonView::Events
    } else if Some(text) == spec_reason_label(ReasonView::Emergency) {
        ReasonView::Emergency
    } else {
        ReasonView::Custom(text)
    }
}

/// The wording of a notice.
pub open spec fn spec_notice_text(notice: Notice) -> Seq<char> {
    match notice {
        Notice::CategoryPrompt =>
            "Thanks for contacting PsychonautWiki support. Please let us know the nature of your inquiry:"@,
        Notice::SummaryPrompt => "Thanks. Please give us a short summary of your inquiry:"@,
        Notice::Queued =>
            "Thanks, you're in queue! Please wait for a staff member to accept your request."@,
        Notice::Accepted => "A staff member has accepted your request."@,
        Notice::Rejected => "Your request has been declined."@,
    }
}

/// Whether two texts are the same, character by character.
pub fn same_text(a: &str, b: &str) -> (r: bool)
    ensures
        r == (a@ == b@),
{
    let x = String::from_str(a);
    let y = String::from_str(b);
    x == y
}

/// Reads a message body as a staff command.
pub fn parse_command(text: &str) -> (r: Option<AdminCommand>)
    ensures
        r == spec_parse_command(text@),
{
    if same_text(text, "+accept") {
        Some(AdminCommand::Accept)
    } else if same_text(text, "+reject") {
        Some(AdminCommand::Reject)
    } else if same_text(text, "+done") {
        Some(AdminCommand::Done)
    } else if same_text(text, "+next") {
        Some(AdminCommand::Next)
    } else if same_text(text, "+queue") {
        Some(AdminCommand::Queue)
    } else {
        None
    }
}

/// Reads a reply to the category prompt. A text that is no canonical label
/// is kept, unchanged, as a custom reason.
pub fn classify_reason(data: String) -> (r: UserInquiryReason)
    ensures
        r@ == spec_classify_reason(data@),
{
    if same_text(data.as_str(), "technical") {
        UserInquiryReason::Technical
    } else if same_text(data.as_str(), "content & substances") {
        UserInquiryReason::Content
    } else if same_text(data.as_str(), "press & journalists") {
        UserInquiryReason::Press
    } else if same_text(data.as_str(), "community & outreach") {
        UserInquiryReason::Community
    } else if same_text(data.as_str(), "events & invitations") {
        UserInquiryReason::Events
    } else if same_text(data.as_str(), "emergency") {
        UserInquiryReason::Emergency
    } else {
        UserInquiryReason::Custom(data)
    }
}

/// The label of a canonical category.
pub fn reason_label(reason: &UserInquiryReason) -> (r: Option<&'static str>)
    ensures
        match r {
            Some(s) => spec_reason_label(reason@) == Some(s@),
            None => spec_reason_label(reason@).is_none(),
        },
{
    match reason {
        UserInquiryReason::Technical => Some("technical"),
        UserInquiryReason::Content => Some("content & substances"),
        UserInquiryReason::Press => Some("press & journalists"),
        UserInquiryReason::Community => Some("community & outreach"),
        UserInquiryReason::Events => Some("events & invitations"),
        UserInquiryReason::Emergency => Some("emergency"),
        UserInquiryReason::Unknown => None,
        UserInquiryReason::Custom(_) => None,
    }
}

/// The category buttons that come with the category prompt: three rows of
/// two, each button a canonical category.
pub open spec fn spec_category_keyboard() -> Seq<Seq<ReasonView>> {
    seq![
        seq![ReasonView::Technical, ReasonView::Content],
        seq![ReasonView::Press, ReasonView::Community],
        seq![ReasonView::Events, ReasonView::Emergency],
    ]
}

/// How a reason reads in a listing: a canonical category by its label, a
/// custom reason by its own text.
pub open spec fn spec_reason_text(reason: ReasonView) -> Seq<char> {
    match reason {
        ReasonView::Unknown => "unknown"@,
        ReasonView::Custom(text) => text,
        _ => spec_reason_label(reason).unwrap(),
    }
}

/// The labels of the category buttons, row by row.
pub fn category_keyboard() -> (r: Vec<Vec<&'static str>>)
    ensures
        r@.len() == spec_category_keyboard().len(),
        forall|i: int|
            0 <= i < r@.len() ==> (#[trigger] r@[i])@.len() == spec_category_keyboard()[i].len(),
        forall|i: int, j: int|
            0 <= i < r@.len() && 0 <= j < r@[i]@.len() ==> Some((#[trigger] r@[i]@[j])@)
                == spec_reason_label(spec_category_keyboard()[i][j]),
{
    let mut first: Vec<&'static str> = Vec::new();
    first.push("technical");
    first.push("content & substances");
    let mut second: Vec<&'static str> = Vec::new();
    second.push("press & journalists");
    second.push("community & outreach");
    let mut third: Vec<&'static str> = Vec::new();
    third.push("events & invitations");
    third.push("emergency");
    let mut rows: Vec<Vec<&'static str>> = Vec::new();
    rows.push(first);
    rows.push(second);
    rows.push(third);
    rows
}

/// The buttons that go out with a notice: the category buttons with the
/// category prompt, none with any other notice.
pub open spec fn spec_notice_keyboard(notice: Notice) -> Option<Seq<Seq<ReasonView>>> {
    match notice {
        Notice::CategoryPrompt => Some(spec_category_keyboard()),
        _ => None,
    }
}

/// The labels of the buttons that go out with a notice, row by row.
pub fn notice_keyboard(notice: Notice) -> (r: Option<Vec<Vec<&'static str>>>)
    ensures
        r.is_some() == spec_notice_keyboard(notice).is_some(),
        match r {
            Some(rows) => {
                let buttons = spec_notice_keyboard(notice).unwrap();
                &&& rows@.len() == buttons.len()
                &&& forall|i: int|
                    0 <= i < rows@.len() ==> (#[trigger] rows@[i])@.len() == buttons[i].len()
                &&& forall|i: int, j: int|
                    0 <= i < rows@.len() && 0 <= j < rows@[i]@.len() ==> Some(
                        (#[trigger] rows@[i]@[j])@,
                    ) == spec_reason_label(buttons[i][j])
            },
            None => true,
        },
{
    match notice {
        Notice::CategoryPrompt => Some(category_keyboard()),
        _ => None,
    }
}

/// How a reason reads in a listing.
pub fn reason_text(reason: &UserInquiryReason) -> (r: String)
    ensures
        r@ == spec_reason_text(reason@),
{
    match reason {
        UserInquiryReason::Unknown => String::from_str("unknown"),
        UserInquiryReason::Custom(text) => text.clone(),
        _ => match reason_label(reason) {
            Some(label) => String::from_str(label),
            None => String::new(),
        },
    }
}

/// The wording of a notice.
pub fn notice_text(notice: Notice) -> (r: &'static str)
    ensures
        r@ == spec_notice_text(notice),
{
    match notice {
        Notice::CategoryPrompt =>
            "Thanks for contacting PsychonautWiki support. Please let us know the nature of your inquiry:",
        Notice::SummaryPrompt => "Thanks. Please give us a short summary of your inquiry:",
        Notice::Queued =>
            "Thanks, you're in queue! Please wait for a staff member to accept your request.",
        Notice::Accepted => "A staff member has accepted your request.",
        Notice::Rejected => "Your request has been declined.",
    }
}

} // verus!
