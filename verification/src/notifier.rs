//! What a desktop notification says. Showing it is left to the caller.

use vstd::prelude::*;

verus! {

/// Application name, under which every notification is sent.
pub const NAME: &'static str = "RE:[SSO] Launcher";

/// A desktop notification, ready to be shown.
#[derive(Debug)]
pub struct Notice {
    pub summary: String,
    pub body: String,
    pub appname: String,
}

/// The text of a notification.
pub struct NoticeView {
    pub summary: Seq<char>,
    pub body: Seq<char>,
    pub appname: Seq<char>,
}

impl View for Notice {
    type V = NoticeView;

    open spec fn view(&self) -> NoticeView {
        NoticeView { summary: self.summary@, body: self.body@, appname: self.appname@ }
    }
}

/// The notification of this application with the given summary and body.
pub open spec fn notice_of(summary: Seq<char>, text: Seq<char>) -> NoticeView {
    NoticeView { summary: summary, body: text, appname: NAME@ }
}

/// Whether `notice` is absent where `text` is, and otherwise is the
/// notification of this application with the given summary and that body.
pub open spec fn reports(notice: Option<Notice>, summary: Seq<char>, text: Option<Seq<char>>) -> bool {
    match text {
        Some(body) => notice is Some && notice->0@ == notice_of(summary, body),
        None => notice is None,
    }
}

/// The line that is logged when the platform could not show a notification.
pub open spec fn notification_failure_of(error: Seq<char>) -> Seq<char> {
    "Error upon calling display_notification: "@ + error
}

/// Makes the notification with the given summary and body, sent under the
/// application's name.
pub fn display_notification(summary: &str, text: &str) -> (notice: Notice)
    ensures
        notice@ == notice_of(summary@, text@),
{
    Notice {
        summary: String::from_str(summary),
        body: String::from_str(text),
        appname: String::from_str(NAME),
    }
}

/// Makes the log line for a notification that the platform failed to show,
/// where `error` is the platform's message. The failure goes no further.
pub fn notification_failure(error: &str) -> (line: String)
    ensures
        line@ == notification_failure_of(error@),
{
    String::from_str("Error upon calling display_notification: ").concat(error)
}

} // verus!
