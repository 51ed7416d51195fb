//! Desktop notifications with `notify-send`.

use vstd::prelude::*;

use crate::config::PROGRAM;
use crate::text;

verus! {

#[derive(Debug, Clone, Copy, PartialEq, Eq, Structural)]
pub enum Urgency {
    Low,
    Normal,
    Critical,
}

impl Urgency {
    /// What `notify-send` calls an urgency.
    pub open spec fn name(self) -> Seq<char> {
        match self {
            Urgency::Low => "low"@,
            Urgency::Normal => "normal"@,
            Urgency::Critical => "critical"@,
        }
    }

    pub fn as_str(self) -> (r: &'static str)
        ensures
            r@ == self.name(),
    {
        match self {
            Urgency::Low => "low",
            Urgency::Normal => "normal",
            Urgency::Critical => "critical",
        }
    }
}

/// The program that shows a notification, with its arguments.
pub open spec fn notification(summary: Seq<char>, body: Seq<char>, urgency: Urgency) -> Seq<
    Seq<char>,
> {
    seq!["notify-send"@, "-a"@, PROGRAM@, "-u"@, urgency.name(), summary, body]
}

/// The program that shows a notification, where notifications are wanted and
/// the program is installed.
pub fn notify(enabled: bool, installed: bool, summary: &str, body: &str, urgency: Urgency) -> (r:
    Option<Vec<String>>)
    ensures
        r is Some <==> enabled && installed,
        r matches Some(v) ==> text::texts(v@) == notification(summary@, body@, urgency),
{
    if !enabled || !installed {
        return None;
    }
    let v = vec![
        "notify-send".to_owned(),
        "-a".to_owned(),
        PROGRAM.to_owned(),
        "-u".to_owned(),
        urgency.as_str().to_owned(),
        summary.to_owned(),
        body.to_owned(),
    ];
    assert(text::texts(v@) =~= notification(summary@, body@, urgency));
    Some(v)
}

} // verus!
