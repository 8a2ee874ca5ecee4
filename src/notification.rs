use vstd::prelude::*;

use crate::timeout::Timeout;
use vstd::std_specs::convert::IntoSpec;

verus! {

/// What a notification holds, as plain mathematical values.
pub struct NotificationModel {
    pub summary: Seq<char>,
    pub subtitle: Option<Seq<char>>,
    pub body: Seq<char>,
    pub timeout: Timeout,
    pub id: Option<u32>,
}

/// One builder call, as a change to the model.
pub enum Edit {
    Summary(Seq<char>),
    Subtitle(Seq<char>),
    Body(Seq<char>),
    Timeout(Timeout),
    Id(u32),
}

impl Edit {
    /// The field of the notification that this edit writes.
    pub open spec fn field(self) -> nat {
        match self {
            Edit::Summary(_) => 0,
            Edit::Subtitle(_) => 1,
            Edit::Body(_) => 2,
            Edit::Timeout(_) => 3,
            Edit::Id(_) => 4,
        }
    }
}

impl NotificationModel {
    /// The empty notification: no text, no subtitle, no id, the server's timeout.
    pub open spec fn empty() -> NotificationModel {
        NotificationModel {
            summary: Seq::empty(),
            subtitle: None,
            body: Seq::empty(),
            timeout: Timeout::Default,
            id: None,
        }
    }

    /// The model after `e`: the field that `e` writes takes its value, the others stay.
    pub open spec fn apply(self, e: Edit) -> NotificationModel {
        match e {
            Edit::Summary(s) => NotificationModel { summary: s, ..self },
            Edit::Subtitle(s) => NotificationModel { subtitle: Some(s), ..self },
            Edit::Body(s) => NotificationModel { body: s, ..self },
            Edit::Timeout(t) => NotificationModel { timeout: t, ..self },
            Edit::Id(i) => NotificationModel { id: Some(i), ..self },
        }
    }
}

/// Setters that write different fields can be applied in either order.
pub proof fn lemma_distinct_edits_commute(m: NotificationModel, e1: Edit, e2: Edit)
    requires
        e1.field() != e2.field(),
    ensures
        m.apply(e1).apply(e2) == m.apply(e2).apply(e1),
{
}

/// Of two setters that write the same field, the later one wins.
pub proof fn lemma_last_edit_wins(m: NotificationModel, e1: Edit, e2: Edit)
    requires
        e1.field() == e2.field(),
    ensures
        m.apply(e1).apply(e2) == m.apply(e2),
{
}

/// A desktop notification, configured through chained setters before it is shown.
#[derive(Debug, Clone)]
#[non_exhaustive]
pub struct Notification {
    /// Single line to summarize the content.
    pub summary: String,
    /// Subtitle, shown only where the platform has one.
    pub subtitle: Option<String>,
    /// Multiple lines possible; markup is left to the platform.
    pub body: String,
    /// Lifetime of the notification on screen.
    pub timeout: Timeout,
    /// Identity of an earlier notification that this one replaces.
    pub(crate) id: Option<u32>,
}

impl View for Notification {
    type V = NotificationModel;

    closed spec fn view(&self) -> NotificationModel {
        NotificationModel {
            summary: self.summary@,
            subtitle: match self.subtitle {
                Some(s) => Some(s@),
                None => None,
            },
            body: self.body@,
            timeout: self.timeout,
            id: self.id,
        }
    }
}

/// What became of a notification handed to the platform.
#[derive(Debug, Clone, PartialEq, Eq)]
pub enum DispatchOutcome {
    /// The platform accepted the notification.
    Delivered,
    /// The platform could not take it, for the reason given.
    DeliveryFailed(String),
    /// This build has no way to show notifications.
    Unsupported,
}

/// Hands a finished notification to the platform's notification surface.
/// This build carries no platform adapter, so nothing is shown.
fn deliver(config: Notification) -> (r: DispatchOutcome)
    ensures
        r == DispatchOutcome::Unsupported,
{
    DispatchOutcome::Unsupported
}

impl Notification {
    /// Constructs an empty notification.
    pub fn new() -> (r: Notification)
        ensures
            r@ == NotificationModel::empty(),
    {
        Notification::default()
    }

    /// Sets the `summary`, which often acts as the title.
    pub fn summary(&mut self, summary: &str) -> (r: &mut Notification)
        ensures
            r@ == old(self)@.apply(Edit::Summary(summary@)),
            *final(self) == *final(r),
    {
        self.summary = summary.to_owned();
        self
    }

    /// Sets the `subtitle`.
    pub fn subtitle(&mut self, subtitle: &str) -> (r: &mut Notification)
        ensures
            r@ == old(self)@.apply(Edit::Subtitle(subtitle@)),
            *final(self) == *final(r),
    {
        self.subtitle = Some(subtitle.to_owned());
        self
    }

    /// Sets the `body`: multi-line text, each line a paragraph.
    pub fn body(&mut self, body: &str) -> (r: &mut Notification)
        ensures
            r@ == old(self)@.apply(Edit::Body(body@)),
            *final(self) == *final(r),
    {
        self.body = body.to_owned();
        self
    }

    /// Sets the `timeout`. Only the timeout changes. From a raw integer `n` the
    /// new value is `timeout_of_int(n)`: `-1` for the server's choice, `0` for
    /// never, any other value as milliseconds. From a duration `Millis(ms)` it is
    /// `timeout_of_millis(ms)`. A bare `Timeout` argument is stored as given, but
    /// this contract states no result for it.
    pub fn timeout<T: Into<Timeout>>(&mut self, timeout: T) -> (r: &mut Notification)
        ensures
            r@ == old(self)@.apply(Edit::Timeout(r@.timeout)),
            T::obeys_into_spec() ==> r@.timeout == timeout.into_spec(),
            *final(self) == *final(r),
    {
        self.timeout = timeout.into();
        self
    }

    /// Sets the id ahead of time, so that this notification replaces the one
    /// shown earlier under that id.
    pub fn id(&mut self, id: u32) -> (r: &mut Notification)
        ensures
            r@ == old(self)@.apply(Edit::Id(id)),
            *final(self) == *final(r),
    {
        self.id = Some(id);
        self
    }

    /// The id of the earlier notification that this one replaces, if set.
    pub fn replaces_id(&self) -> (r: Option<u32>)
        ensures
            r == self@.id,
    {
        self.id
    }

    /// Returns a complete copy of the notification built so far.
    pub fn finalize(&self) -> (r: Notification)
        ensures
            r@ == self@,
    {
        let subtitle = match &self.subtitle {
            Some(s) => Some(s.clone()),
            None => None,
        };
        Notification {
            summary: self.summary.clone(),
            subtitle,
            body: self.body.clone(),
            timeout: self.timeout,
            id: self.id,
        }
    }

    /// Freezes the notification and hands it to the platform.
    pub fn show(&self) -> (r: DispatchOutcome)
        ensures
            r == DispatchOutcome::Unsupported,
    {
        deliver(self.finalize())
    }
}

/// The model of a notification is made of its public fields, and of its id.
pub(crate) proof fn lemma_view_fields(n: &Notification)
    ensures
        n@.summary == n.summary@,
        n@.subtitle == (match n.subtitle {
            Some(s) => Some(s@),
            None => None,
        }),
        n@.body == n.body@,
        n@.timeout == n.timeout,
        n@.id == n.id,
{
}

impl Default for Notification {
    fn default() -> (r: Notification)
        ensures
            r@ == NotificationModel::empty(),
    {
        Notification {
            summary: String::new(),
            subtitle: None,
            body: String::new(),
            timeout: Timeout::Default,
            id: None,
        }
    }
}

} // verus!
