//! The notification service's decisions: templates, the preferences that
//! decide which channels deliver a notification, and what is logged for
//! each delivery.
use crate::api::ApiError;
use vstd::prelude::*;

verus! {

/// A change of notification preferences: only the fields given change.
pub struct UpdatePreferencesRequest {
    pub email_enabled: Option<bool>,
    pub sms_enabled: Option<bool>,
    pub push_enabled: Option<bool>,
}

/// A user's notification preferences as the API returns them.
pub struct PreferenceResponseDto {
    pub user_id: String,
    pub email_enabled: bool,
    pub sms_enabled: bool,
    pub push_enabled: bool,
}

/// The notifications of one user.
pub struct NotificationQuery {
    pub user_id: String,
}

/// Which channels deliver a user's notifications.
#[derive(PartialEq, Eq, Structural, Clone, Copy, Debug)]
pub struct NotificationPreferences {
    pub email_enabled: bool,
    pub sms_enabled: bool,
    pub push_enabled: bool,
}

/// The preferences of a user who has stored none: e-mail and push, no SMS.
pub open spec fn default_preferences() -> NotificationPreferences {
    NotificationPreferences { email_enabled: true, sms_enabled: false, push_enabled: true }
}

/// `new` where it is given, else `old`.
pub open spec fn or_keep(new: Option<bool>, old: bool) -> bool {
    match new {
        Some(v) => v,
        None => old,
    }
}

impl NotificationPreferences {
    /// The preferences of a user who has stored none.
    pub fn defaults() -> (r: NotificationPreferences)
        ensures
            r == default_preferences(),
    {
        NotificationPreferences { email_enabled: true, sms_enabled: false, push_enabled: true }
    }

    /// The stored preferences, or the defaults when none are stored.
    pub fn stored_or_default(stored: Option<NotificationPreferences>) -> (r: NotificationPreferences)
        ensures
            r == (match stored {
                Some(p) => p,
                None => default_preferences(),
            }),
    {
        match stored {
            Some(p) => p,
            None => Self::defaults(),
        }
    }

    /// The preferences after an update: each field given replaces the stored
    /// one; a user with none stored starts from the defaults.
    pub fn after_update(stored: Option<NotificationPreferences>, update: &UpdatePreferencesRequest) -> (r:
        NotificationPreferences)
        ensures
            ({
                let base = match stored {
                    Some(p) => p,
                    None => default_preferences(),
                };
                r == NotificationPreferences {
                    email_enabled: or_keep(update.email_enabled, base.email_enabled),
                    sms_enabled: or_keep(update.sms_enabled, base.sms_enabled),
                    push_enabled: or_keep(update.push_enabled, base.push_enabled),
                }
            }),
    {
        let base = Self::stored_or_default(stored);
        NotificationPreferences {
            email_enabled: match update.email_enabled {
                Some(v) => v,
                None => base.email_enabled,
            },
            sms_enabled: match update.sms_enabled {
                Some(v) => v,
                None => base.sms_enabled,
            },
            push_enabled: match update.push_enabled {
                Some(v) => v,
                None => base.push_enabled,
            },
        }
    }
}

/// An empty update leaves stored preferences as they were, and applying the
/// same update twice is the same as applying it once.
pub proof fn lemma_preference_update_laws(p: NotificationPreferences, u: Option<bool>)
    ensures
        or_keep(None, p.email_enabled) == p.email_enabled,
        or_keep(u, or_keep(u, p.sms_enabled)) == or_keep(u, p.sms_enabled),
{
}

/// A delivery channel.
#[allow(non_camel_case_types)]
#[derive(PartialEq, Eq, Structural, Clone, Copy, Debug)]
pub enum DeliveryChannel {
    IN_APP,
    EMAIL,
    SMS,
    PUSH,
}

/// The outcome of a delivery.
#[allow(non_camel_case_types)]
#[derive(PartialEq, Eq, Structural, Clone, Copy, Debug)]
pub enum DeliveryStatus {
    DELIVERED,
    SENT,
    FAILED,
}

impl DeliveryChannel {
    /// The channel's name as it is stored.
    pub fn as_str(&self) -> (r: &'static str)
        ensures
            r@ == (match self {
                DeliveryChannel::IN_APP => "IN_APP"@,
                DeliveryChannel::EMAIL => "EMAIL"@,
                DeliveryChannel::SMS => "SMS"@,
                DeliveryChannel::PUSH => "PUSH"@,
            }),
    {
        match self {
            DeliveryChannel::IN_APP => "IN_APP",
            DeliveryChannel::EMAIL => "EMAIL",
            DeliveryChannel::SMS => "SMS",
            DeliveryChannel::PUSH => "PUSH",
        }
    }
}

impl DeliveryStatus {
    /// The status's name as it is stored.
    pub fn as_str(&self) -> (r: &'static str)
        ensures
            r@ == (match self {
                DeliveryStatus::DELIVERED => "DELIVERED"@,
                DeliveryStatus::SENT => "SENT"@,
                DeliveryStatus::FAILED => "FAILED"@,
            }),
    {
        match self {
            DeliveryStatus::DELIVERED => "DELIVERED",
            DeliveryStatus::SENT => "SENT",
            DeliveryStatus::FAILED => "FAILED",
        }
    }
}

/// The channels besides the in-app one that deliver a notification, in the
/// order they are tried.
pub open spec fn outside_channels(p: NotificationPreferences) -> Seq<DeliveryChannel> {
    (if p.email_enabled {
        seq![DeliveryChannel::EMAIL]
    } else {
        Seq::empty()
    }) + (if p.sms_enabled {
        seq![DeliveryChannel::SMS]
    } else {
        Seq::empty()
    }) + (if p.push_enabled {
        seq![DeliveryChannel::PUSH]
    } else {
        Seq::empty()
    })
}

/// The channels that deliver a notification besides the in-app one (which
/// always delivers), in the order they are tried.
pub fn delivery_channels(p: NotificationPreferences) -> (r: Vec<DeliveryChannel>)
    ensures
        r@ == outside_channels(p),
{
    let mut v: Vec<DeliveryChannel> = Vec::new();
    if p.email_enabled {
        v.push(DeliveryChannel::EMAIL);
    }
    if p.sms_enabled {
        v.push(DeliveryChannel::SMS);
    }
    if p.push_enabled {
        v.push(DeliveryChannel::PUSH);
    }
    assert(v@ =~= outside_channels(p));
    v
}

/// One line of the delivery log.
pub struct DeliveryLogEntry {
    pub channel: DeliveryChannel,
    pub status: DeliveryStatus,
    pub error_message: Option<String>,
}

/// The log entry of the in-app delivery, which always succeeds.
pub fn in_app_delivery() -> (r: DeliveryLogEntry)
    ensures
        r.channel == DeliveryChannel::IN_APP,
        r.status == DeliveryStatus::DELIVERED,
        r.error_message is None,
{
    DeliveryLogEntry {
        channel: DeliveryChannel::IN_APP,
        status: DeliveryStatus::DELIVERED,
        error_message: None,
    }
}

/// The log entry for a send on a channel: sent, or failed with the error.
pub fn delivery_entry(channel: DeliveryChannel, sent: Result<(), String>) -> (r: DeliveryLogEntry)
    ensures
        r.channel == channel,
        sent is Ok ==> r.status == DeliveryStatus::SENT && r.error_message is None,
        sent matches Err(e) ==> r.status == DeliveryStatus::FAILED && r.error_message == Some(e),
{
    match sent {
        Ok(()) => DeliveryLogEntry { channel, status: DeliveryStatus::SENT, error_message: None },
        Err(e) => DeliveryLogEntry {
            channel,
            status: DeliveryStatus::FAILED,
            error_message: Some(e),
        },
    }
}

/// `s` with every non-overlapping occurrence of `pat`, found from the left,
/// replaced by `rep` (what `str::replace` does for a non-empty pattern).
pub open spec fn replace_all(s: Seq<char>, pat: Seq<char>, rep: Seq<char>) -> Seq<char>
    decreases s.len(),
{
    if pat.len() == 0 || s.len() < pat.len() {
        s
    } else if s.subrange(0, pat.len() as int) == pat {
        rep + replace_all(s.subrange(pat.len() as int, s.len() as int), pat, rep)
    } else {
        seq![s[0]] + replace_all(s.subrange(1, s.len() as int), pat, rep)
    }
}

/// Whether `pat` occurs in `s` at character position `i`.
fn occurs_at(s: &str, n: usize, pat: &str, m: usize, i: usize) -> (r: bool)
    requires
        n == s@.len(),
        m == pat@.len(),
        i <= n,
    ensures
        r == (i + m <= n && s@.subrange(i as int, i + m) == pat@),
{
    if m > n - i {
        return false;
    }
    let mut j: usize = 0;
    while j < m
        invariant
            n == s@.len(),
            m == pat@.len(),
            i + m <= n,
            j <= m,
            forall|k: int| 0 <= k < j ==> s@[i + k] == pat@[k],
        decreases m - j,
    {
        if s.get_char(i + j) != pat.get_char(j) {
            assert(s@.subrange(i as int, i + m)[j as int] != pat@[j as int]);
            return false;
        }
        j = j + 1;
    }
    assert(s@.subrange(i as int, i + m) =~= pat@);
    true
}

/// `s.replace(pat, rep)` for a non-empty `pat`.
pub fn replace_text(s: &str, pat: &str, rep: &str) -> (r: String)
    requires
        pat@.len() > 0,
    ensures
        r@ == replace_all(s@, pat@, rep@),
{
    let n = s.unicode_len();
    let m = pat.unicode_len();
    let mut out = String::new();
    let mut i: usize = 0;
    assert(s@.subrange(0, n as int) =~= s@);
    assert(out@ + replace_all(s@, pat@, rep@) =~= replace_all(s@, pat@, rep@));
    while i < n
        invariant
            n == s@.len(),
            m == pat@.len(),
            m > 0,
            i <= n,
            out@ + replace_all(s@.subrange(i as int, n as int), pat@, rep@) == replace_all(
                s@,
                pat@,
                rep@,
            ),
        decreases n - i,
    {
        let ghost rest = s@.subrange(i as int, n as int);
        if occurs_at(s, n, pat, m, i) {
            assert(rest.subrange(0, m as int) =~= s@.subrange(i as int, i + m));
            assert(rest.subrange(m as int, rest.len() as int) =~= s@.subrange(i + m, n as int));
            out.append(rep);
            assert(out@ + replace_all(s@.subrange(i + m, n as int), pat@, rep@) =~= replace_all(
                s@,
                pat@,
                rep@,
            ));
            i = i + m;
        } else {
            let c = s.substring_char(i, i + 1);
            proof {
                if rest.len() >= m {
                    assert(rest.subrange(0, m as int) =~= s@.subrange(i as int, i + m));
                }
            }
            assert(rest.subrange(1, rest.len() as int) =~= s@.subrange(i + 1, n as int));
            assert(c@ =~= seq![rest[0]]);
            out.append(c);
            assert(out@ + replace_all(s@.subrange(i + 1, n as int), pat@, rep@) =~= replace_all(
                s@,
                pat@,
                rep@,
            ));
            i = i + 1;
        }
    }
    assert(s@.subrange(n as int, n as int) =~= Seq::<char>::empty());
    assert(out@ =~= replace_all(s@, pat@, rep@));
    out
}

/// The placeholder of a template variable: `{{key}}`.
pub open spec fn placeholder(key: Seq<char>) -> Seq<char> {
    "{{"@ + key + "}}"@
}

/// A template with its variables filled in, one variable after the other.
pub open spec fn fill_template(template: Seq<char>, vars: Seq<(Seq<char>, Seq<char>)>) -> Seq<char>
    decreases vars.len(),
{
    if vars.len() == 0 {
        template
    } else {
        let (k, v) = vars.last();
        replace_all(fill_template(template, vars.drop_last()), placeholder(k), v)
    }
}

/// The variables as plain text.
pub open spec fn vars_view(vars: Seq<(String, String)>) -> Seq<(Seq<char>, Seq<char>)> {
    vars.map_values(|kv: (String, String)| (kv.0@, kv.1@))
}

/// Fills in a template: every `{{key}}` becomes the value of `key`, the
/// variables taken in order.
pub fn parse_template(template: &str, vars: &Vec<(String, String)>) -> (r: String)
    ensures
        r@ == fill_template(template@, vars_view(vars@)),
{
    let mut result = String::from_str(template);
    let mut i: usize = 0;
    while i < vars.len()
        invariant
            i <= vars@.len(),
            result@ == fill_template(template@, vars_view(vars@).take(i as int)),
        decreases vars@.len() - i,
    {
        let (key, value) = (&vars[i].0, &vars[i].1);
        let mut ph = String::from_str("{{");
        ph.append(key.as_str());
        ph.append("}}");
        proof {
            reveal_strlit("{{");
            reveal_strlit("}}");
            assert(ph@ == placeholder(key@));
        }
        let next = replace_text(result.as_str(), ph.as_str(), value.as_str());
        proof {
            let vv = vars_view(vars@);
            assert(vv.take(i + 1).drop_last() =~= vv.take(i as int));
            assert(vv.take(i + 1).last() == (key@, value@));
        }
        result = next;
        i = i + 1;
    }
    assert(vars_view(vars@).take(vars@.len() as int) =~= vars_view(vars@));
    result
}

/// A stored template: the subject (optional) and the body.
pub struct NotificationTemplateText {
    pub subject_template: Option<String>,
    pub body_template: String,
}

/// The title and message of a notification: from the template when one is
/// named (the request's title when the template has no subject), else the
/// request's own.
pub fn title_and_message(
    title: String,
    message: String,
    template: Option<&NotificationTemplateText>,
    vars: &Vec<(String, String)>,
) -> (r: (String, String))
    ensures
        template is None ==> r.0 == title && r.1 == message,
        template matches Some(t) ==> r.1@ == fill_template(t.body_template@, vars_view(vars@))
            && r.0@ == (match t.subject_template {
                Some(s) => fill_template(s@, vars_view(vars@)),
                None => title@,
            }),
{
    match template {
        None => (title, message),
        Some(t) => {
            let body = parse_template(t.body_template.as_str(), vars);
            let subject = match &t.subject_template {
                Some(s) => parse_template(s.as_str(), vars),
                None => title,
            };
            (subject, body)
        },
    }
}

/// The error for a template that does not exist.
pub fn template_not_found(name: &str) -> (r: ApiError)
    ensures
        r matches ApiError::NotFound(m) && m@ == "Template '"@ + name@ + "' not found"@,
{
    let mut m = String::from_str("Template '");
    m.append(name);
    m.append("' not found");
    ApiError::NotFound(m)
}

/// Marking a notification read, given the rows changed: 404 when there is
/// no such notification.
pub fn mark_read_outcome(updated_rows: u64) -> (r: Result<(), ApiError>)
    ensures
        updated_rows > 0 ==> r is Ok,
        updated_rows == 0 ==> (r matches Err(ApiError::NotFound(m)) && m@ == "Notification not found"@),
{
    if updated_rows == 0 {
        Err(ApiError::NotFound(String::from_str("Notification not found")))
    } else {
        Ok(())
    }
}

} // verus!
