//! Kittu — the notification engine: alert events, their severities, the
//! e-mail text and dashboard file name of an alert, and delivery
//! confirmation ids. Delivery itself (files, sendmail) happens outside
//! the library.

use vstd::prelude::*;
use crate::text::{string_push};
use crate::kupru::primitives::unix_nanos;

verus! {

/// Seconds between polls of the alert store.
pub const POLL_INTERVAL_SECS: u64 = 10;

/// The severity of an alert.
#[derive(Debug, Clone, Copy, PartialEq, Eq, Structural)]
pub enum AlertSeverity {
    Info,
    Warning,
    Critical,
    /// ERRA — the highest TIAMAT alert level.
    Erra,
}

/// The label of a severity.
pub open spec fn severity_text(s: AlertSeverity) -> Seq<char> {
    match s {
        AlertSeverity::Info => "INFO"@,
        AlertSeverity::Warning => "WARNING"@,
        AlertSeverity::Critical => "CRITICAL"@,
        AlertSeverity::Erra => "ERRA"@,
    }
}

impl AlertSeverity {
    /// The label of the severity.
    pub fn as_str(&self) -> (s: &'static str)
        ensures
            s@ == severity_text(*self),
    {
        match self {
            AlertSeverity::Info => "INFO",
            AlertSeverity::Warning => "WARNING",
            AlertSeverity::Critical => "CRITICAL",
            AlertSeverity::Erra => "ERRA",
        }
    }
}

/// An alert event as read from the alert store.
#[derive(Debug, Clone)]
pub struct AlertEvent {
    pub kaki_id: String,
    pub tribe_id: String,
    pub severity: AlertSeverity,
    pub rule_id: String,
    pub message: String,
    pub timestamp: String,
    /// Ids of the particles the alert refers to.
    pub evidence: Vec<String>,
}

/// Why a delivery failed.
#[derive(Debug)]
pub enum KittuError {
    Io(String),
    Email(String),
    Serialise(String),
}

/// The display text of a delivery error.
pub open spec fn kittu_error_text(e: KittuError) -> Seq<char> {
    match e {
        KittuError::Io(s) => "IO error: "@ + s@,
        KittuError::Email(s) => "Email error: "@ + s@,
        KittuError::Serialise(s) => "Serialise error: "@ + s@,
    }
}

impl KittuError {
    /// The display text of the error.
    pub fn to_string(&self) -> (s: String)
        ensures
            s@ == kittu_error_text(*self),
    {
        let (label, m) = match self {
            KittuError::Io(m) => ("IO error: ", m),
            KittuError::Email(m) => ("Email error: ", m),
            KittuError::Serialise(m) => ("Serialise error: ", m),
        };
        let mut s = label.to_owned();
        s.append(m.as_str());
        s
    }
}

/// Strings joined with a separator.
pub open spec fn joined(items: Seq<String>, sep: Seq<char>) -> Seq<char>
    decreases items.len(),
{
    if items.len() == 0 {
        Seq::empty()
    } else if items.len() == 1 {
        items[0]@
    } else {
        joined(items.drop_last(), sep) + sep + items.last()@
    }
}

/// Joins strings with a separator.
pub fn join_strings(items: &Vec<String>, sep: &str) -> (s: String)
    ensures
        s@ == joined(items@, sep@),
{
    let mut s = String::new();
    let mut i: usize = 0;
    while i < items.len()
        invariant
            0 <= i <= items@.len(),
            s@ == joined(items@.subrange(0, i as int), sep@),
        decreases items@.len() - i,
    {
        if i > 0 {
            s.append(sep);
        }
        s.append(items[i].as_str());
        i = i + 1;
        proof {
            let t = items@.subrange(0, i as int);
            assert(t.drop_last() =~= items@.subrange(0, i - 1));
        }
    }
    assert(items@.subrange(0, items@.len() as int) =~= items@);
    s
}

/// The rule line of dashes in the alert e-mail.
pub open spec fn email_rule() -> Seq<char> {
    "-----------------------------------------------"@
}

/// The subject line of an alert e-mail.
pub open spec fn email_subject(a: AlertEvent) -> Seq<char> {
    "[BahyWay SHEDU] "@ + severity_text(a.severity) + " Alert - "@ + a.rule_id@ + " | tribe="@ + a.tribe_id@
}

/// The body of an alert e-mail.
pub open spec fn email_body(a: AlertEvent) -> Seq<char> {
    "BahyWay.Ecosystem v4.0 - Kittu Engine Alert\n"@ + email_rule() + "\nSeverity : "@ + severity_text(
        a.severity,
    ) + "\nRule     : "@ + a.rule_id@ + "\nTribe    : "@ + a.tribe_id@ + "\nTime     : "@ + a.timestamp@
        + "\nMessage  : "@ + a.message@ + "\nEvidence : "@ + joined(a.evidence@, ", "@)
        + "\nKAKI ID  : "@ + a.kaki_id@ + "\n"@ + email_rule()
        + "\nNisaba detected. Kittu delivered. Sovereign.\n"@
}

/// The RFC-822 text of an alert e-mail to `to`.
pub open spec fn email_text(a: AlertEvent, to: Seq<char>) -> Seq<char> {
    "To: "@ + to + "\nSubject: "@ + email_subject(a)
        + "\nMIME-Version: 1.0\nContent-Type: text/plain; charset=utf-8\n\n"@ + email_body(a)
}

/// Builds the RFC-822 text of an alert e-mail.
pub fn build_email_text(alert: &AlertEvent, to: &str) -> (s: String)
    ensures
        s@ == email_text(*alert, to@),
{
    let sev = alert.severity.as_str();
    let rule = "-----------------------------------------------";
    let mut s = "To: ".to_owned();
    s.append(to);
    s.append("\nSubject: ");
    s.append("[BahyWay SHEDU] ");
    s.append(sev);
    s.append(" Alert - ");
    s.append(alert.rule_id.as_str());
    s.append(" | tribe=");
    s.append(alert.tribe_id.as_str());
    s.append("\nMIME-Version: 1.0\nContent-Type: text/plain; charset=utf-8\n\n");
    s.append("BahyWay.Ecosystem v4.0 - Kittu Engine Alert\n");
    s.append(rule);
    s.append("\nSeverity : ");
    s.append(sev);
    s.append("\nRule     : ");
    s.append(alert.rule_id.as_str());
    s.append("\nTribe    : ");
    s.append(alert.tribe_id.as_str());
    s.append("\nTime     : ");
    s.append(alert.timestamp.as_str());
    s.append("\nMessage  : ");
    s.append(alert.message.as_str());
    s.append("\nEvidence : ");
    let ev = join_strings(&alert.evidence, ", ");
    s.append(ev.as_str());
    s.append("\nKAKI ID  : ");
    s.append(alert.kaki_id.as_str());
    s.append("\n");
    s.append(rule);
    s.append("\nNisaba detected. Kittu delivered. Sovereign.\n");
    assert(s@ =~= email_text(*alert, to@));
    s
}

/// The dashboard file name of an alert: `alert_<SEVERITY>_<first eight
/// characters of the id>.json`.
pub open spec fn show_file_name(a: AlertEvent) -> Seq<char> {
    "alert_"@ + severity_text(a.severity) + "_"@ + a.kaki_id@.take(
        if a.kaki_id@.len() < 8 { a.kaki_id@.len() as int } else { 8 },
    ) + ".json"@
}

/// The dashboard file name an alert is written under.
pub fn show_alert_file_name(alert: &AlertEvent) -> (s: String)
    ensures
        s@ == show_file_name(*alert),
{
    let id = crate::text::str_chars(alert.kaki_id.as_str());
    let mut s = "alert_".to_owned();
    s.append(alert.severity.as_str());
    s.append("_");
    let n: usize = if id.len() < 8 { id.len() } else { 8 };
    let ghost start = s@;
    let mut i: usize = 0;
    while i < n
        invariant
            0 <= i <= n,
            n <= id@.len(),
            s@ == start + id@.take(i as int),
        decreases n - i,
    {
        string_push(&mut s, id[i]);
        i = i + 1;
        assert(s@ =~= start + id@.take(i as int));
    }
    s.append(".json");
    assert(s@ =~= show_file_name(*alert));
    s
}

/// Lowercase hexadecimal rendering of a natural number, without leading
/// zeros.
pub open spec fn hex_number(n: nat) -> Seq<char>
    decreases n,
{
    if n < 16 {
        seq![crate::text::hex_digit(n)]
    } else {
        hex_number(n / 16).push(crate::text::hex_digit(n % 16))
    }
}

/// Appends the hexadecimal rendering of `n`.
fn push_hex_number(out: &mut String, n: u128)
    ensures
        final(out)@ == old(out)@ + hex_number(n as nat),
    decreases n,
{
    if n >= 16 {
        push_hex_number(out, n / 16);
    }
    let d: u8 = (n % 16) as u8;
    let c: char = if d < 10 { (48u8 + d) as char } else { (87u8 + d) as char };
    string_push(out, c);
}

/// The confirmation id of a delivery at `nanos` nanoseconds past the
/// epoch: `kittu-confirm-<nanos in hex>`.
pub fn confirm_id_for(nanos: u128) -> (s: String)
    ensures
        s@ == "kittu-confirm-"@ + hex_number(nanos as nat),
{
    let mut s = "kittu-confirm-".to_owned();
    push_hex_number(&mut s, nanos);
    s
}

/// The confirmation id of a delivery made now, from the system clock.
pub fn emit_delivery_confirmation(alert: &AlertEvent) -> (s: String)
    ensures
        exists|nanos: u128| s@ == "kittu-confirm-"@ + #[trigger] hex_number(nanos as nat),
{
    let nanos = unix_nanos();
    confirm_id_for(nanos)
}

/// The alerts waiting in the alert store; the store query is not wired
/// yet, so there are none.
pub fn poll_pending_alerts(enkidb_addr: &str) -> (v: Vec<AlertEvent>)
    ensures
        v@.len() == 0,
{
    Vec::new()
}

} // verus!
