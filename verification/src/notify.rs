use vstd::prelude::*;
use vstd::string::StringExecFns;
use std::io::Write;

verus! {

/// What the completion notifier did: the desktop notification was
/// delivered, or the fallback line was printed instead.  There is no error
/// case: whatever the backend does, one of these two comes back.
#[derive(Clone, Copy, PartialEq, Eq, Structural, Debug)]
pub enum NotifyOutcome {
    Delivered,
    FallbackPrinted,
}

/// Relies on notify_rust::Notification: new, summary and body build the
/// notification, and show hands it to the desktop backend; the result says
/// whether the backend accepted it.
#[verifier::external_body]
fn show_notification(title: &str, message: &str) -> (delivered: bool) {
    match notify_rust::Notification::new().summary(title).body(message).show() {
        Ok(_) => true,
        Err(_) => false,
    }
}

/// Relies on std::io::Stdout::write_fmt, through writeln: prints one line
/// to standard output and discards the result of the write.
#[verifier::external_body]
fn print_line(line: &str) {
    let _ = writeln!(std::io::stdout(), "{}", line);
}

/// The fallback text printed when the desktop notification fails.
pub open spec fn fallback_line_spec(title: Seq<char>, message: Seq<char>) -> Seq<char> {
    title.add(": "@).add(message)
}

/// Renders the fallback text `title: message`.
pub fn fallback_line(title: &str, message: &str) -> (r: String)
    ensures
        r@ == fallback_line_spec(title@, message@),
{
    let mut r = String::from_str(title);
    r.append(": ");
    r.append(message);
    proof {
        assert(r@ =~= fallback_line_spec(title@, message@));
    }
    r
}

/// Best-effort completion notification: tries the desktop backend, and on
/// any failure prints `title: message` to standard output instead.  It
/// never raises an error to its caller: whether the backend succeeds or
/// fails, the result is one of the two quiet outcomes.
pub fn notify(title: &str, message: &str) -> (outcome: NotifyOutcome)
    ensures
        outcome == NotifyOutcome::Delivered || outcome == NotifyOutcome::FallbackPrinted,
{
    if show_notification(title, message) {
        NotifyOutcome::Delivered
    } else {
        let line = fallback_line(title, message);
        print_line(line.as_str());
        NotifyOutcome::FallbackPrinted
    }
}

} // verus!
