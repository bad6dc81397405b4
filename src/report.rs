use crate::error::{error_text, DebugInfo, Error, HostError};
use crate::events::{DiagnosticEvent, Val};
use vstd::prelude::*;
use vstd::string::*;

verus! {

/// The most events a report lists, newest first.
pub const MAX_EVENTS: usize = 25;

/// The text of a decimal digit.
pub open spec fn digit_text(d: int) -> Seq<char> {
    if d == 0 {
        "0"@
    } else if d == 1 {
        "1"@
    } else if d == 2 {
        "2"@
    } else if d == 3 {
        "3"@
    } else if d == 4 {
        "4"@
    } else if d == 5 {
        "5"@
    } else if d == 6 {
        "6"@
    } else if d == 7 {
        "7"@
    } else if d == 8 {
        "8"@
    } else if d == 9 {
        "9"@
    } else {
        Seq::empty()
    }
}

/// The decimal text of `n`, without leading zeros.
pub open spec fn decimal(n: nat) -> Seq<char>
    decreases n,
{
    if n < 10 {
        digit_text(n as int)
    } else {
        decimal(n / 10) + digit_text((n % 10) as int)
    }
}

/// The first line of every report.
pub open spec fn report_header(e: Error) -> Seq<char> {
    "HostError: "@ + error_text(e) + "\n"@
}

/// The text of a value in a report.
pub open spec fn val_spec(v: Val) -> Seq<char> {
    match v {
        Val::Void => "Void"@,
        Val::U32(x) => decimal(x as nat),
        Val::Error(e) => error_text(e),
        Val::Address(_) => "Address"@,
        Val::Bytes(b) => "Bytes("@ + decimal(b@.len()) + ")"@,
        Val::Str(t) => t@,
    }
}

/// The first `i` arguments, as they follow an event's message.
pub open spec fn args_part(args: Seq<Val>, i: nat) -> Seq<char>
    decreases i,
{
    if i == 0 {
        Seq::empty()
    } else {
        args_part(args, (i - 1) as nat) + (if i == 1 {
            " ["@
        } else {
            ", "@
        }) + val_spec(args[i - 1])
    }
}

/// The text of an event in a report: its fault, message and arguments.
pub open spec fn event_spec(ev: DiagnosticEvent) -> Seq<char> {
    error_text(ev.error) + " "@ + ev.msg@ + args_part(ev.args@, ev.args@.len()) + (if ev.args@.len()
        > 0 {
        "]"@
    } else {
        Seq::empty()
    })
}

/// The text of a symbol name in a report.
pub open spec fn name_spec(n: Option<String>) -> Seq<char> {
    match n {
        Some(s) => s@,
        None => "<unknown>"@,
    }
}

/// The first `i` symbol names of a frame.
pub open spec fn frame_part(frame: Seq<Option<String>>, i: nat) -> Seq<char>
    decreases i,
{
    if i == 0 {
        Seq::empty()
    } else {
        frame_part(frame, (i - 1) as nat) + (if i > 1 {
            " / "@
        } else {
            Seq::empty()
        }) + name_spec(frame[i - 1])
    }
}

/// The lines of the `i` newest events, newest first.
pub open spec fn events_part(evs: Seq<DiagnosticEvent>, i: nat) -> Seq<char>
    decreases i,
{
    if i == 0 {
        Seq::empty()
    } else {
        events_part(evs, (i - 1) as nat) + "   "@ + decimal((i - 1) as nat) + ": "@ + event_spec(
            evs[evs.len() - i],
        ) + "\n"@
    }
}

/// The lines of the first `j` frames.
pub open spec fn frames_part(bt: Seq<Vec<Option<String>>>, j: nat) -> Seq<char>
    decreases j,
{
    if j == 0 {
        Seq::empty()
    } else {
        frames_part(bt, (j - 1) as nat) + "   "@ + decimal((j - 1) as nat) + ": "@ + frame_part(
            bt[j - 1]@,
            bt[j - 1]@.len(),
        ) + "\n"@
    }
}

/// The report of a diagnostic payload: the newest `MAX_EVENTS` events,
/// newest first, an elision line when there are more, then the call history.
pub open spec fn info_spec(info: DebugInfo) -> Seq<char> {
    let n = info.events@.len();
    (if n > 0 {
        "\nEvent log (newest first):\n"@
    } else {
        Seq::empty()
    }) + events_part(info.events@, if n > MAX_EVENTS {
        MAX_EVENTS as nat
    } else {
        n
    }) + (if n > MAX_EVENTS {
        "   "@ + decimal(MAX_EVENTS as nat) + ": ... elided ...\n"@
    } else {
        Seq::empty()
    }) + "\nBacktrace (newest first):\n"@ + frames_part(info.backtrace@, info.backtrace@.len())
}

fn digit_str(d: usize) -> (r: &'static str)
    requires
        d < 10,
    ensures
        r@ == digit_text(d as int),
{
    if d == 0 {
        "0"
    } else if d == 1 {
        "1"
    } else if d == 2 {
        "2"
    } else if d == 3 {
        "3"
    } else if d == 4 {
        "4"
    } else if d == 5 {
        "5"
    } else if d == 6 {
        "6"
    } else if d == 7 {
        "7"
    } else if d == 8 {
        "8"
    } else if d == 9 {
        "9"
    } else {
        "9"
    }
}

/// Appends the decimal text of `n`.
pub fn append_decimal(out: &mut String, n: usize)
    ensures
        final(out)@ == old(out)@ + decimal(n as nat),
    decreases n,
{
    if n >= 10 {
        append_decimal(out, n / 10);
    }
    out.append(digit_str(n % 10));
    assert(out@ =~= old(out)@ + decimal(n as nat));
}

fn val_text(v: &Val, s: &mut String)
    ensures
        final(s)@ == old(s)@ + val_spec(*v),
{
    match v {
        Val::Void => s.append("Void"),
        Val::U32(x) => append_decimal(s, *x as usize),
        Val::Error(e) => s.append(e.debug_text().as_str()),
        Val::Address(_) => s.append("Address"),
        Val::Bytes(b) => {
            s.append("Bytes(");
            append_decimal(s, b.len());
            s.append(")");
            assert(s@ =~= old(s)@ + val_spec(*v));
        },
        Val::Str(t) => s.append(t.as_str()),
    }
}

fn event_text(ev: &DiagnosticEvent, s: &mut String)
    ensures
        final(s)@ == old(s)@ + event_spec(*ev),
{
    s.append(ev.error.debug_text().as_str());
    s.append(" ");
    s.append(ev.msg.as_str());
    let ghost p = old(s)@ + error_text(ev.error) + " "@ + ev.msg@;
    assert(s@ =~= p + args_part(ev.args@, 0));
    let mut i: usize = 0;
    while i < ev.args.len()
        invariant
            i <= ev.args@.len(),
            s@ == p + args_part(ev.args@, i as nat),
        decreases ev.args@.len() - i,
    {
        s.append(if i == 0 {
            " ["
        } else {
            ", "
        });
        val_text(&ev.args[i], s);
        i = i + 1;
        assert(s@ =~= p + args_part(ev.args@, i as nat));
    }
    if ev.args.len() > 0 {
        s.append("]");
    }
    assert(s@ =~= old(s)@ + event_spec(*ev));
}

fn frame_text(frame: &Vec<Option<String>>, s: &mut String)
    ensures
        final(s)@ == old(s)@ + frame_part(frame@, frame@.len()),
{
    let ghost p = old(s)@;
    assert(s@ =~= p + frame_part(frame@, 0));
    let mut i: usize = 0;
    while i < frame.len()
        invariant
            i <= frame@.len(),
            s@ == p + frame_part(frame@, i as nat),
        decreases frame@.len() - i,
    {
        if i > 0 {
            s.append(" / ");
        }
        match &frame[i] {
            Some(name) => s.append(name.as_str()),
            None => s.append("<unknown>"),
        }
        i = i + 1;
        assert(s@ =~= p + frame_part(frame@, i as nat));
    }
}

fn debug_info_text(info: &DebugInfo, s: &mut String)
    ensures
        final(s)@ == old(s)@ + info_spec(*info),
{
    let n = info.events.len();
    if n > 0 {
        s.append("\nEvent log (newest first):\n");
    }
    let ghost p = s@;
    assert(s@ =~= p + events_part(info.events@, 0));
    let mut i: usize = 0;
    while i < n && i < MAX_EVENTS
        invariant
            n == info.events@.len(),
            i <= n,
            i <= MAX_EVENTS,
            s@ == p + events_part(info.events@, i as nat),
        decreases n - i,
    {
        s.append("   ");
        append_decimal(s, i);
        s.append(": ");
        event_text(&info.events[n - 1 - i], s);
        s.append("\n");
        i = i + 1;
        assert(s@ =~= p + events_part(info.events@, i as nat));
    }
    if n > MAX_EVENTS {
        s.append("   ");
        append_decimal(s, MAX_EVENTS);
        s.append(": ... elided ...\n");
    }
    s.append("\nBacktrace (newest first):\n");
    let ghost p2 = s@;
    assert(s@ =~= p2 + frames_part(info.backtrace@, 0));
    let mut j: usize = 0;
    while j < info.backtrace.len()
        invariant
            j <= info.backtrace@.len(),
            s@ == p2 + frames_part(info.backtrace@, j as nat),
        decreases info.backtrace@.len() - j,
    {
        s.append("   ");
        append_decimal(s, j);
        s.append(": ");
        frame_text(&info.backtrace[j], s);
        s.append("\n");
        j = j + 1;
        assert(s@ =~= p2 + frames_part(info.backtrace@, j as nat));
    }
    assert(s@ =~= old(s)@ + info_spec(*info));
}

impl HostError {
    /// A readable report: the fault, then the diagnostic payload if any.
    pub fn report(&self) -> (r: String)
        ensures
            r@ == report_header(self.error) + match self.info {
                None => "DebugInfo not available\n"@,
                Some(info) => info_spec(info),
            },
    {
        let mut out = String::from_str("HostError: ");
        out.append(self.error.debug_text().as_str());
        out.append("\n");
        match &self.info {
            None => out.append("DebugInfo not available\n"),
            Some(info) => debug_info_text(info, &mut out),
        }
        out
    }
}

} // verus!
