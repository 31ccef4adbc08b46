//! Decisions of the link to the serial timing device: which port to use, what
//! bytes a command becomes, and what to do with each read from the device.

use vstd::prelude::*;

verus! {

/// Commands for the timing device.
#[derive(Debug, Clone, Copy, PartialEq, Eq, Structural)]
pub enum Commands {
    StartRace,
}

/// The text frame that carries a command to the device.
pub open spec fn command_frame(c: Commands) -> Seq<char> {
    match c {
        Commands::StartRace => seq!['r', ':', 's', '\n'],
    }
}

impl Commands {
    /// The frame written to the device for this command.
    pub fn frame(&self) -> (r: &'static str)
        ensures
            r@ == command_frame(*self),
    {
        proof {
            reveal_strlit("r:s\n");
        }
        match self {
            Commands::StartRace => "r:s\n",
        }
    }
}

/// A serial port as enumerated on this machine: its name and whether it is a
/// USB port.
#[derive(Debug)]
pub struct PortDescriptor {
    pub name: String,
    pub usb: bool,
}

/// The names of the USB ports among `ports`, in order.
pub open spec fn usb_port_names(ports: Seq<PortDescriptor>) -> Seq<Seq<char>>
    decreases ports.len(),
{
    if ports.len() == 0 {
        Seq::empty()
    } else {
        let rest = usb_port_names(ports.drop_last());
        if ports.last().usb {
            rest.push(ports.last().name@)
        } else {
            rest
        }
    }
}

/// The views of a sequence of strings.
pub open spec fn texts(v: Seq<String>) -> Seq<Seq<char>> {
    v.map_values(|s: String| s@)
}

/// The names of the USB ports among those enumerated; other ports are not
/// timing devices.
pub fn get_available_devices(ports: Vec<PortDescriptor>) -> (r: Vec<String>)
    ensures
        texts(r@) == usb_port_names(ports@),
{
    let mut names: Vec<String> = Vec::new();
    let mut i: usize = 0;
    while i < ports.len()
        invariant
            i <= ports@.len(),
            texts(names@) == usb_port_names(ports@.take(i as int)),
        decreases ports@.len() - i,
    {
        let ghost before = names@;
        assert(ports@.take(i + 1).drop_last() =~= ports@.take(i as int));
        if ports[i].usb {
            names.push(ports[i].name.clone());
            assert(texts(names@) =~= texts(before).push(ports@[i as int].name@));
        }
        i += 1;
    }
    assert(ports@.take(i as int) =~= ports@);
    names
}

/// The port to connect to: the last one found. With none, the link stays
/// inactive.
pub fn select_device(ports: Vec<String>) -> (r: Option<String>)
    ensures
        ports@.len() == 0 ==> r is None,
        ports@.len() > 0 ==> (r matches Some(p) && p == ports@.last()),
{
    let mut ports = ports;
    ports.pop()
}

/// Fields, each followed by the separator `:`.
pub open spec fn terminated(fields: Seq<Seq<char>>) -> Seq<char>
    decreases fields.len(),
{
    if fields.len() == 0 {
        Seq::empty()
    } else {
        terminated(fields.drop_last()) + fields.last() + seq![':']
    }
}

/// Fields joined by the separator `:`.
pub open spec fn joined(fields: Seq<Seq<char>>) -> Seq<char> {
    if fields.len() == 0 {
        Seq::empty()
    } else {
        terminated(fields.drop_last()) + fields.last()
    }
}

/// Whether `fields` are the parts of `s` between its separators: there is at
/// least one, none holds a separator, and joined they give `s`.
pub open spec fn is_split_of(fields: Seq<Seq<char>>, s: Seq<char>) -> bool {
    &&& fields.len() >= 1
    &&& joined(fields) == s
    &&& forall|i: int, j: int|
        0 <= i < fields.len() && 0 <= j < fields[i].len() ==> #[trigger] fields[i][j] != ':'
}

/// A line without its line ending (`\n` or `\r\n`).
pub open spec fn without_line_end(s: Seq<char>) -> Seq<char> {
    let a = if s.len() > 0 && s.last() == '\n' {
        s.drop_last()
    } else {
        s
    };
    if a.len() > 0 && a.last() == '\r' {
        a.drop_last()
    } else {
        a
    }
}

/// A line of telemetry from the device, and its `:`-separated fields.
#[derive(Debug)]
pub struct TelemetryFrame {
    pub line: String,
    pub fields: Vec<String>,
}

/// Decodes a line read from the device: drops its line ending and splits it
/// on `:`.
pub fn decode_telemetry(raw: &str) -> (r: TelemetryFrame)
    ensures
        r.line@ == without_line_end(raw@),
        is_split_of(texts(r.fields@), r.line@),
{
    let n = raw.unicode_len();
    let mut end = n;
    if end > 0 && raw.get_char(end - 1) == '\n' {
        end -= 1;
    }
    if end > 0 && raw.get_char(end - 1) == '\r' {
        end -= 1;
    }
    let body = raw.substring_char(0, end);
    assert(body@ == without_line_end(raw@)) by {
        assert(raw@.subrange(0, n as int) =~= raw@);
        assert(raw@.drop_last() =~= raw@.subrange(0, n - 1));
        if n >= 2 {
            assert(raw@.drop_last().drop_last() =~= raw@.subrange(0, n - 2));
        }
    }
    let mut fields: Vec<String> = Vec::new();
    let mut start: usize = 0;
    let mut i: usize = 0;
    while i < end
        invariant
            end == body@.len(),
            start <= i <= end,
            body@.subrange(0, start as int) == terminated(texts(fields@)),
            forall|k: int| start <= k < i ==> body@[k] != ':',
            forall|a: int, b: int|
                0 <= a < fields@.len() && 0 <= b < fields@[a]@.len() ==> #[trigger] fields@[a]@[b]
                    != ':',
        decreases end - i,
    {
        if body.get_char(i) == ':' {
            let part = String::from_str(body.substring_char(start, i));
            let ghost before = fields@;
            fields.push(part);
            assert(texts(fields@).drop_last() =~= texts(before));
            assert(body@.subrange(0, i + 1) =~= body@.subrange(0, start as int) + part@ + seq![
                ':',
            ]);
            start = i + 1;
        }
        i += 1;
    }
    let last = String::from_str(body.substring_char(start, end));
    let ghost before = fields@;
    fields.push(last);
    assert(texts(fields@).drop_last() =~= texts(before));
    assert(body@ =~= body@.subrange(0, start as int) + last@);
    TelemetryFrame { line: String::from_str(body), fields }
}

/// What one read from the device gave.
#[derive(Debug)]
pub enum ReadOutcome {
    /// A line, with its line ending; empty when the device had nothing more.
    Line(String),
    /// Nothing arrived within the read timeout.
    TimedOut,
    /// Any other read failure, described.
    Failed(String),
}

/// What the reader loop does next.
#[derive(Debug)]
pub enum ReaderStep {
    /// Hand the frame to the telemetry sink.
    Forward(TelemetryFrame),
    /// Read again.
    Retry,
    /// Report the failure, then read again.
    Report(String),
}

/// The reader loop's decision for one read: a line is forwarded, a timeout
/// or an empty read is retried, any other failure is reported and the loop
/// goes on.
pub fn reader_step(outcome: ReadOutcome) -> (r: ReaderStep)
    ensures
        match outcome {
            ReadOutcome::Line(l) => if l@.len() == 0 {
                r is Retry
            } else {
                r matches ReaderStep::Forward(f) && f.line@ == without_line_end(l@) && is_split_of(
                    texts(f.fields@),
                    f.line@,
                )
            },
            ReadOutcome::TimedOut => r is Retry,
            ReadOutcome::Failed(m) => r matches ReaderStep::Report(x) && x@ == m@,
        },
{
    match outcome {
        ReadOutcome::Line(l) => {
            if l.as_str().is_empty() {
                ReaderStep::Retry
            } else {
                ReaderStep::Forward(decode_telemetry(l.as_str()))
            }
        },
        ReadOutcome::TimedOut => ReaderStep::Retry,
        ReadOutcome::Failed(m) => ReaderStep::Report(m),
    }
}

} // verus!
