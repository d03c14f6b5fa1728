use vstd::prelude::*;
use vstd::string::*;
use crate::text::{decode_lossy, lossy_of, trim_white_space, trimmed};

verus! {

/// An output stream of the worker, and the host's logging sink it goes to.
#[derive(Clone, Copy, Debug, PartialEq, Eq, Structural)]
pub enum Stream {
    Stdout,
    Stderr,
}

/// An event read from the worker's output.
pub enum OutputEvent {
    /// One line that the worker wrote on a stream, as raw bytes.
    Line(Stream, Vec<u8>),
    /// Any other event (the worker terminated, an error of the host): not relayed.
    Other,
}

/// A line ready for the host's logging sink of `stream`.
pub struct RelayLine {
    pub stream: Stream,
    pub text: String,
}

/// The prefix that marks the origin of a relayed line.
pub open spec fn tag(s: Stream) -> Seq<char> {
    match s {
        Stream::Stdout => "[Sidecar STDOUT] "@,
        Stream::Stderr => "[Sidecar STDERR] "@,
    }
}

/// The text relayed for the bytes `b` written on `s`: the origin's prefix, then
/// the decoded line without its surrounding whitespace.
pub open spec fn line_text(s: Stream, b: Seq<u8>) -> Seq<char> {
    tag(s) + trimmed(lossy_of(b))
}

/// What the relay does with one event: the sink and the text it writes there,
/// or nothing.
pub open spec fn forwarded(e: OutputEvent) -> Option<(Stream, Seq<char>)> {
    match e {
        OutputEvent::Line(s, b) => Some((s, line_text(s, b@))),
        OutputEvent::Other => None,
    }
}

/// The lines that the worker wrote on `s` in `evs`, in order.
pub open spec fn written_on(evs: Seq<OutputEvent>, s: Stream) -> Seq<Seq<u8>>
    decreases evs.len(),
{
    if evs.len() == 0 {
        Seq::empty()
    } else {
        let rest = written_on(evs.drop_last(), s);
        match evs.last() {
            OutputEvent::Line(t, b) => if t == s {
                rest.push(b@)
            } else {
                rest
            },
            OutputEvent::Other => rest,
        }
    }
}

/// The texts that relaying `evs` one by one writes to the sink of `s`, in order.
pub open spec fn relayed_on(evs: Seq<OutputEvent>, s: Stream) -> Seq<Seq<char>>
    decreases evs.len(),
{
    if evs.len() == 0 {
        Seq::empty()
    } else {
        let rest = relayed_on(evs.drop_last(), s);
        match forwarded(evs.last()) {
            Some((t, text)) => if t == s {
                rest.push(text)
            } else {
                rest
            },
            None => rest,
        }
    }
}

/// Every line that the worker writes on a stream reaches that stream's sink,
/// trimmed of surrounding whitespace and marked with its origin, in the order
/// written, and nothing else reaches that sink.
pub proof fn lemma_relay_keeps_lines_in_order(evs: Seq<OutputEvent>, s: Stream)
    ensures
        relayed_on(evs, s) == written_on(evs, s).map_values(|b: Seq<u8>| line_text(s, b)),
    decreases evs.len(),
{
    if evs.len() > 0 {
        lemma_relay_keeps_lines_in_order(evs.drop_last(), s);
        let f = |b: Seq<u8>| line_text(s, b);
        let rest = written_on(evs.drop_last(), s);
        match evs.last() {
            OutputEvent::Line(t, b) => {
                assert(rest.push(b@).map_values(f) =~= rest.map_values(f).push(f(b@)));
            },
            OutputEvent::Other => {},
        }
    }
}

/// The line to write for one event of the worker's output, if any: a line on
/// a stream is decoded, trimmed and prefixed with its origin; other events are
/// ignored.
pub fn relay_event(e: &OutputEvent) -> (r: Option<RelayLine>)
    ensures
        match forwarded(*e) {
            Some((s, text)) => r is Some && r->0.stream == s && r->0.text@ == text,
            None => r is None,
        },
{
    match e {
        OutputEvent::Line(stream, bytes) => {
            let decoded = decode_lossy(bytes);
            let body = trim_white_space(decoded.as_str());
            let mut text = match stream {
                Stream::Stdout => String::from_str("[Sidecar STDOUT] "),
                Stream::Stderr => String::from_str("[Sidecar STDERR] "),
            };
            text.append(body.as_str());
            Some(RelayLine { stream: *stream, text })
        },
        OutputEvent::Other => None,
    }
}

} // verus!
