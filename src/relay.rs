use vstd::prelude::*;

verus! {

/// Prefix of a relayed backend line that came from its standard output.
pub const STDOUT_PREFIX: &'static str = "Backend: ";

/// Prefix of a relayed backend line that came from its standard error.
pub const STDERR_PREFIX: &'static str = "Backend Error: ";

/// Which console stream a line belongs to: standard output carries
/// informational lines, standard error carries error lines.
#[derive(Clone, Copy, Debug, PartialEq, Eq, Structural)]
pub enum StreamSource {
    Stdout,
    Stderr,
}

/// A line for the supervisor's own console, tagged with its stream.
#[derive(Debug)]
pub struct LogLine {
    pub source: StreamSource,
    pub text: String,
}

/// What the backend's combined output channel delivers.
#[derive(Debug)]
pub enum OutputEvent {
    Stdout(Vec<u8>),
    Stderr(Vec<u8>),
    /// Any other notification (termination, for one): observed, not relayed.
    Other,
}

/// The text that lossy UTF-8 decoding gives for `bytes`.
pub uninterp spec fn utf8_lossy(bytes: Seq<u8>) -> Seq<char>;

/// Relies on `String::from_utf8_lossy`: the result depends on the bytes alone,
/// and no bytes decode to no characters.
#[verifier::external_body]
fn decode_lossy(bytes: &Vec<u8>) -> (r: String)
    ensures
        r@ == utf8_lossy(bytes@),
        bytes@.len() == 0 ==> r@.len() == 0,
{
    String::from_utf8_lossy(bytes.as_slice()).into_owned()
}

pub open spec fn prefix_of(source: StreamSource) -> Seq<char> {
    match source {
        StreamSource::Stdout => STDOUT_PREFIX@,
        StreamSource::Stderr => STDERR_PREFIX@,
    }
}

/// A backend line as it appears on the supervisor's console.
pub open spec fn relayed_text(source: StreamSource, text: Seq<char>) -> Seq<char> {
    prefix_of(source) + text
}

/// What relaying an output event gives, for already decoded text.
pub open spec fn relay_spec(event: OutputEvent) -> Option<(StreamSource, Seq<char>)> {
    match event {
        OutputEvent::Stdout(b) => Some((StreamSource::Stdout, relayed_text(StreamSource::Stdout, utf8_lossy(b@)))),
        OutputEvent::Stderr(b) => Some((StreamSource::Stderr, relayed_text(StreamSource::Stderr, utf8_lossy(b@)))),
        OutputEvent::Other => None,
    }
}

/// The line shown for decoded backend text from `source`.
pub fn relay_line(source: StreamSource, text: &str) -> (r: LogLine)
    ensures
        r.source == source,
        r.text@ == relayed_text(source, text@),
{
    let mut out = match source {
        StreamSource::Stdout => String::from_str(STDOUT_PREFIX),
        StreamSource::Stderr => String::from_str(STDERR_PREFIX),
    };
    out.append(text);
    LogLine { source, text: out }
}

/// The console line for one output event, if it carries one.
pub fn relay_event(event: &OutputEvent) -> (r: Option<LogLine>)
    ensures
        match (r, relay_spec(*event)) {
            (Some(l), Some((src, text))) => l.source == src && l.text@ == text,
            (None, None) => true,
            _ => false,
        },
{
    match event {
        OutputEvent::Stdout(bytes) => {
            let text = decode_lossy(bytes);
            Some(relay_line(StreamSource::Stdout, text.as_str()))
        },
        OutputEvent::Stderr(bytes) => {
            let text = decode_lossy(bytes);
            Some(relay_line(StreamSource::Stderr, text.as_str()))
        },
        OutputEvent::Other => None,
    }
}

} // verus!
