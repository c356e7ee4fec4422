use vstd::prelude::*;
use vstd::string::*;

verus! {

/// The categories a driver message belongs to.
#[derive(Clone, Copy, Debug, PartialEq, Eq, Structural)]
pub struct MessageTypes {
    pub general: bool,
    pub validation: bool,
    pub performance: bool,
    pub device_address_binding: bool,
}

/// The severity bits a driver message carries.
#[derive(Clone, Copy, Debug, PartialEq, Eq, Structural)]
pub struct MessageSeverity {
    pub error: bool,
    pub warning: bool,
    pub info: bool,
    pub verbose: bool,
}

/// The level a driver message is logged at.
#[derive(Clone, Copy, Debug, PartialEq, Eq, Structural)]
pub enum LogLevel {
    Error,
    Warn,
    Info,
    Debug,
    Trace,
}

/// The most severe bit that is set decides the level.
pub open spec fn spec_log_level(s: MessageSeverity) -> LogLevel {
    if s.error {
        LogLevel::Error
    } else if s.warning {
        LogLevel::Warn
    } else if s.info {
        LogLevel::Info
    } else if s.verbose {
        LogLevel::Debug
    } else {
        LogLevel::Trace
    }
}

/// The debug representation of a piece of text: quoted, with escapes.
pub uninterp spec fn debug_text(s: Seq<char>) -> Seq<char>;

/// Relies on the `Debug` formatting of `str`, which depends on the text alone.
#[verifier::external_body]
fn quoted(s: &str) -> (r: String)
    ensures
        r@ == debug_text(s@),
{
    format!("{:?}", s)
}

pub open spec fn tag(present: bool, c: char) -> char {
    if present {
        c
    } else {
        '_'
    }
}

pub open spec fn separator() -> Seq<char> {
    seq![' ', '|', ' ']
}

/// The category tags (`G`, `V`, `P`, `_` where absent) and the quoted message
/// identifier; without the address-binding category, also its `_` tag and
/// the quoted message body.
pub open spec fn spec_compose(t: MessageTypes, quoted_id: Seq<char>, quoted_body: Seq<char>) -> Seq<
    char,
> {
    let head = seq![tag(t.general, 'G'), tag(t.validation, 'V'), tag(t.performance, 'P')];
    if t.device_address_binding {
        head + separator() + quoted_id
    } else {
        head + seq!['_'] + separator() + quoted_id + separator() + quoted_body
    }
}

/// The line a driver message is logged with, from its raw identifier and body.
pub open spec fn spec_message_line(t: MessageTypes, id: Seq<char>, message: Seq<char>) -> Seq<
    char,
> {
    spec_compose(t, debug_text(id), debug_text(message))
}

/// Routes a message by severity: error, warning, info, verbose map to
/// error, warn, info and debug; anything else is traced.
pub fn log_level(s: MessageSeverity) -> (r: LogLevel)
    ensures
        r == spec_log_level(s),
{
    if s.error {
        LogLevel::Error
    } else if s.warning {
        LogLevel::Warn
    } else if s.info {
        LogLevel::Info
    } else if s.verbose {
        LogLevel::Debug
    } else {
        LogLevel::Trace
    }
}

fn append_tag(line: &mut String, present: bool, c: char)
    requires
        c == 'G' || c == 'V' || c == 'P',
    ensures
        final(line)@ == old(line)@.push(tag(present, c)),
{
    proof {
        reveal_strlit("G");
        reveal_strlit("V");
        reveal_strlit("P");
        reveal_strlit("_");
    }
    if !present {
        line.append("_");
    } else if c == 'G' {
        line.append("G");
    } else if c == 'V' {
        line.append("V");
    } else {
        line.append("P");
    }
    assert(final(line)@ =~= old(line)@.push(tag(present, c)));
}

/// Assembles the logged line from the category tags and the already quoted
/// identifier and body.
pub fn compose_message(types: MessageTypes, quoted_id: &str, quoted_body: &str) -> (r: String)
    ensures
        r@ == spec_compose(types, quoted_id@, quoted_body@),
{
    proof {
        reveal_strlit(" | ");
        reveal_strlit("_");
    }
    let mut line = String::new();
    append_tag(&mut line, types.general, 'G');
    append_tag(&mut line, types.validation, 'V');
    append_tag(&mut line, types.performance, 'P');
    if !types.device_address_binding {
        line.append("_");
    }
    line.append(" | ");
    line.append(quoted_id);
    if !types.device_address_binding {
        line.append(" | ");
        line.append(quoted_body);
    }
    assert(line@ =~= spec_compose(types, quoted_id@, quoted_body@));
    line
}

/// The text that a driver message is logged with.
pub fn format_message(types: MessageTypes, id_name: &str, message: &str) -> (r: String)
    ensures
        r@ == spec_message_line(types, id_name@, message@),
{
    let id = quoted(id_name);
    let body = quoted(message);
    compose_message(types, id.as_str(), body.as_str())
}

} // verus!
