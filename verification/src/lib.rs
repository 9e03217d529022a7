//! A structured-logging facade: severity-tagged messages are rendered through a
//! text template and routed to sinks that filter by severity and scope.
//!
//! The library decides and formats; it performs no input or output. What is to
//! be printed or written comes back to the caller as [`sink::Emission`]s.

pub mod msg;
pub mod registry;
pub mod sink;
pub mod text;
pub mod time;

use vstd::prelude::*;
use vstd::string::StringExecFns;

use crate::msg::{LogIntensity, LogMessage, MessageView};
use crate::registry::{published, Registry};
use crate::sink::{Emission, Sink};
use crate::time::Timestamp;

verus! {

/// When, on which thread and where in the source a message is emitted.
#[derive(Debug, Clone, Copy)]
pub struct CallSite<'a> {
    pub time: Timestamp,
    pub thread: &'a str,
    pub file: &'a str,
    pub line: u32,
    pub module: &'a str,
}

/// The message with the given severity and text that is emitted at `site`, in
/// the severity's own colour.
pub open spec fn message(site: CallSite, severity: LogIntensity, text: Seq<char>) -> MessageView {
    MessageView {
        time: site.time,
        thread: site.thread@,
        scope: site.module@,
        file: site.file@,
        line: site.line,
        text,
        intensity: severity,
        color: severity.default_color(),
    }
}

/// The text of a named value: the name, a colon, a blank and the value.
pub open spec fn entry(name: Seq<char>, value: Seq<char>) -> Seq<char> {
    name + seq![':', ' '] + value
}

/// How a truth value is written.
pub open spec fn truth(val: bool) -> Seq<char> {
    if val {
        seq!['t', 'r', 'u', 'e']
    } else {
        seq!['f', 'a', 'l', 's', 'e']
    }
}

/// Publishes a message with the given severity and text.
pub fn emit<S: Sink>(
    registry: &mut Registry<S>,
    site: &CallSite,
    severity: LogIntensity,
    text: &str,
) -> (outs: Vec<Emission>)
    ensures
        published(old(registry)@, message(*site, severity, text@), final(registry)@, outs@),
{
    let msg = LogMessage {
        time: site.time,
        thread: site.thread,
        scope: site.module,
        file: site.file,
        line: site.line,
        msg: text,
        intensity: severity,
        color: severity.color(),
    };
    registry.publish(&msg)
}

/// Publishes `text` at severity `Trace`.
pub fn trace<S: Sink>(registry: &mut Registry<S>, site: &CallSite, text: &str) -> (outs: Vec<
    Emission,
>)
    ensures
        published(
            old(registry)@,
            message(*site, LogIntensity::Trace, text@),
            final(registry)@,
            outs@,
        ),
{
    emit(registry, site, LogIntensity::Trace, text)
}

/// Publishes `text` at severity `Debug`.
pub fn debug<S: Sink>(registry: &mut Registry<S>, site: &CallSite, text: &str) -> (outs: Vec<
    Emission,
>)
    ensures
        published(
            old(registry)@,
            message(*site, LogIntensity::Debug, text@),
            final(registry)@,
            outs@,
        ),
{
    emit(registry, site, LogIntensity::Debug, text)
}

/// Publishes `text` at severity `Info`.
pub fn info<S: Sink>(registry: &mut Registry<S>, site: &CallSite, text: &str) -> (outs: Vec<
    Emission,
>)
    ensures
        published(
            old(registry)@,
            message(*site, LogIntensity::Info, text@),
            final(registry)@,
            outs@,
        ),
{
    emit(registry, site, LogIntensity::Info, text)
}

/// Publishes `text` at severity `Warn`.
pub fn warn<S: Sink>(registry: &mut Registry<S>, site: &CallSite, text: &str) -> (outs: Vec<
    Emission,
>)
    ensures
        published(
            old(registry)@,
            message(*site, LogIntensity::Warn, text@),
            final(registry)@,
            outs@,
        ),
{
    emit(registry, site, LogIntensity::Warn, text)
}

/// Publishes `text` at severity `Error`.
pub fn error<S: Sink>(registry: &mut Registry<S>, site: &CallSite, text: &str) -> (outs: Vec<
    Emission,
>)
    ensures
        published(
            old(registry)@,
            message(*site, LogIntensity::Error, text@),
            final(registry)@,
            outs@,
        ),
{
    emit(registry, site, LogIntensity::Error, text)
}

/// Publishes `text` at severity `Fatal`.
pub fn fatal<S: Sink>(registry: &mut Registry<S>, site: &CallSite, text: &str) -> (outs: Vec<
    Emission,
>)
    ensures
        published(
            old(registry)@,
            message(*site, LogIntensity::Fatal, text@),
            final(registry)@,
            outs@,
        ),
{
    emit(registry, site, LogIntensity::Fatal, text)
}

/// Publishes a named value: `value` is the value as it is shown for
/// debugging.
pub fn log<S: Sink>(
    registry: &mut Registry<S>,
    site: &CallSite,
    severity: LogIntensity,
    name: &str,
    value: &str,
) -> (outs: Vec<Emission>)
    ensures
        published(
            old(registry)@,
            message(*site, severity, entry(name@, value@)),
            final(registry)@,
            outs@,
        ),
{
    proof {
        reveal_strlit(": ");
    }
    let mut text = String::from_str(name);
    text.append(": ");
    text.append(value);
    assert(text@ =~= entry(name@, value@));
    emit(registry, site, severity, text.as_str())
}

/// Publishes the truth value `val` under `name`: at severity `Info` if it
/// holds, at `failing` if it does not.
fn check<S: Sink>(
    registry: &mut Registry<S>,
    site: &CallSite,
    failing: LogIntensity,
    name: &str,
    val: bool,
) -> (outs: Vec<Emission>)
    ensures
        published(
            old(registry)@,
            message(*site, if val { LogIntensity::Info } else { failing }, entry(name@, truth(val))),
            final(registry)@,
            outs@,
        ),
{
    proof {
        reveal_strlit("true");
        reveal_strlit("false");
    }
    if val {
        assert("true"@ =~= truth(true));
        log(registry, site, LogIntensity::Info, name, "true")
    } else {
        assert("false"@ =~= truth(false));
        log(registry, site, failing, name, "false")
    }
}

/// Publishes the truth value `val` under `name`: at severity `Info` if it
/// holds, at `Error` if it does not. Nothing else happens either way.
pub fn error_assert<S: Sink>(
    registry: &mut Registry<S>,
    site: &CallSite,
    name: &str,
    val: bool,
) -> (outs: Vec<Emission>)
    ensures
        published(
            old(registry)@,
            message(
                *site,
                if val { LogIntensity::Info } else { LogIntensity::Error },
                entry(name@, truth(val)),
            ),
            final(registry)@,
            outs@,
        ),
{
    check(registry, site, LogIntensity::Error, name, val)
}

/// Publishes the truth value `val` under `name`: at severity `Info` if it
/// holds, at `Fatal` if it does not. Nothing else happens either way.
pub fn fatal_assert<S: Sink>(
    registry: &mut Registry<S>,
    site: &CallSite,
    name: &str,
    val: bool,
) -> (outs: Vec<Emission>)
    ensures
        published(
            old(registry)@,
            message(
                *site,
                if val { LogIntensity::Info } else { LogIntensity::Fatal },
                entry(name@, truth(val)),
            ),
            final(registry)@,
            outs@,
        ),
{
    check(registry, site, LogIntensity::Fatal, name, val)
}

} // verus!
