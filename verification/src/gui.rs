//! The desktop interface's state logic: the tabs, the uptime text, the
//! bounded log, and the decisions of the engine and AI tabs' buttons.

use vstd::prelude::*;
use crate::ai::history::str_eq;
use crate::text::{append_u64, dec_digits};

verus! {

/// The tabs of the interface, in order.
pub open spec fn tab_names() -> Seq<Seq<char>> {
    seq!["main"@, "ai"@, "engine"@, "chains"@, "settings"@, "logs"@]
}

/// The tabs of the interface, in order.
pub fn tabs() -> (r: Vec<&'static str>)
    ensures
        r@.map_values(|s: &'static str| s@) == tab_names(),
{
    let r = vec!["main", "ai", "engine", "chains", "settings", "logs"];
    assert(r@.map_values(|s: &'static str| s@) =~= tab_names());
    r
}

/// A number as `{:02}` writes it: at least two digits, zero-padded, with a
/// minus sign in front of a negative one.
pub open spec fn pad2(n: int) -> Seq<char> {
    if 0 <= n < 10 {
        "0"@ + dec_digits(n as nat)
    } else if n >= 10 {
        dec_digits(n as nat)
    } else {
        "-"@ + dec_digits((-n) as nat)
    }
}

/// The uptime as `hh:mm:ss` for an elapsed number of seconds (the parts
/// truncated toward zero, as integer division does).
pub open spec fn uptime_of(secs: int) -> Seq<char> {
    let a: int = if secs < 0 { -secs } else { secs };
    let sg: int = if secs < 0 { -1 } else { 1 };
    pad2(sg * (a / 3600)) + ":"@ + pad2(sg * ((a % 3600) / 60)) + ":"@ + pad2(sg * (a % 60))
}

fn append_pad2(s: &mut String, negative: bool, v: u64)
    ensures
        final(s)@ == old(s)@ + pad2(if negative { -(v as int) } else { v as int }),
{
    if negative && v > 0 {
        s.append("-");
        append_u64(s, v);
    } else {
        if v < 10 {
            s.append("0");
        }
        append_u64(s, v);
    }
}

/// The uptime text for `secs` elapsed seconds.
pub fn uptime_text(secs: i64) -> (r: String)
    ensures
        r@ == uptime_of(secs as int),
{
    let negative = secs < 0;
    let a: u64 = if negative {
        (0i128 - secs as i128) as u64
    } else {
        secs as u64
    };
    let ghost ai: int = if secs < 0 { -(secs as int) } else { secs as int };
    assert(a as int == ai);
    let ghost sg: int = if secs < 0 { -1 } else { 1 };
    assert((if negative { -((a / 3600) as int) } else { (a / 3600) as int }) == sg * (ai / 3600));
    assert((if negative { -(((a % 3600) / 60) as int) } else { ((a % 3600) / 60) as int }) == sg * ((ai % 3600) / 60));
    assert((if negative { -((a % 60) as int) } else { (a % 60) as int }) == sg * (ai % 60));
    let mut s = String::new();
    append_pad2(&mut s, negative, a / 3600);
    s.append(":");
    append_pad2(&mut s, negative, (a % 3600) / 60);
    s.append(":");
    append_pad2(&mut s, negative, a % 60);
    assert(s@ =~= uptime_of(secs as int));
    s
}

/// One log line of the interface.
#[derive(Debug)]
pub struct LogEntry {
    /// Time of the entry (ms since the Unix epoch).
    pub timestamp: i64,
    pub level: String,
    pub message: String,
}

/// The most log lines kept.
pub const MAX_LOGS: usize = 1000;

/// Adds a log line; beyond 1000 lines the oldest goes.
pub fn push_log(logs: &mut Vec<LogEntry>, entry: LogEntry)
    ensures
        old(logs)@.len() + 1 > MAX_LOGS ==> final(logs)@ == old(logs)@.push(entry).drop_first(),
        old(logs)@.len() + 1 <= MAX_LOGS ==> final(logs)@ == old(logs)@.push(entry),
{
    let ghost pushed = logs@.push(entry);
    logs.push(entry);
    if logs.len() > MAX_LOGS {
        let _oldest = logs.remove(0);
        assert(logs@ =~= pushed.drop_first());
    }
}

/// The engines of the engine tab, in order.
pub open spec fn engine_names() -> Seq<Seq<char>> {
    seq!["Zapret"@, "ByeDPI"@, "Warp"@, "Hybrid"@, "Chained"@]
}

/// The engines of the engine tab, in order.
pub fn engines() -> (r: Vec<&'static str>)
    ensures
        r@.map_values(|s: &'static str| s@) == engine_names(),
{
    let r = vec!["Zapret", "ByeDPI", "Warp", "Hybrid", "Chained"];
    assert(r@.map_values(|s: &'static str| s@) =~= engine_names());
    r
}

/// The engine panel: the engine status text and the active engine.
pub struct EnginePanel {
    pub engine_status: String,
    pub active_engine: String,
}

/// A button of an engine's row.
#[derive(Debug, Clone, Copy, PartialEq, Eq, Structural)]
pub enum EngineAction {
    Start,
    Stop,
    Probe,
}

/// The log message (level `info`) of a button of `engine`'s row.
pub open spec fn action_message(action: EngineAction, engine: Seq<char>) -> Seq<char> {
    match action {
        EngineAction::Start => "Engine started: "@ + engine,
        EngineAction::Stop => "Engine stopped: "@ + engine,
        EngineAction::Probe => "Probing: "@ + engine,
    }
}

impl EnginePanel {
    /// The panel at start: stopped, no engine active.
    pub fn new() -> (r: Self)
        ensures
            r.engine_status@ == "Stopped"@,
            r.active_engine@ == "none"@,
    {
        EnginePanel { engine_status: String::from_str("Stopped"), active_engine: String::from_str("none") }
    }

    /// Whether `engine`'s row shows it running: it is the active engine.
    pub fn is_running(&self, engine: &str) -> (r: bool)
        ensures
            r == (self.active_engine@ == engine@),
    {
        str_eq(self.active_engine.as_str(), engine)
    }

    /// A click on a button of `engine`'s row: Start makes the engine active
    /// and the status `Running`, Stop makes it `Stopped` with no engine
    /// active, Probe changes nothing. Returns the message to log.
    pub fn apply(&mut self, action: EngineAction, engine: &str) -> (msg: String)
        ensures
            msg@ == action_message(action, engine@),
            action == EngineAction::Start ==> final(self).engine_status@ == "Running"@
                && final(self).active_engine@ == engine@,
            action == EngineAction::Stop ==> final(self).engine_status@ == "Stopped"@
                && final(self).active_engine@ == "none"@,
            action == EngineAction::Probe ==> final(self).engine_status@ == old(self).engine_status@
                && final(self).active_engine@ == old(self).active_engine@,
    {
        let mut msg = String::new();
        match action {
            EngineAction::Start => {
                self.engine_status = String::from_str("Running");
                self.active_engine = String::from_str(engine);
                msg.append("Engine started: ");
            },
            EngineAction::Stop => {
                self.engine_status = String::from_str("Stopped");
                self.active_engine = String::from_str("none");
                msg.append("Engine stopped: ");
            },
            EngineAction::Probe => {
                msg.append("Probing: ");
            },
        }
        msg.append(engine);
        msg
    }
}

/// The Evolve button of the AI tab: the shown generation goes up by one;
/// returns the message to log, `Evolution triggered: gen <generation>`.
pub fn evolve_clicked(generation: &mut u32) -> (msg: String)
    requires
        *old(generation) < u32::MAX,
    ensures
        *final(generation) == *old(generation) + 1,
        msg@ == "Evolution triggered: gen "@ + dec_digits(*final(generation) as nat),
{
    *generation = *generation + 1;
    let mut msg = String::from_str("Evolution triggered: gen ");
    append_u64(&mut msg, *generation as u64);
    msg
}

} // verus!
