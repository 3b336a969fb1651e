//! The session: a small state machine that decides how inbound editor events
//! drive the pipeline, plus the construction of the checker's argument list
//! and of the diagnostic reported when the target file is missing.
//!
//! The session holds the process-wide configuration (extra checker flags) and
//! moves through `Uninitialized`, `Running` and the terminal `ShuttingDown`.
//! The caller performs the outside work an action asks for (spawn the
//! checker, publish diagnostics, answer a request) and feeds back the next
//! event.

use vstd::prelude::*;
use vstd::string::StringExecFns;
use crate::bytes::subvec;
use crate::diagnostic::{spec_zero_range, Diagnostic, Range};
use crate::message::Severity;

verus! {

/// Process-wide configuration: extra flags appended to every checker
/// invocation.
pub struct Config {
    pub ott_flags: Vec<String>,
}

impl Config {
    /// The default configuration: no extra flags.
    pub fn new() -> (c: Config)
        ensures
            c.ott_flags.deep_view() == Seq::<Seq<char>>::empty(),
    {
        let c = Config { ott_flags: Vec::new() };
        proof {
            assert(c.ott_flags.deep_view() =~= Seq::<Seq<char>>::empty());
        }
        c
    }
}

/// Lifecycle of a session.
#[derive(Clone, Copy, Debug, PartialEq, Eq, Structural)]
pub enum SessionState {
    Uninitialized,
    Running,
    ShuttingDown,
}

/// One inbound unit of work, as the transport hands it over.
pub enum Event {
    /// The capability handshake completed.
    Initialized,
    /// A request for the document's symbols.
    SymbolRequest,
    /// Any other request.
    OtherRequest,
    /// A configuration-change notification carrying the new configuration.
    ConfigChange(Config),
    /// A file-open or file-save notification; `exists` says whether the
    /// target path is a regular file at this moment.
    FileChanged { exists: bool },
    /// A shutdown request.
    ShutdownRequest,
    /// Any other notification.
    OtherNotification,
}

/// What the caller must do next.
#[derive(Clone, Copy, Debug, PartialEq, Eq, Structural)]
pub enum Action {
    /// Nothing.
    NoAction,
    /// Answer the symbol request with an empty result.
    AnswerEmptySymbols,
    /// Run the checker on the file and publish the translated report.
    RunChecker,
    /// Publish the single missing-file diagnostic; the checker is not run.
    ReportMissingFile,
    /// Confirm shutdown and leave the loop.
    Exit,
}

/// The state after an event.
pub open spec fn spec_step_state(st: SessionState, ev: Event) -> SessionState {
    match ev {
        Event::Initialized => if st == SessionState::Uninitialized {
            SessionState::Running
        } else {
            st
        },
        Event::ShutdownRequest => SessionState::ShuttingDown,
        _ => st,
    }
}

/// The action an event demands. Work-carrying events are acted on only while
/// the session is running.
pub open spec fn spec_step_action(st: SessionState, ev: Event) -> Action {
    match ev {
        Event::SymbolRequest => if st == SessionState::Running {
            Action::AnswerEmptySymbols
        } else {
            Action::NoAction
        },
        Event::FileChanged { exists } => if st == SessionState::Running {
            if exists {
                Action::RunChecker
            } else {
                Action::ReportMissingFile
            }
        } else {
            Action::NoAction
        },
        Event::ShutdownRequest => Action::Exit,
        _ => Action::NoAction,
    }
}

/// A session: lifecycle state plus the held configuration.
pub struct Session {
    pub state: SessionState,
    pub config: Config,
}

impl Session {
    /// A fresh session, not yet initialized, with the default configuration.
    pub fn new() -> (s: Session)
        ensures
            s.state == SessionState::Uninitialized,
            s.config.ott_flags.deep_view() == Seq::<Seq<char>>::empty(),
    {
        Session { state: SessionState::Uninitialized, config: Config::new() }
    }

    /// Handle one inbound event: move to the next state, replace the
    /// configuration on a configuration change, and say what to do.
    pub fn step(&mut self, ev: Event) -> (a: Action)
        ensures
            final(self).state == spec_step_state(old(self).state, ev),
            a == spec_step_action(old(self).state, ev),
            (match ev {
                Event::ConfigChange(c) => final(self).config.ott_flags.deep_view()
                    == c.ott_flags.deep_view(),
                _ => final(self).config.ott_flags.deep_view()
                    == old(self).config.ott_flags.deep_view(),
            }),
    {
        match ev {
            Event::Initialized => {
                if matches!(self.state, SessionState::Uninitialized) {
                    self.state = SessionState::Running;
                }
                Action::NoAction
            },
            Event::SymbolRequest => {
                if matches!(self.state, SessionState::Running) {
                    Action::AnswerEmptySymbols
                } else {
                    Action::NoAction
                }
            },
            Event::OtherRequest => Action::NoAction,
            Event::ConfigChange(c) => {
                self.config = c;
                Action::NoAction
            },
            Event::FileChanged { exists } => {
                if matches!(self.state, SessionState::Running) {
                    if exists {
                        Action::RunChecker
                    } else {
                        Action::ReportMissingFile
                    }
                } else {
                    Action::NoAction
                }
            },
            Event::ShutdownRequest => {
                self.state = SessionState::ShuttingDown;
                Action::Exit
            },
            Event::OtherNotification => Action::NoAction,
        }
    }
}

/// The checker's fixed leading arguments followed by the configured extra
/// flags and the target path as the final positional argument.
pub open spec fn spec_checker_args(flags: Seq<Seq<char>>, path: Seq<char>) -> Seq<Seq<char>> {
    seq!["-signal_parse_errors"@, "true"@, "-colour"@, "false"@] + flags + seq![path]
}

/// Build the checker's argument list for one invocation.
pub fn checker_args(config: Config, path: String) -> (r: Vec<String>)
    ensures
        r.deep_view() == spec_checker_args(config.ott_flags.deep_view(), path@),
{
    let mut r: Vec<String> = Vec::new();
    r.push(String::from_str("-signal_parse_errors"));
    r.push(String::from_str("true"));
    r.push(String::from_str("-colour"));
    r.push(String::from_str("false"));
    let ghost base = seq!["-signal_parse_errors"@, "true"@, "-colour"@, "false"@];
    proof {
        assert(r.deep_view() =~~= base);
    }
    let mut flags = config.ott_flags;
    let ghost all = flags.deep_view();
    proof {
        assert(r.deep_view() + flags.deep_view() =~= base + all);
    }
    while flags.len() > 0
        invariant
            r.deep_view() + flags.deep_view() == base + all,
        decreases flags@.len(),
    {
        let ghost old_r = r.deep_view();
        let ghost old_f = flags.deep_view();
        let s = flags.remove(0);
        r.push(s);
        proof {
            assert(r.deep_view() =~~= old_r.push(s@));
            assert(flags.deep_view() =~~= old_f.subrange(1, old_f.len() as int));
            assert(old_f =~= seq![s@] + flags.deep_view());
            assert(r.deep_view() + flags.deep_view() =~= old_r + old_f);
        }
    }
    r.push(path);
    proof {
        assert(flags.deep_view() =~= Seq::<Seq<char>>::empty());
        assert(r.deep_view() =~~= (base + all).push(path@));
        assert((base + all).push(path@) =~= spec_checker_args(all, path@));
    }
    r
}

/// The message of the missing-file diagnostic: `file path `, the path's
/// bytes, ` is not a file`.
pub open spec fn missing_file_message(path: Seq<u8>) -> Seq<u8> {
    seq![102u8, 105u8, 108u8, 101u8, 32u8, 112u8, 97u8, 116u8, 104u8, 32u8] + path + seq![
        32u8,
        105u8,
        115u8,
        32u8,
        110u8,
        111u8,
        116u8,
        32u8,
        97u8,
        32u8,
        102u8,
        105u8,
        108u8,
        101u8,
    ]
}

/// The diagnostic published instead of a checker run when the target path is
/// not a regular file: informational, default range, message naming the path.
pub fn missing_file_diagnostic(path: &Vec<u8>) -> (d: Diagnostic)
    ensures
        d@.range == spec_zero_range(),
        d@.severity == Some(Severity::Information),
        d@.message == missing_file_message(path@),
{
    let mut m: Vec<u8> = Vec::new();
    m.push(102);
    m.push(105);
    m.push(108);
    m.push(101);
    m.push(32);
    m.push(112);
    m.push(97);
    m.push(116);
    m.push(104);
    m.push(32);
    let ghost head = m@;
    let mut body = subvec(path, 0, path.len());
    m.append(&mut body);
    m.push(32);
    m.push(105);
    m.push(115);
    m.push(32);
    m.push(110);
    m.push(111);
    m.push(116);
    m.push(32);
    m.push(97);
    m.push(32);
    m.push(102);
    m.push(105);
    m.push(108);
    m.push(101);
    proof {
        assert(head =~= seq![102u8, 105u8, 108u8, 101u8, 32u8, 112u8, 97u8, 116u8, 104u8, 32u8]);
        assert(path@.subrange(0, path@.len() as int) =~= path@);
        assert(m@ =~= missing_file_message(path@));
    }
    Diagnostic { range: Range::zero(), severity: Some(Severity::Information), message: m }
}

} // verus!
