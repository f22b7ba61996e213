//! The operator's command line: `install | uninstall | start | stop | status
//! | logs [N]`, or no command to run the daemon.
use crate::update::text_eq;
use crate::version::{chars_of, parse_unsigned, parse_unsigned_in};
use vstd::prelude::*;

verus! {

/// Lines shown by `logs N` when `N` is not a number.
pub const DEFAULT_LOG_LINES: usize = 1000;

pub enum CliCommand {
    RunService,
    Install,
    Uninstall,
    Start,
    Stop,
    Status,
    /// Show the newest `lines` log lines; `invalid_count` tells that the
    /// given count was not a number and the default was taken.
    ShowLogs { lines: usize, invalid_count: bool },
    /// Follow the log live.
    FollowLogs,
    Unknown { command: String },
}

/// Reads the command line `args`, program name first.
pub fn parse_command(args: &Vec<String>) -> (r: CliCommand)
    ensures
        args@.len() <= 1 ==> r is RunService,
        args@.len() > 1 ==> {
            let c = args@[1]@;
            &&& c == "install"@ ==> r is Install
            &&& c == "uninstall"@ ==> r is Uninstall
            &&& c == "start"@ ==> r is Start
            &&& c == "stop"@ ==> r is Stop
            &&& c == "status"@ ==> r is Status
            &&& c == "logs"@ && args@.len() == 2 ==> r is FollowLogs
            &&& c == "logs"@ && args@.len() > 2 ==> match parse_unsigned(
                args@[2]@,
                usize::MAX as nat,
            ) {
                Some(n) => r == CliCommand::ShowLogs { lines: n as usize, invalid_count: false },
                None => r == CliCommand::ShowLogs {
                    lines: DEFAULT_LOG_LINES,
                    invalid_count: true,
                },
            }
            &&& c != "install"@ && c != "uninstall"@ && c != "start"@ && c != "stop"@ && c
                != "status"@ && c != "logs"@ ==> r == CliCommand::Unknown { command: args@[1] }
        },
{
    if args.len() <= 1 {
        return CliCommand::RunService;
    }
    let c = args[1].as_str();
    proof {
        reveal_strlit("install");
        reveal_strlit("uninstall");
        reveal_strlit("start");
        reveal_strlit("stop");
        reveal_strlit("status");
        reveal_strlit("logs");
        assert("install"@.len() == 7 && "uninstall"@.len() == 9 && "start"@.len() == 5
            && "stop"@.len() == 4 && "status"@.len() == 6 && "logs"@.len() == 4);
        assert("stop"@[0] != "logs"@[0]);
    }
    if text_eq(c, "install") {
        CliCommand::Install
    } else if text_eq(c, "uninstall") {
        CliCommand::Uninstall
    } else if text_eq(c, "start") {
        CliCommand::Start
    } else if text_eq(c, "stop") {
        CliCommand::Stop
    } else if text_eq(c, "status") {
        CliCommand::Status
    } else if text_eq(c, "logs") {
        if args.len() > 2 {
            let cs = chars_of(args[2].as_str());
            proof {
                assert(cs@.subrange(0, cs@.len() as int) =~= cs@);
            }
            match parse_unsigned_in(&cs, 0, cs.len(), usize::MAX as u64) {
                Some(n) => CliCommand::ShowLogs { lines: n as usize, invalid_count: false },
                None => CliCommand::ShowLogs { lines: DEFAULT_LOG_LINES, invalid_count: true },
            }
        } else {
            CliCommand::FollowLogs
        }
    } else {
        CliCommand::Unknown { command: args[1].clone() }
    }
}

} // verus!
