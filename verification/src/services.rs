//! The services this tool runs on the host: how `openFPGALoader` is invoked,
//! and the status report of the XVC server and the Vivado container.
use vstd::prelude::*;
use vstd::string::*;
use crate::docker::texts;

verus! {

/// The arguments of `openFPGALoader` that program `bitstream` into `board`.
pub open spec fn program_arg_list(board: Seq<char>, bitstream: Seq<char>) -> Seq<Seq<char>> {
    seq!["-b"@, board, bitstream]
}

/// The arguments of `openFPGALoader` that serve `board` over the Xilinx
/// Virtual Cable protocol.
pub open spec fn xvc_arg_list(board: Seq<char>) -> Seq<Seq<char>> {
    seq!["-b"@, board, "--xvc"@]
}

/// Arguments to program `bitstream` into `board`.
pub fn program_args(board: &str, bitstream: &str) -> (args: Vec<String>)
    ensures
        texts(args@) == program_arg_list(board@, bitstream@),
{
    let mut args: Vec<String> = Vec::new();
    args.push("-b".to_string());
    args.push(board.to_string());
    args.push(bitstream.to_string());
    assert(texts(args@) =~= program_arg_list(board@, bitstream@));
    args
}

/// Arguments to start the XVC server for `board`.
pub fn xvc_args(board: &str) -> (args: Vec<String>)
    ensures
        texts(args@) == xvc_arg_list(board@),
{
    let mut args: Vec<String> = Vec::new();
    args.push("-b".to_string());
    args.push(board.to_string());
    args.push("--xvc".to_string());
    assert(texts(args@) =~= xvc_arg_list(board@));
    args
}

/// The state of a service, coloured: green `running` or red `stopped`.
pub open spec fn state_word(running: bool) -> Seq<char> {
    if running {
        "\x1b[0;32mrunning\x1b[0m"@
    } else {
        "\x1b[0;31mstopped\x1b[0m"@
    }
}

/// The lines of the status report.
pub open spec fn status_lines(xvc_running: bool, vivado_running: bool) -> Seq<Seq<char>> {
    seq![
        "Service Status:"@,
        "  XVC Server:       "@ + state_word(xvc_running),
        "  Vivado Container: "@ + state_word(vivado_running),
    ]
}

fn state_text(running: bool) -> (s: &'static str)
    ensures
        s@ == state_word(running),
{
    if running {
        "\x1b[0;32mrunning\x1b[0m"
    } else {
        "\x1b[0;31mstopped\x1b[0m"
    }
}

/// The status report, one line each, given whether the XVC server and the
/// Vivado container run.
pub fn status_report(xvc_running: bool, vivado_running: bool) -> (lines: Vec<String>)
    ensures
        texts(lines@) == status_lines(xvc_running, vivado_running),
{
    let mut xvc = "  XVC Server:       ".to_string();
    xvc.append(state_text(xvc_running));
    let mut vivado = "  Vivado Container: ".to_string();
    vivado.append(state_text(vivado_running));
    let mut lines: Vec<String> = Vec::new();
    lines.push("Service Status:".to_string());
    lines.push(xvc);
    lines.push(vivado);
    assert(texts(lines@) =~= status_lines(xvc_running, vivado_running));
    lines
}

} // verus!
