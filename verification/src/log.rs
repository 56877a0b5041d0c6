//! The setup log: where it lives and what one line of it holds.
use vstd::prelude::*;
use vstd::string::*;
use vstd::utf8::encode_utf8;
use crate::text::{join_path, lemma_ascii_bytes, path_join, string_from_chars};

verus! {

/// The character of the decimal digit `d`.
pub open spec fn digit(d: int) -> char {
    (('0' as u32) + d) as char
}

/// `n` in two decimal digits, for `0 <= n < 100`.
pub open spec fn two_digits(n: int) -> Seq<char> {
    seq![digit(n / 10), digit(n % 10)]
}

/// The wall-clock time (UTC) `secs` seconds after the Unix epoch, as `HH:MM:SS`.
pub open spec fn clock_text(secs: u64) -> Seq<char> {
    let h = (secs / 3600) % 24;
    let m = (secs / 60) % 60;
    let s = secs % 60;
    two_digits(h as int) + seq![':'] + two_digits(m as int) + seq![':'] + two_digits(s as int)
}

/// One line of the setup log: the time in brackets, a space, the message and
/// a line break.
pub open spec fn log_line_text(clock: Seq<char>, msg: Seq<char>) -> Seq<char> {
    seq!['['] + clock + seq![']', ' '] + msg + seq!['\n']
}

fn digit_char(d: u64) -> (c: char)
    requires
        d < 10,
    ensures
        c == digit(d as int),
{
    let c = (48u8 + d as u8) as char;
    c
}

/// The wall-clock time (UTC) `secs` seconds after the Unix epoch, as `HH:MM:SS`.
pub fn humantime(secs: u64) -> (s: String)
    ensures
        s@ == clock_text(secs),
{
    let h = (secs / 3600) % 24;
    let m = (secs / 60) % 60;
    let sec = secs % 60;
    let mut v: Vec<char> = Vec::new();
    v.push(digit_char(h / 10));
    v.push(digit_char(h % 10));
    v.push(':');
    v.push(digit_char(m / 10));
    v.push(digit_char(m % 10));
    v.push(':');
    v.push(digit_char(sec / 10));
    v.push(digit_char(sec % 10));
    assert(v@ =~= clock_text(secs));
    string_from_chars(v)
}

/// The name of the setup log, as bytes.
pub open spec fn setup_log_name() -> Seq<u8> {
    encode_utf8("setup.log"@)
}

/// The path of the setup log inside the data directory `data_dir`.
pub fn setup_log_path(data_dir: &[u8]) -> (p: Vec<u8>)
    ensures
        p@ == path_join(data_dir@, setup_log_name()),
{
    join_path(data_dir, "setup.log".as_bytes())
}

/// The line that the setup log gets for `msg` at the time `clock`.
pub fn log_line(clock: &str, msg: &str) -> (line: String)
    ensures
        line@ == log_line_text(clock@, msg@),
{
    proof {
        reveal_strlit("[");
        reveal_strlit("] ");
        reveal_strlit("\n");
    }
    let mut line = "[".to_string();
    line.append(clock);
    line.append("] ");
    line.append(msg);
    line.append("\n");
    assert(line@ =~= log_line_text(clock@, msg@));
    line
}

/// The log's clock repeats every day: two instants a day apart show the same
/// time.
pub proof fn lemma_clock_repeats_daily(secs: u64)
    requires
        secs + 86400 <= u64::MAX,
    ensures
        clock_text(secs) == clock_text((secs + 86400) as u64),
{
    let t = (secs + 86400) as u64;
    assert(t / 3600 == secs / 3600 + 24);
    assert(t / 60 == secs / 60 + 1440);
    assert(t % 60 == secs % 60);
    assert((t / 3600) % 24 == (secs / 3600) % 24);
    assert((t / 60) % 60 == (secs / 60) % 60);
}

/// Every clock reading is `HH:MM:SS`: eight characters, colons at positions
/// 2 and 5, decimal digits elsewhere, hours below 24 and minutes and seconds
/// below 60.
pub proof fn lemma_clock_shape(secs: u64)
    ensures
        clock_text(secs).len() == 8,
        clock_text(secs)[2] == ':' && clock_text(secs)[5] == ':',
        forall|i: int|
            0 <= i < 8 && i != 2 && i != 5 ==> '0' <= #[trigger] clock_text(secs)[i] <= '9',
        clock_text(secs)[0] <= '2',
        clock_text(secs)[3] <= '5' && clock_text(secs)[6] <= '5',
{
    let h = (secs / 3600) % 24;
    let m = (secs / 60) % 60;
    let s = secs % 60;
    assert(h / 10 <= 2 && m / 10 <= 5 && s / 10 <= 5);
}

/// The setup log lies inside the data directory: its path is the data
/// directory's, then (where needed) a `/`, then `setup.log`.
pub proof fn lemma_log_path_in_data_dir(data_dir: Seq<u8>)
    ensures
        path_join(data_dir, setup_log_name()).subrange(0, data_dir.len() as int) == data_dir,
        path_join(data_dir, setup_log_name()).subrange(
            path_join(data_dir, setup_log_name()).len() - setup_log_name().len(),
            path_join(data_dir, setup_log_name()).len() as int,
        ) == setup_log_name(),
{
    reveal_strlit("setup.log");
    let name = "setup.log"@;
    assert(name.len() == 9);
    assert forall|i: int| 0 <= i < name.len() implies '\0' <= #[trigger] name[i] <= '\u{7f}' by {
        assert(name[i] == 's' || name[i] == 'e' || name[i] == 't' || name[i] == 'u' || name[i] == 'p'
            || name[i] == '.' || name[i] == 'l' || name[i] == 'o' || name[i] == 'g');
    }
    lemma_ascii_bytes(name);
    assert(setup_log_name()[0] == 0x73u8);
    let p = path_join(data_dir, setup_log_name());
    assert(p.subrange(0, data_dir.len() as int) =~= data_dir);
    assert(p.subrange(p.len() - setup_log_name().len(), p.len() as int) =~= setup_log_name());
}

} // verus!
