//! Status lines, the data directory, the loader's path and the table of known
//! installers.
use vstd::prelude::*;
use vstd::string::*;
use vstd::utf8::encode_utf8;
use crate::text::{bytes_of, join_path, path_join, trim, trim_text};

verus! {

/// The kinds of status line printed to the terminal.
#[derive(Clone, Copy, PartialEq, Eq, Structural, Debug)]
pub enum Level {
    Info,
    Success,
    Warn,
    Error,
    Step,
    Debug,
}

/// The coloured tag that opens a status line of `level`, with the space after it.
pub open spec fn level_tag(level: Level) -> Seq<char> {
    match level {
        Level::Info => "\x1b[0;34m[INFO]\x1b[0m "@,
        Level::Success => "\x1b[0;32m[OK]\x1b[0m "@,
        Level::Warn => "\x1b[1;33m[WARNING]\x1b[0m "@,
        Level::Error => "\x1b[0;31m[ERROR]\x1b[0m "@,
        Level::Step => "\x1b[0;36m[STEP]\x1b[0m "@,
        Level::Debug => "\x1b[0;90m[DEBUG]\x1b[0m "@,
    }
}

/// The status line for `msg` at `level`: the coloured tag, then the message.
pub fn status_line(level: Level, msg: &str) -> (line: String)
    ensures
        line@ == level_tag(level) + msg@,
{
    let tag = match level {
        Level::Info => "\x1b[0;34m[INFO]\x1b[0m ",
        Level::Success => "\x1b[0;32m[OK]\x1b[0m ",
        Level::Warn => "\x1b[1;33m[WARNING]\x1b[0m ",
        Level::Error => "\x1b[0;31m[ERROR]\x1b[0m ",
        Level::Step => "\x1b[0;36m[STEP]\x1b[0m ",
        Level::Debug => "\x1b[0;90m[DEBUG]\x1b[0m ",
    };
    let mut line = tag.to_string();
    line.append(msg);
    line
}

/// Where the data directory lies inside the user's home directory:
/// `.local/share/vivado-mac`, as bytes.
pub open spec fn data_dir_in_home() -> Seq<u8> {
    encode_utf8(".local/share/vivado-mac"@)
}

/// The data directory: `env_override` (the value of `VIVADO_MAC_DATA_DIR`)
/// when it is set, else `~/.local/share/vivado-mac` for the home directory
/// `home`; none when neither is known. Paths are byte strings.
pub open spec fn data_dir_choice(env_override: Option<Seq<char>>, home: Option<Seq<u8>>) -> Option<Seq<u8>> {
    match env_override {
        Some(d) => Some(encode_utf8(d)),
        None => match home {
            Some(h) => Some(path_join(h, data_dir_in_home())),
            None => None,
        },
    }
}

/// An optional string as an optional character sequence.
pub open spec fn opt_view(s: Option<String>) -> Option<Seq<char>> {
    match s {
        Some(t) => Some(t@),
        None => None,
    }
}

/// An optional byte vector as an optional byte sequence.
pub open spec fn opt_bytes(v: Option<Vec<u8>>) -> Option<Seq<u8>> {
    match v {
        Some(b) => Some(b@),
        None => None,
    }
}

/// The data directory, from the value of `VIVADO_MAC_DATA_DIR` and the
/// user's home directory.
pub fn resolve_data_dir(env_override: Option<String>, home: Option<Vec<u8>>) -> (r: Option<Vec<u8>>)
    ensures
        opt_bytes(r) == data_dir_choice(opt_view(env_override), opt_bytes(home)),
{
    match env_override {
        Some(d) => Some(bytes_of(d.as_str().as_bytes())),
        None => match home {
            Some(h) => Some(join_path(h.as_slice(), ".local/share/vivado-mac".as_bytes())),
            None => None,
        },
    }
}

/// The user's home directory, as the bytes of its path.
///
/// Calls `dirs::home_dir` (`$HOME`, or the password database when that is
/// empty) and takes the path's bytes with `into_encoded_bytes`, which on Unix
/// are the path's bytes as they are. Nothing is claimed of the result: it
/// depends on the environment.
#[verifier::external_body]
fn home_dir() -> Option<Vec<u8>> {
    match dirs::home_dir() {
        Some(p) => Some(p.into_os_string().into_encoded_bytes()),
        None => None,
    }
}

/// The data directory: `env_override` (the value of `VIVADO_MAC_DATA_DIR`)
/// when it is set, else `~/.local/share/vivado-mac`; none when the home
/// directory is unknown.
pub fn data_dir(env_override: Option<String>) -> (r: Option<Vec<u8>>)
    ensures
        env_override matches Some(d) ==> opt_bytes(r) == Some(encode_utf8(d@)),
        env_override is None ==> (r matches Some(p) ==> exists|home: Seq<u8>|
            p@ == #[trigger] path_join(home, data_dir_in_home())),
{
    let home = match env_override {
        Some(_) => None,
        None => home_dir(),
    };
    let r = resolve_data_dir(env_override, home);
    proof {
        if env_override is None && r is Some {
            let h = home.unwrap()@;
            assert(r.unwrap()@ == path_join(h, data_dir_in_home()));
        }
    }
    r
}

/// The path of `openFPGALoader`: `env_override` (the value of
/// `OPENFPGALOADER`) when it is set, else the trimmed output of a successful
/// `which openFPGALoader`; none when neither is there.
pub open spec fn loader_path_choice(env_override: Option<Seq<char>>, which_stdout: Option<Seq<char>>) -> Option<Seq<char>> {
    match env_override {
        Some(p) => Some(p),
        None => match which_stdout {
            Some(out) => Some(trim(out)),
            None => None,
        },
    }
}

/// The path of `openFPGALoader`, from the value of `OPENFPGALOADER` and the
/// output of `which openFPGALoader` when that command succeeded.
pub fn openfpgaloader_path(env_override: Option<String>, which_stdout: Option<String>) -> (r: Option<String>)
    ensures
        opt_view(r) == loader_path_choice(opt_view(env_override), opt_view(which_stdout)),
{
    match env_override {
        Some(p) => Some(p),
        None => match which_stdout {
            Some(out) => Some(trim_text(out.as_str())),
            None => None,
        },
    }
}

/// The installers that setup accepts: the MD5 digest of the installer file
/// and the Vivado version it installs.
pub open spec fn version_table() -> Seq<(Seq<char>, Seq<char>)> {
    seq![
        ("abe838aa2e2d3d9b10fea94165e9a303"@, "202502"@),
        ("20c806793b3ea8d79273d5138fbd195f"@, "202402"@),
        ("8b0e99a41b851b50592d5d6ef1b1263d"@, "202401"@),
        ("b8c785d03b754766538d6cde1277c4f0"@, "202302"@),
    ]
}

/// A pair of strings as character sequences.
pub open spec fn pair_view(p: (String, String)) -> (Seq<char>, Seq<char>) {
    (p.0@, p.1@)
}

/// The known installers: MD5 digest and version, one entry each.
pub fn known_versions() -> (v: Vec<(String, String)>)
    ensures
        v@.map_values(|p: (String, String)| pair_view(p)) == version_table(),
{
    let v = vec![
        ("abe838aa2e2d3d9b10fea94165e9a303".to_string(), "202502".to_string()),
        ("20c806793b3ea8d79273d5138fbd195f".to_string(), "202402".to_string()),
        ("8b0e99a41b851b50592d5d6ef1b1263d".to_string(), "202401".to_string()),
        ("b8c785d03b754766538d6cde1277c4f0".to_string(), "202302".to_string()),
    ];
    assert(v@.map_values(|p: (String, String)| pair_view(p)) =~= version_table());
    v
}

} // verus!
