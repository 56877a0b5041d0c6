//! Decisions of `setup`: which installer file to use, what is remembered of
//! it, and which Vivado version it installs.
use vstd::prelude::*;
use vstd::string::*;
use vstd::utf8::encode_utf8;
use crate::text::{is_ws, join_path, lemma_trim_unpadded, path_join, same_text, trim, trim_text};
use crate::util::{known_versions, pair_view, version_table};

verus! {

/// The version that `table` gives for `key`: that of its first entry with
/// that key.
pub open spec fn table_lookup(table: Seq<(Seq<char>, Seq<char>)>, key: Seq<char>) -> Option<Seq<char>>
    decreases table.len(),
{
    if table.len() == 0 {
        None
    } else if table[0].0 == key {
        Some(table[0].1)
    } else {
        table_lookup(table.drop_first(), key)
    }
}

/// The version that setup refuses: its installer is known, but only the
/// latest release of a year is supported.
pub open spec fn unsupported_version() -> Seq<char> {
    "202401"@
}

/// Why an installer is refused.
#[derive(Debug)]
pub enum InstallerVersionError {
    /// The digest is not that of a known installer.
    UnknownHash,
    /// The installer is known, but its version is not supported.
    Unsupported(String),
}

/// The Vivado version that the installer with MD5 digest `hash` installs,
/// or why it is refused.
pub fn installer_version(hash: &str) -> (r: Result<String, InstallerVersionError>)
    ensures
        match r {
            Ok(v) => table_lookup(version_table(), hash@) == Some(v@) && v@
                != unsupported_version(),
            Err(InstallerVersionError::UnknownHash) => table_lookup(version_table(), hash@) is None,
            Err(InstallerVersionError::Unsupported(v)) => table_lookup(version_table(), hash@)
                == Some(v@) && v@ == unsupported_version(),
        },
{
    let versions = known_versions();
    let ghost table = version_table();
    let n = versions.len();
    let mut k: usize = 0;
    assert(table.subrange(0, n as int) =~= table);
    while k < n
        invariant
            n == versions@.len(),
            k <= n,
            table == version_table(),
            versions@.map_values(|p: (String, String)| pair_view(p)) == table,
            table_lookup(table, hash@) == table_lookup(table.subrange(k as int, n as int), hash@),
        decreases n - k,
    {
        let entry = &versions[k];
        proof {
            let rest = table.subrange(k as int, n as int);
            assert(rest[0] == pair_view(versions@[k as int]));
            assert(rest.drop_first() =~= table.subrange(k + 1, n as int));
        }
        if same_text(entry.0.as_str(), hash) {
            let v = entry.1.clone();
            proof {
                let rest = table.subrange(k as int, n as int);
                assert(rest.len() > 0);
                assert(rest[0].0 == hash@);
                assert(table_lookup(rest, hash@) == Some(rest[0].1));
                assert(v@ == rest[0].1);
            }
            if same_text(v.as_str(), "202401") {
                return Err(InstallerVersionError::Unsupported(v));
            }
            return Ok(v);
        }
        k = k + 1;
    }
    Err(InstallerVersionError::UnknownHash)
}

/// The text that the installer-path log holds for an installer copied into
/// the data directory as `file_name`: its path relative to the scripts
/// directory.
pub open spec fn log_entry_text(file_name: Seq<char>) -> Seq<char> {
    "../"@ + file_name
}

/// What the installer-path log is given for the installer file `file_name`.
pub fn installer_log_entry(file_name: &str) -> (entry: String)
    ensures
        entry@ == log_entry_text(file_name@),
{
    let mut entry = "../".to_string();
    entry.append(file_name);
    entry
}

/// The installer that an earlier setup remembered: the log's content,
/// trimmed, taken relative to the scripts directory; none when it is blank.
/// Paths are byte strings.
pub open spec fn cached_installer_choice(scripts_dir: Seq<u8>, log_content: Seq<char>) -> Option<Seq<u8>> {
    let rel = trim(log_content);
    if rel.len() == 0 {
        None
    } else {
        Some(path_join(scripts_dir, encode_utf8(rel)))
    }
}

/// The path of the installer that the installer-path log `log_content`
/// names, relative to `scripts_dir`; none when the log is blank.
pub fn cached_installer_path(scripts_dir: &[u8], log_content: &str) -> (r: Option<Vec<u8>>)
    ensures
        match r {
            Some(p) => cached_installer_choice(scripts_dir@, log_content@) == Some(p@),
            None => cached_installer_choice(scripts_dir@, log_content@) is None,
        },
{
    let rel = trim_text(log_content);
    if rel.as_str().is_empty() {
        None
    } else {
        Some(join_path(scripts_dir, rel.as_str().as_bytes()))
    }
}

/// Where setup takes the installer from.
#[derive(Debug)]
pub enum InstallerSource {
    /// The path given on the command line.
    Given(String),
    /// The installer that an earlier setup remembered, which still exists;
    /// it is used as it is.
    Remembered(Vec<u8>),
    /// Neither: the user is asked for a path.
    Ask,
}

/// Where setup takes the installer from: the path given on the command line
/// when there is one, else the remembered installer when it still exists
/// (`remembered`), else a path that the user is asked for.
pub fn installer_source(arg: Option<String>, remembered: Option<Vec<u8>>) -> (r: InstallerSource)
    ensures
        match arg {
            Some(a) => r == InstallerSource::Given(a),
            None => match remembered {
                Some(p) => r == InstallerSource::Remembered(p),
                None => r == InstallerSource::Ask,
            },
        },
{
    match arg {
        Some(a) => InstallerSource::Given(a),
        None => match remembered {
            Some(p) => InstallerSource::Remembered(p),
            None => InstallerSource::Ask,
        },
    }
}

/// Every known installer resolves to the version listed with it: the table
/// lists each digest once.
pub proof fn lemma_known_installers_resolve(i: int)
    requires
        0 <= i < version_table().len(),
    ensures
        table_lookup(version_table(), version_table()[i].0) == Some(version_table()[i].1),
{
    reveal_strlit("abe838aa2e2d3d9b10fea94165e9a303");
    reveal_strlit("20c806793b3ea8d79273d5138fbd195f");
    reveal_strlit("8b0e99a41b851b50592d5d6ef1b1263d");
    reveal_strlit("b8c785d03b754766538d6cde1277c4f0");
    let t = version_table();
    assert(t[0].0[0] == 'a' && t[1].0[0] == '2' && t[2].0[0] == '8' && t[3].0[0] == 'b');
    assert(t.drop_first()[0] == t[1]);
    assert(t.drop_first().drop_first()[0] == t[2]);
    assert(t.drop_first().drop_first().drop_first()[0] == t[3]);
    let t1 = t.drop_first();
    let t2 = t1.drop_first();
    let t3 = t2.drop_first();
    assert(table_lookup(t3, t[3].0) == Some(t[3].1));
    if i == 3 {
        assert(table_lookup(t2, t[3].0) == Some(t[3].1));
        assert(table_lookup(t1, t[3].0) == Some(t[3].1));
    } else if i == 2 {
        assert(table_lookup(t2, t[2].0) == Some(t[2].1));
        assert(table_lookup(t1, t[2].0) == Some(t[2].1));
    } else if i == 1 {
        assert(table_lookup(t1, t[1].0) == Some(t[1].1));
    }
}

/// What setup writes to the installer-path log is read back by the next
/// setup as the same installer: the remembered path is the written entry
/// taken relative to the scripts directory.
pub proof fn lemma_log_entry_read_back(scripts_dir: Seq<u8>, file_name: Seq<char>)
    requires
        file_name.len() > 0 ==> !is_ws(file_name.last()),
    ensures
        cached_installer_choice(scripts_dir, log_entry_text(file_name)) == Some(
            path_join(scripts_dir, encode_utf8(log_entry_text(file_name))),
        ),
{
    reveal_strlit("../");
    let e = log_entry_text(file_name);
    assert(e[0] == '.');
    assert(e.last() == if file_name.len() > 0 { file_name.last() } else { '/' });
    lemma_trim_unpadded(e);
}

} // verus!
