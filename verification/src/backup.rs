//! Making a backup of the child's world directory: where the archive and
//! the world data lie, what the archive is called, and the combined message
//! reported when both the backup and the recovery restart fail.

use vstd::prelude::*;
use crate::text::find_last;
use crate::text::last_occurrence;
use crate::text::lemma_last_occurrence_is;
use crate::text::occurs_in;

verus! {

/// `ch` made safe for a file name: a space becomes an underscore and a
/// colon becomes a dash; every other character stays.
pub open spec fn sanitize_char(ch: char) -> char {
    if ch == ' ' {
        '_'
    } else if ch == ':' {
        '-'
    } else {
        ch
    }
}

/// `s` made safe for a file name, character by character.
pub open spec fn sanitize_spec(s: Seq<char>) -> Seq<char> {
    s.map_values(|ch: char| sanitize_char(ch))
}

/// The file name of a backup archive made at the instant `timestamp`
/// describes: the timestamp made filesystem-safe, with the archive suffix.
pub open spec fn archive_file_name_spec(timestamp: Seq<char>) -> Seq<char> {
    sanitize_spec(timestamp) + ".tar.gz"@
}

/// The file name of the backup archive for `timestamp`.
pub fn archive_file_name(timestamp: &str) -> (r: String)
    ensures
        r@ == archive_file_name_spec(timestamp@),
{
    let n = timestamp.unicode_len();
    let mut out = String::new();
    let mut i: usize = 0;
    proof {
        assert(out@ =~= sanitize_spec(timestamp@).take(0));
    }
    while i < n
        invariant
            n == timestamp@.len(),
            n <= usize::MAX,
            i <= n,
            out@ == sanitize_spec(timestamp@).take(i as int),
        decreases n - i,
    {
        let ch = timestamp.get_char(i);
        if ch == ' ' {
            proof {
                reveal_strlit("_");
            }
            out.append("_");
        } else if ch == ':' {
            proof {
                reveal_strlit("-");
            }
            out.append("-");
        } else {
            let one = timestamp.substring_char(i, i + 1);
            out.append(one);
        }
        proof {
            assert(out@ =~= sanitize_spec(timestamp@).take(i + 1));
        }
        i = i + 1;
    }
    proof {
        assert(sanitize_spec(timestamp@).take(n as int) =~= sanitize_spec(timestamp@));
    }
    out.concat(".tar.gz")
}

/// Relies on `chrono::Utc::now` and the `Display` rendering of
/// `chrono::DateTime<chrono::Utc>`: the current instant, written out as
/// `YYYY-MM-DD HH:MM:SS[.fraction] UTC`. The result depends on the system
/// clock, so nothing is promised of it; the call expects the clock not to
/// lie before the Unix epoch.
#[verifier::external_body]
fn current_utc_timestamp() -> (r: String) {
    chrono::Utc::now().to_string()
}

/// The file name for a backup archive made at this moment: the current UTC
/// instant's rendering made filesystem-safe, with the archive suffix. The
/// instant comes from the system clock, so only the shape of the name is
/// promised.
pub fn fresh_archive_name() -> (r: String)
    ensures
        exists|ts: Seq<char>| r@ == archive_file_name_spec(ts),
{
    let ts = current_utc_timestamp();
    let name = archive_file_name(ts.as_str());
    proof {
        assert(name@ == archive_file_name_spec(ts@));
    }
    name
}

/// The directory part of `path`: everything through its last slash, or
/// nothing when it has none. Paths are plain strings here, with '/' as the
/// separator: the jar "a/b/server.jar" lies in "a/b/", and a bare
/// "server.jar" lies in the directory the wrapper was run from.
pub open spec fn dir_of(path: Seq<char>) -> Seq<char> {
    if occurs_in(path, "/"@) {
        path.take(last_occurrence(path, "/"@) + 1)
    } else {
        Seq::empty()
    }
}

/// Whether `path` can name the child's jar at all: it is neither empty nor
/// the bare root, so there is a directory to place the backup next to it.
pub open spec fn has_parent_dir(path: Seq<char>) -> bool {
    path.len() > 0 && path != "/"@
}

/// Where a fresh archive named `archive_name` and the world data directory
/// lie, next to the jar: `<dir><archive_name>` and `<dir>world`, where
/// `<dir>` is the jar's directory. Nothing is returned when the jar path
/// has no parent directory to place them in.
pub fn backup_paths(server_jar_path: &str, archive_name: &str) -> (r: Option<(String, String)>)
    ensures
        has_parent_dir(server_jar_path@) ==> (r matches Some(p) && p.0@ == dir_of(
            server_jar_path@,
        ) + archive_name@ && p.1@ == dir_of(server_jar_path@) + "world"@),
        !has_parent_dir(server_jar_path@) ==> r is None,
{
    proof {
        reveal_strlit("/");
    }
    let n = server_jar_path.unicode_len();
    if n == 0 {
        return None;
    }
    if n == 1 && server_jar_path.get_char(0) == '/' {
        proof {
            assert(server_jar_path@ =~= "/"@);
        }
        return None;
    }
    proof {
        assert(server_jar_path@ != "/"@) by {
            if server_jar_path@ == "/"@ {
                assert(server_jar_path@.len() == 1);
                assert(server_jar_path@[0] == '/');
            }
        }
    }
    let dir: &str = match find_last(server_jar_path, "/") {
        Some(i) => {
            proof {
                lemma_last_occurrence_is(server_jar_path@, "/"@, i as int);
            }
            let d = server_jar_path.substring_char(0, i + 1);
            proof {
                assert(d@ =~= dir_of(server_jar_path@));
            }
            d
        },
        None => {
            let d = "";
            proof {
                reveal_strlit("");
                assert(d@ =~= dir_of(server_jar_path@));
            }
            d
        },
    };
    let archive = String::from_str(dir).concat(archive_name);
    let world = String::from_str(dir).concat("world");
    Some((archive, world))
}

/// The message reported when making a backup failed and the recovery
/// restart afterwards failed too: both descriptions, the backup failure
/// first, so neither is lost.
pub open spec fn combined_failure_spec(backup_msg: Seq<char>, restart_msg: Seq<char>) -> Seq<
    char,
> {
    "Something went wrong while trying to make a server backup: "@ + backup_msg
        + "\nAfter failing to make that backup, something went wrong while trying to restart the server: "@
        + restart_msg
}

/// The combined report of a backup failure followed by a restart failure.
pub fn combine_backup_failure(backup_msg: &str, restart_msg: &str) -> (m: String)
    ensures
        m@ == combined_failure_spec(backup_msg@, restart_msg@),
{
    let m = String::from_str("Something went wrong while trying to make a server backup: ")
        .concat(backup_msg)
        .concat(
            "\nAfter failing to make that backup, something went wrong while trying to restart the server: ",
        )
        .concat(restart_msg);
    proof {
        assert(m@ =~= combined_failure_spec(backup_msg@, restart_msg@));
    }
    m
}

/// The combined report loses neither description: both the backup failure
/// text and the restart failure text occur in it verbatim.
pub proof fn lemma_combined_failure_contains_both(backup_msg: Seq<char>, restart_msg: Seq<char>)
    ensures
        occurs_in(combined_failure_spec(backup_msg, restart_msg), backup_msg),
        occurs_in(combined_failure_spec(backup_msg, restart_msg), restart_msg),
{
    let whole = combined_failure_spec(backup_msg, restart_msg);
    let front = "Something went wrong while trying to make a server backup: "@;
    let middle =
        "\nAfter failing to make that backup, something went wrong while trying to restart the server: "@;
    assert(whole.subrange(front.len() as int, front.len() + backup_msg.len() as int) =~= backup_msg);
    assert(crate::text::occurs_at(whole, backup_msg, front.len() as int));
    let start: int = front.len() + backup_msg.len() + middle.len() as int;
    assert(whole.subrange(start, start + restart_msg.len() as int) =~= restart_msg);
    assert(crate::text::occurs_at(whole, restart_msg, start));
}

} // verus!
