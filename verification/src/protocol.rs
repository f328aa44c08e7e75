//! The few line shapes of the child's protocol: the readiness marker, the
//! player-list response, command framing, and the fixed launch arguments.

use vstd::prelude::*;
use crate::errors::WrapperError;
use crate::text::contains_sub;
use crate::text::decimal;
use crate::text::decimal_spec;
use crate::text::find_last;
use crate::text::last_occurrence;
use crate::text::lemma_last_occurrence_is;
use crate::text::occurs_in;
use crate::text::split;
use crate::text::split_on;
use crate::text::trim;
use crate::text::trim_spec;

verus! {

/// A line announces that the child has finished spinning up when it contains
/// the readiness marker text.
pub open spec fn is_ready_line(line: Seq<char>) -> bool {
    occurs_in(line, "Done"@)
}

/// Whether `line` contains the readiness marker.
pub fn line_is_ready(line: &str) -> (r: bool)
    ensures
        r == is_ready_line(line@),
{
    proof {
        reveal_strlit("Done");
    }
    contains_sub(line, "Done")
}

/// A player-list response line carries its data after a ": " separator.
pub open spec fn has_player_list_shape(line: Seq<char>) -> bool {
    occurs_in(line, ": "@)
}

/// The part of `line` after its last ": " separator.
pub open spec fn player_list_suffix(line: Seq<char>) -> Seq<char> {
    line.subrange(last_occurrence(line, ": "@) + ": "@.len(), line.len() as int)
}

/// The player names carried by `line`: the comma-separated pieces of the
/// suffix, each with surrounding spaces removed; an empty suffix carries no
/// names at all.
pub open spec fn parse_players(line: Seq<char>) -> Seq<Seq<char>> {
    if player_list_suffix(line).len() == 0 {
        Seq::empty()
    } else {
        split_on(player_list_suffix(line), ',').map_values(|t: Seq<char>| trim_spec(t))
    }
}

/// The player names in a response line of the shape
/// `"... N of a max of M players online: name1, name2"`, or a protocol
/// violation when the line carries no ": " separator.
pub fn parse_player_list(line: &str) -> (r: Result<Vec<String>, WrapperError>)
    ensures
        has_player_list_shape(line@) ==> (r matches Ok(names) && names.deep_view()
            == parse_players(line@)),
        !has_player_list_shape(line@) ==> (r matches Err(e) && e
            == WrapperError::ProtocolViolation),
{
    proof {
        reveal_strlit(": ");
    }
    let n = line.unicode_len();
    match find_last(line, ": ") {
        None => Err(WrapperError::ProtocolViolation),
        Some(i) => {
            proof {
                lemma_last_occurrence_is(line@, ": "@, i as int);
            }
            let suffix = line.substring_char(i + 2, n);
            proof {
                assert(suffix@ =~= player_list_suffix(line@));
            }
            if suffix.is_empty() {
                let names: Vec<String> = Vec::new();
                proof {
                    assert(names.deep_view() =~= parse_players(line@));
                }
                Ok(names)
            } else {
                let raw = split(suffix, ',');
                let mut names: Vec<String> = Vec::new();
                let mut k: usize = 0;
                let target: Ghost<Seq<Seq<char>>> = Ghost(parse_players(line@));
                proof {
                    assert(target@ =~= raw.deep_view().map_values(|t: Seq<char>| trim_spec(t)));
                }
                while k < raw.len()
                    invariant
                        k <= raw.len(),
                        target@ == raw.deep_view().map_values(|t: Seq<char>| trim_spec(t)),
                        names.deep_view() =~= target@.take(k as int),
                    decreases raw.len() - k,
                {
                    let old_names: Ghost<Seq<Seq<char>>> = Ghost(names.deep_view());
                    let t = trim(raw[k].as_str());
                    names.push(t);
                    proof {
                        assert(names.deep_view() =~= old_names@.push(
                            trim_spec(raw.deep_view()[k as int]),
                        ));
                        assert(names.deep_view() =~= target@.take(k + 1));
                    }
                    k = k + 1;
                }
                proof {
                    assert(names.deep_view() =~= target@);
                }
                Ok(names)
            }
        },
    }
}

/// `names` written the way the child's player-list line carries them:
/// separated by a comma and a space.
pub open spec fn join_players(names: Seq<Seq<char>>) -> Seq<char>
    decreases names.len(),
{
    if names.len() == 0 {
        Seq::empty()
    } else if names.len() == 1 {
        names[0]
    } else {
        names[0] + seq![',', ' '] + join_players(names.skip(1))
    }
}

/// A well-formed player name: nonempty, free of commas and colons, and
/// neither starting nor ending with a space.
pub open spec fn wf_player_name(n: Seq<char>) -> bool {
    &&& n.len() > 0
    &&& n[0] != ' '
    &&& n[n.len() - 1] != ' '
    &&& forall|i: int| 0 <= i < n.len() ==> n[i] != ',' && n[i] != ':'
}

/// A name free of commas, so that splitting on them cannot cut it apart.
spec fn comma_free(n: Seq<char>) -> bool {
    forall|i: int| 0 <= i < n.len() ==> n[i] != ','
}

/// Each name with a single space put in front, as splitting a joined list
/// on commas leaves them.
spec fn spaced(names: Seq<Seq<char>>) -> Seq<Seq<char>> {
    names.map_values(|n: Seq<char>| seq![' '] + n)
}

/// A joined list of well-formed names is nonempty and carries no colon.
proof fn lemma_join_players_chars(names: Seq<Seq<char>>)
    requires
        names.len() >= 1,
        forall|k: int| 0 <= k < names.len() ==> wf_player_name(#[trigger] names[k]),
    ensures
        join_players(names).len() >= names[0].len(),
        forall|i: int|
            0 <= i < join_players(names).len() ==> #[trigger] join_players(names)[i] != ':',
    decreases names.len(),
{
    if names.len() == 1 {
        assert(wf_player_name(names[0]));
    } else {
        lemma_join_players_chars(names.skip(1));
        let j = join_players(names);
        assert(j == names[0] + seq![',', ' '] + join_players(names.skip(1)));
        assert forall|i: int| 0 <= i < j.len() implies #[trigger] j[i] != ':' by {
            let n0 = names[0];
            if i < n0.len() {
                assert(j[i] == n0[i]);
                assert(wf_player_name(n0));
            } else if i < n0.len() + 2 {
            } else {
                assert(j[i] == join_players(names.skip(1))[i - n0.len() - 2]);
            }
        }
        assert(wf_player_name(names[0]));
    }
}

/// Splitting a joined list on commas yields the first name followed by the
/// remaining names, each with the separator's space still in front.
proof fn lemma_split_join(names: Seq<Seq<char>>, cur: Seq<char>, acc: Seq<Seq<char>>)
    requires
        names.len() >= 1,
        forall|k: int| 0 <= k < names.len() ==> comma_free(#[trigger] names[k]),
    ensures
        crate::text::split_loop(join_players(names), ',', cur, acc) == acc + seq![cur + names[0]]
            + spaced(names.skip(1)),
    decreases names.len(),
{
    if names.len() == 1 {
        assert(join_players(names) == names[0]);
        assert(names[0] + Seq::<char>::empty() =~= names[0]);
        crate::text::lemma_split_loop_absorbs(
            names[0],
            Seq::empty(),
            ',',
            cur,
            acc,
        );
        assert(crate::text::split_loop(Seq::empty(), ',', cur + names[0], acc) == acc.push(
            cur + names[0],
        ));
        assert(acc.push(cur + names[0]) =~= acc + seq![cur + names[0]] + spaced(names.skip(1)));
    } else {
        let n0 = names[0];
        let rest = seq![',', ' '] + join_players(names.skip(1));
        assert(join_players(names) == n0 + rest);
        crate::text::lemma_split_loop_absorbs(n0, rest, ',', cur, acc);
        // The comma finishes the current token.
        assert(rest[0] == ',');
        assert(rest.skip(1) =~= seq![' '] + join_players(names.skip(1)));
        assert(crate::text::split_loop(rest, ',', cur + n0, acc) == crate::text::split_loop(
            seq![' '] + join_players(names.skip(1)),
            ',',
            Seq::empty(),
            acc.push(cur + n0),
        ));
        // A space in front of the next name folds into that name.
        let names2 = seq![seq![' '] + names[1]] + names.skip(2);
        assert(names2.len() == names.len() - 1);
        assert forall|k: int| 0 <= k < names2.len() implies comma_free(#[trigger] names2[k]) by {
            if k == 0 {
                assert(names2[0] =~= seq![' '] + names[1]);
                assert(comma_free(names[1]));
                assert forall|i: int| 0 <= i < names2[0].len() implies names2[0][i] != ',' by {
                    if i > 0 {
                        assert(names2[0][i] == names[1][i - 1]);
                    }
                }
            } else {
                assert(names2[k] == names[k + 1]);
                assert(comma_free(names[k + 1]));
            }
        }
        if names.skip(1).len() == 1 {
            assert(join_players(names2) == names2[0]);
            assert(join_players(names.skip(1)) == names[1]);
            assert(names2[0] =~= seq![' '] + join_players(names.skip(1)));
        } else {
            assert(names2.skip(1) =~= names.skip(1).skip(1));
            assert(join_players(names2) == names2[0] + seq![',', ' '] + join_players(
                names2.skip(1),
            ));
            assert(join_players(names.skip(1)) == names[1] + seq![',', ' '] + join_players(
                names.skip(1).skip(1),
            ));
            assert(names2[0] + seq![',', ' '] + join_players(names2.skip(1)) =~= seq![' ']
                + join_players(names.skip(1)));
        }
        lemma_split_join(names2, Seq::empty(), acc.push(cur + n0));
        assert(Seq::<char>::empty() + names2[0] =~= seq![' '] + names[1]);
        assert(acc.push(cur + n0) + seq![Seq::<char>::empty() + names2[0]] + spaced(
            names2.skip(1),
        ) =~= acc + seq![cur + n0] + spaced(names.skip(1))) by {
            assert(names2.skip(1) =~= names.skip(2));
            assert forall|k: int| 0 <= k < spaced(names.skip(1)).len() implies spaced(
                names.skip(1),
            )[k] == (seq![seq![' '] + names[1]] + spaced(names.skip(2)))[k] by {
                if k > 0 {
                    assert(names.skip(1)[k] == names.skip(2)[k - 1]);
                }
            }
        }
    }
}

/// The list round-trip: a response line made of any prefix, the separator,
/// and well-formed names joined with ", " parses back to exactly those
/// names.
pub proof fn lemma_list_round_trip(prefix: Seq<char>, names: Seq<Seq<char>>)
    requires
        names.len() >= 1,
        forall|k: int| 0 <= k < names.len() ==> wf_player_name(#[trigger] names[k]),
    ensures
        parse_players(prefix + seq![':', ' '] + join_players(names)) == names,
{
    reveal_strlit(": ");
    let sep = ": "@;
    assert(sep =~= seq![':', ' ']);
    let joined = join_players(names);
    let line = prefix + seq![':', ' '] + joined;
    let p = prefix.len() as int;
    lemma_join_players_chars(names);
    assert(wf_player_name(names[0]));
    assert(line.subrange(p, p + 2) =~= sep);
    assert(crate::text::occurs_at(line, sep, p));
    assert forall|j: int| j > p implies !crate::text::occurs_at(line, sep, j) by {
        if crate::text::occurs_at(line, sep, j) {
            assert(line.subrange(j, j + 2)[0] == line[j]);
            assert(line[j] == ':');
            if j == p + 1 {
                assert(line[j] == ' ');
            } else {
                assert(line[j] == joined[j - p - 2]);
            }
        }
    }
    crate::text::lemma_last_occurrence_is(line, sep, p);
    assert forall|k: int| 0 <= k < names.len() implies comma_free(#[trigger] names[k]) by {
        assert(wf_player_name(names[k]));
    }
    assert(player_list_suffix(line) =~= joined);
    assert(joined.len() > 0);
    lemma_split_join(names, Seq::empty(), Seq::empty());
    let tokens = crate::text::split_on(joined, ',');
    assert(tokens == Seq::<Seq<char>>::empty() + seq![Seq::<char>::empty() + names[0]] + spaced(
        names.skip(1),
    ));
    assert(tokens.len() == names.len());
    let parsed = parse_players(line);
    assert(parsed == tokens.map_values(|t: Seq<char>| crate::text::trim_spec(t)));
    assert forall|k: int| 0 <= k < names.len() implies parsed[k] == names[k] by {
        assert(parsed[k] == crate::text::trim_spec(tokens[k]));
        if k == 0 {
            assert(tokens[0] =~= names[0]);
            crate::text::lemma_trim_id(names[0]);
        } else {
            assert(tokens[k] == spaced(names.skip(1))[k - 1]);
            assert(tokens[k] == seq![' '] + names[k]);
            assert(wf_player_name(names[k]));
            crate::text::lemma_trim_of_spaced(names[k]);
        }
    }
    assert(parsed =~= names);
}

/// `cmd` with a terminating newline added when it lacks one: the child does
/// not act on its input until a newline arrives.
pub open spec fn framed_command(cmd: Seq<char>) -> Seq<char> {
    if cmd.len() > 0 && cmd[cmd.len() - 1] == '\n' {
        cmd
    } else {
        cmd.push('\n')
    }
}

/// `cmd` framed for the child's input stream.
pub fn frame_command(cmd: &str) -> (r: String)
    ensures
        r@ == framed_command(cmd@),
{
    proof {
        reveal_strlit("\n");
    }
    let n = cmd.unicode_len();
    if n > 0 && cmd.get_char(n - 1) == '\n' {
        String::from_str(cmd)
    } else {
        let s = String::from_str(cmd).concat("\n");
        proof {
            assert(s@ =~= cmd@.push('\n'));
        }
        s
    }
}

/// The fixed argument vector the child is launched with: the log-message
/// interpolation guard, the heap bound, the jar to run, and the headless
/// flag.
pub open spec fn spawn_args_spec(max_memory_mb: int, jar: Seq<char>) -> Seq<Seq<char>> {
    seq![
        "-Dlog4j2.formatMsgNoLookups=true"@,
        "-Xmx"@ + decimal_spec(max_memory_mb) + "m"@,
        "-jar"@,
        jar,
        "nogui"@,
    ]
}

/// The arguments for launching the child with a heap bound of
/// `max_memory_buffer_size` megabytes.
pub fn spawn_args(max_memory_buffer_size: u16, server_jar_path: &str) -> (r: Vec<String>)
    ensures
        r.deep_view() == spawn_args_spec(max_memory_buffer_size as int, server_jar_path@),
{
    let mut v: Vec<String> = Vec::new();
    v.push(String::from_str("-Dlog4j2.formatMsgNoLookups=true"));
    let d = decimal(max_memory_buffer_size as u64);
    let xmx = String::from_str("-Xmx").concat(d.as_str()).concat("m");
    v.push(xmx);
    v.push(String::from_str("-jar"));
    v.push(String::from_str(server_jar_path));
    v.push(String::from_str("nogui"));
    proof {
        assert(v.deep_view() =~= spawn_args_spec(
            max_memory_buffer_size as int,
            server_jar_path@,
        ));
    }
    v
}

} // verus!
