//! `set`: the shell lines that export an environment's variables.

use vstd::prelude::*;
use crate::commands::{failure_message, failure_text};
use crate::pairs::{string_pairs, string_views};
use crate::protocol::SecretResponse;
use crate::text::{concat3, owned};

verus! {

/// A value made safe inside single quotes: each `'` becomes `'\''`.
pub open spec fn shell_quoted(v: Seq<char>) -> Seq<char>
    decreases v.len(),
{
    if v.len() == 0 {
        Seq::empty()
    } else {
        shell_quoted(v.drop_last()) + if v.last() == '\'' {
            "'\\''"@
        } else {
            seq![v.last()]
        }
    }
}

/// The line that exports one variable.
pub open spec fn export_text(key: Seq<char>, value: Seq<char>) -> Seq<char> {
    "export "@ + key + "='"@ + shell_quoted(value) + "'"@
}

/// Quotes a value for a single-quoted shell word (see `shell_quoted`).
pub fn quote_value(value: &str) -> (r: String)
    ensures
        r@ == shell_quoted(value@),
{
    let n = value.unicode_len();
    let mut r = String::new();
    let mut i: usize = 0;
    while i < n
        invariant
            i <= n,
            n == value@.len(),
            r@ == shell_quoted(value@.take(i as int)),
        decreases n - i,
    {
        let c = value.get_char(i);
        assert(value@.take(i + 1).drop_last() =~= value@.take(i as int));
        if c == '\'' {
            r.append("'\\''");
        } else {
            let one = value.substring_char(i, i + 1);
            assert(one@ =~= seq![c]);
            r.append(one);
        }
        i = i + 1;
    }
    assert(value@.take(i as int) =~= value@);
    r
}

/// The line that exports `key` with `value`.
pub fn export_line(key: &str, value: &str) -> (r: String)
    ensures
        r@ == export_text(key@, value@),
{
    let mut r = concat3("export ", key, "='");
    let q = quote_value(value);
    r.append(q.as_str());
    r.append("'");
    r
}

/// The lines `set` prints for the daemon's answer: one export per variable,
/// or the error to report when the answer is a failure.
pub fn run(resp: &SecretResponse) -> (r: Result<Vec<String>, String>)
    ensures
        !resp.success ==> (r matches Err(m) && m@ == failure_text(*resp)),
        resp.success ==> (r matches Ok(lines) && string_views(lines@) == match resp.env_vars {
            Some(vars) => string_pairs(vars@).map_values(
                |p: (Seq<char>, Seq<char>)| export_text(p.0, p.1),
            ),
            None => Seq::empty(),
        }),
{
    if !resp.success {
        return Err(failure_message(resp));
    }
    let mut lines: Vec<String> = Vec::new();
    match &resp.env_vars {
        Some(vars) => {
            let ghost f = |p: (Seq<char>, Seq<char>)| export_text(p.0, p.1);
            let mut i: usize = 0;
            while i < vars.len()
                invariant
                    i <= vars@.len(),
                    f == (|p: (Seq<char>, Seq<char>)| export_text(p.0, p.1)),
                    string_views(lines@) =~= string_pairs(vars@).take(i as int).map_values(f),
                decreases vars@.len() - i,
            {
                let line = export_line(vars[i].0.as_str(), vars[i].1.as_str());
                let ghost before = lines@;
                lines.push(line);
                proof {
                    assert(string_views(lines@) =~= string_views(before).push(line@));
                    assert(string_pairs(vars@).take(i + 1).map_values(f) =~= string_pairs(
                        vars@,
                    ).take(i as int).map_values(f).push(line@));
                }
                i = i + 1;
            }
            assert(string_pairs(vars@).take(i as int) =~= string_pairs(vars@));
        },
        None => {
            assert(string_views(lines@) =~= Seq::<Seq<char>>::empty());
        },
    }
    Ok(lines)
}

} // verus!
