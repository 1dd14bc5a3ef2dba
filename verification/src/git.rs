use crate::text::{find_line_end, join2, join3, lemma_line_end_bounds, line_end};
use vstd::prelude::*;
use vstd::slice::slice_subrange;

verus! {

/// The reference of an environment's branch in the remote.
pub open spec fn spec_branch_ref(branch: Seq<char>) -> Seq<char> {
    "refs/heads/cofer/"@ + branch
}

/// The refspec that pushes a commit to an environment's branch, by force.
pub open spec fn spec_push_refspec(commit: Seq<char>, branch: Seq<char>) -> Seq<char> {
    "+"@ + commit + ":"@ + spec_branch_ref(branch)
}

/// The reference of an environment's branch in the remote.
pub fn branch_ref(branch: &str) -> (r: String)
    ensures
        r@ == spec_branch_ref(branch@),
{
    join2("refs/heads/cofer/", branch)
}

/// The refspec that pushes a commit to an environment's branch, by force.
pub fn push_refspec(commit: &str, branch: &str) -> (r: String)
    ensures
        r@ == spec_push_refspec(commit@, branch@),
{
    let target = branch_ref(branch);
    let mut out = join3("+", commit, ":");
    out.append(target.as_str());
    out
}

/// The bytes of `.cofer`.
pub open spec fn ignore_name() -> Seq<u8> {
    seq![46u8, 99, 111, 102, 101, 114]
}

/// The line that is added to an ignore file: `.cofer/` and a line feed.
pub open spec fn ignore_line() -> Seq<u8> {
    seq![46u8, 99, 111, 102, 101, 114, 47, 10]
}

/// `s` without the slashes at its end.
pub open spec fn strip_slashes(s: Seq<u8>) -> Seq<u8>
    decreases s.len(),
{
    if s.len() > 0 && s[s.len() - 1] == 47 {
        strip_slashes(s.take(s.len() - 1))
    } else {
        s
    }
}

/// A line without its line break: a line feed, or a carriage return and a
/// line feed.
pub open spec fn strip_line_break(line: Seq<u8>) -> Seq<u8> {
    if line.len() > 0 && line[line.len() - 1] == 10 {
        if line.len() > 1 && line[line.len() - 2] == 13 {
            line.take(line.len() - 2)
        } else {
            line.take(line.len() - 1)
        }
    } else {
        line
    }
}

/// A line of an ignore file names the directory when it reads `.cofer`,
/// with or without slashes behind it.
pub open spec fn line_names_cofer(line: Seq<u8>) -> bool {
    strip_slashes(strip_line_break(line)) == ignore_name()
}

/// Some line of the file, from `pos` on, names the directory.
pub open spec fn spec_has_cofer_from(content: Seq<u8>, pos: int) -> bool
    decreases content.len() - pos,
{
    if pos >= content.len() || pos < 0 {
        false
    } else {
        let end = line_end(content, pos);
        if line_names_cofer(content.subrange(pos, end)) {
            true
        } else if pos < end <= content.len() {
            spec_has_cofer_from(content, end)
        } else {
            false
        }
    }
}

/// What has to be appended to an ignore file so that it names the
/// directory: the line, unless a line of the file names it already. A file
/// that does not exist counts as empty.
pub open spec fn spec_ignore_addition(content: Option<Seq<u8>>) -> Option<Seq<u8>> {
    match content {
        Some(bytes) => if spec_has_cofer_from(bytes, 0) {
            None
        } else {
            Some(ignore_line())
        },
        None => Some(ignore_line()),
    }
}

fn names_cofer(line: &[u8]) -> (r: bool)
    ensures
        r == line_names_cofer(line@),
{
    let n = line.len();
    let mut end: usize = n;
    if n > 0 && line[n - 1] == 10 {
        end = if n > 1 && line[n - 2] == 13 {
            n - 2
        } else {
            n - 1
        };
    }
    let ghost bare = strip_line_break(line@);
    assert(bare =~= line@.take(end as int));
    assert(bare.take(end as int) =~= bare);
    while end > 0 && line[end - 1] == 47
        invariant
            end <= line.len(),
            end <= bare.len(),
            forall|k: int| 0 <= k < end ==> bare[k] == line@[k],
            strip_slashes(bare) == strip_slashes(bare.take(end as int)),
        decreases end,
    {
        assert(bare.take(end as int).take(end - 1) =~= bare.take(end - 1));
        end -= 1;
    }
    assert(strip_slashes(bare) == bare.take(end as int));
    if end != 6 {
        return false;
    }
    let r = line[0] == 46 && line[1] == 99 && line[2] == 111 && line[3] == 102 && line[4] == 101
        && line[5] == 114;
    proof {
        let got = bare.take(end as int);
        if r {
            assert(got =~= ignore_name());
        } else {
            assert(got[0] == line@[0] && got[1] == line@[1] && got[2] == line@[2] && got[3]
                == line@[3] && got[4] == line@[4] && got[5] == line@[5]);
        }
    }
    r
}

/// Tells whether some line of an ignore file names the directory.
pub fn gitignore_has_cofer(content: &[u8]) -> (r: bool)
    ensures
        r == spec_has_cofer_from(content@, 0),
{
    let mut pos: usize = 0;
    while pos < content.len()
        invariant
            pos <= content.len(),
            spec_has_cofer_from(content@, 0) == spec_has_cofer_from(content@, pos as int),
        decreases content.len() - pos,
    {
        let end = find_line_end(content, pos);
        proof {
            lemma_line_end_bounds(content@, pos as int);
        }
        if names_cofer(slice_subrange(content, pos, end)) {
            return true;
        }
        pos = end;
    }
    false
}

/// What has to be appended to an ignore file so that it names the
/// directory. `content` is `None` where the file does not exist.
pub fn ensure_gitignore_has_cofer(content: Option<&[u8]>) -> (addition: Option<Vec<u8>>)
    ensures
        match addition {
            Some(bytes) => spec_ignore_addition(
                match content {
                    Some(c) => Some(c@),
                    None => None,
                },
            ) == Some(bytes@),
            None => spec_ignore_addition(
                match content {
                    Some(c) => Some(c@),
                    None => None,
                },
            ).is_none(),
        },
{
    let present = match content {
        Some(bytes) => gitignore_has_cofer(bytes),
        None => false,
    };
    if present {
        None
    } else {
        let line: Vec<u8> = vec![46u8, 99, 111, 102, 101, 114, 47, 10];
        assert(line@ =~= ignore_line());
        Some(line)
    }
}

} // verus!
