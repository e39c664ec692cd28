use vstd::prelude::*;
use crate::paths::{has_prefix, matches_at, starts_with};

verus! {

/// How each completion line of the fish script begins.
pub open spec fn fish_complete_prefix() -> Seq<char> {
    "complete -c fig"@
}

/// Whether a word of the line ends at position `at`: at the end of the line or at a space.
pub open spec fn word_ends_at(l: Seq<char>, at: int) -> bool {
    at == l.len() || (0 <= at < l.len() && l[at] == ' ')
}

/// A completion line of this command: the prefix, with the command name as a word of its own.
pub open spec fn is_fig_completion_line(l: Seq<char>) -> bool {
    has_prefix(l, fish_complete_prefix()) && word_ends_at(l, fish_complete_prefix().len() as int)
}

/// The no-files option `-f` stands as a word of its own from position `i` on: a space,
/// `-f`, then the end of the line or a space.
pub open spec fn option_word_at(l: Seq<char>, i: int) -> bool {
    0 <= i && i + 3 <= l.len() && l.subrange(i, i + 3) == " -f"@ && word_ends_at(l, i + 3)
}

/// The line gives fish's no-files option `-f` as a word of its own somewhere.
pub open spec fn has_no_files_option(l: Seq<char>) -> bool {
    exists|i: int| #[trigger] option_word_at(l, i)
}

/// Whether the line gives the no-files option as a word of its own.
fn gives_no_files_option(line: &str) -> (r: bool)
    ensures
        r == has_no_files_option(line@),
{
    let opt = " -f";
    proof {
        reveal_strlit(" -f");
    }
    let n = line.unicode_len();
    if n < 3 {
        return false;
    }
    let mut i: usize = 0;
    loop
        invariant
            n == line@.len(),
            3 <= n,
            opt@ == " -f"@,
            opt@.len() == 3,
            i <= n - 3,
            forall|k: int| 0 <= k < i ==> !#[trigger] option_word_at(line@, k),
        decreases n - 3 - i,
    {
        if matches_at(line, opt, i) && (i + 3 == n || line.get_char(i + 3) == ' ') {
            assert(option_word_at(line@, i as int));
            return true;
        }
        if i == n - 3 {
            assert forall|k: int| !#[trigger] option_word_at(line@, k) by {
                if 0 <= k && k + 3 <= n && k != i {
                    assert(k < i);
                }
            }
            return false;
        }
        i = i + 1;
    }
}

/// A fish script line with file completion turned off: a completion line of this command
/// that does not already give `-f` as a word gets it right after the command name. Other
/// lines are kept.
pub open spec fn spec_fish_line(l: Seq<char>) -> Seq<char> {
    if is_fig_completion_line(l) && !has_no_files_option(l) {
        fish_complete_prefix() + " -f"@ + l.skip(fish_complete_prefix().len() as int)
    } else {
        l
    }
}

/// Every completion line of this command comes out with the no-files option, and stays a
/// completion line of this command.
pub proof fn lemma_fish_line_disables_files(l: Seq<char>)
    ensures
        is_fig_completion_line(l) ==> is_fig_completion_line(spec_fish_line(l)),
        is_fig_completion_line(spec_fish_line(l)) ==> has_no_files_option(spec_fish_line(l)),
{
    reveal_strlit("complete -c fig");
    reveal_strlit(" -f");
    let p = fish_complete_prefix();
    let o = spec_fish_line(l);
    if is_fig_completion_line(l) && !has_no_files_option(l) {
        let rest = l.skip(p.len() as int);
        assert(o.take(p.len() as int) =~= p);
        assert(o.subrange(p.len() as int, p.len() + 3 as int) =~= " -f"@);
        assert(o[p.len() as int] == ' ');
        if rest.len() > 0 {
            assert(rest[0] == l[p.len() as int]);
            assert(o[p.len() + 3 as int] == rest[0]);
        }
        assert(option_word_at(o, p.len() as int));
    } else if is_fig_completion_line(o) {
        assert(o == l);
        assert(is_fig_completion_line(l));
    }
}

/// One line of the fish script with file completion turned off.
pub fn fish_line(line: &str) -> (r: String)
    ensures
        r@ == spec_fish_line(line@),
        is_fig_completion_line(r@) ==> has_no_files_option(r@),
{
    proof {
        lemma_fish_line_disables_files(line@);
    }
    let pre = "complete -c fig";
    let n = line.unicode_len();
    let m = pre.unicode_len();
    let fig_line = starts_with(line, pre) && (n == m || line.get_char(m) == ' ');
    if fig_line && !gives_no_files_option(line) {
        let mut r = String::from_str(pre);
        r.append(" -f");
        r.append(line.substring_char(m, n));
        assert(line@.subrange(m as int, n as int) =~= line@.skip(m as int));
        r
    } else {
        String::from_str(line)
    }
}

/// The lines of a generated fish script, each with file completion turned off.
pub fn fish_without_file_completion(lines: &Vec<String>) -> (r: Vec<String>)
    ensures
        r@.len() == lines@.len(),
        forall|i: int| 0 <= i < lines@.len() ==> #[trigger] r@[i]@ == spec_fish_line(lines@[i]@),
        forall|i: int|
            0 <= i < r@.len() && is_fig_completion_line(#[trigger] r@[i]@) ==> has_no_files_option(
                r@[i]@,
            ),
{
    let mut r: Vec<String> = Vec::new();
    let mut i: usize = 0;
    while i < lines.len()
        invariant
            i <= lines@.len(),
            r@.len() == i,
            forall|k: int| 0 <= k < i ==> #[trigger] r@[k]@ == spec_fish_line(lines@[k]@),
            forall|k: int|
                0 <= k < i && is_fig_completion_line(#[trigger] r@[k]@) ==> has_no_files_option(
                    r@[k]@,
                ),
        decreases lines@.len() - i,
    {
        r.push(fish_line(lines[i].as_str()));
        i = i + 1;
    }
    r
}

} // verus!
