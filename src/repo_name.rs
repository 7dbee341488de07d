//! The identity of a repository, derived from its remote address.

use vstd::prelude::*;
use vstd::string::*;

verus! {

/// The text after the last `/` of `s`; all of `s` when it holds none.
pub open spec fn last_segment(s: Seq<char>) -> Seq<char>
    decreases s.len(),
{
    if s.len() == 0 {
        s
    } else if s.last() == '/' {
        Seq::empty()
    } else {
        last_segment(s.drop_last()).push(s.last())
    }
}

pub open spec fn git_suffix() -> Seq<char> {
    seq!['.', 'g', 'i', 't']
}

/// Whether `s` ends with `.git`.
pub open spec fn has_git_suffix(s: Seq<char>) -> bool {
    s.len() >= 4 && s.subrange(s.len() - 4, s.len() as int) == git_suffix()
}

/// `s` with every trailing `.git` removed, one after another.
pub open spec fn strip_git_suffixes(s: Seq<char>) -> Seq<char>
    decreases s.len(),
{
    if has_git_suffix(s) {
        strip_git_suffixes(s.subrange(0, s.len() - 4))
    } else {
        s
    }
}

/// The derived name of a repository: the last path segment of its remote,
/// with trailing `.git` suffixes removed.
pub open spec fn repo_name_of(remote: Seq<char>) -> Seq<char> {
    strip_git_suffixes(last_segment(remote))
}

proof fn lemma_last_segment_no_slash(s: Seq<char>)
    ensures
        !last_segment(s).contains('/'),
    decreases s.len(),
{
    if s.len() > 0 && s.last() != '/' {
        lemma_last_segment_no_slash(s.drop_last());
        let prev = last_segment(s.drop_last());
        assert forall|i: int| 0 <= i < prev.len() + 1 implies prev.push(s.last())[i] != '/' by {
            if i < prev.len() {
                assert(prev[i] != '/');
            }
        }
    }
}

proof fn lemma_last_segment_of_slash_free(s: Seq<char>)
    requires
        !s.contains('/'),
    ensures
        last_segment(s) == s,
    decreases s.len(),
{
    if s.len() > 0 {
        assert(s[s.len() - 1] != '/');
        assert(!s.drop_last().contains('/')) by {
            assert forall|i: int| 0 <= i < s.len() - 1 implies s.drop_last()[i] != '/' by {
                assert(s[i] != '/');
            }
        }
        lemma_last_segment_of_slash_free(s.drop_last());
        assert(s.drop_last().push(s.last()) =~= s);
    }
}

proof fn lemma_strip_is_prefix(s: Seq<char>)
    ensures
        strip_git_suffixes(s).len() <= s.len(),
        strip_git_suffixes(s) == s.subrange(0, strip_git_suffixes(s).len() as int),
        !has_git_suffix(strip_git_suffixes(s)),
    decreases s.len(),
{
    if has_git_suffix(s) {
        let t = s.subrange(0, s.len() - 4);
        lemma_strip_is_prefix(t);
        assert(t.subrange(0, strip_git_suffixes(t).len() as int) =~= s.subrange(
            0,
            strip_git_suffixes(t).len() as int,
        ));
    } else {
        assert(s.subrange(0, s.len() as int) =~= s);
    }
}

/// The derived name never holds a `/`, and deriving it again from the name
/// gives the name back.
pub proof fn lemma_repo_name_idempotent(remote: Seq<char>)
    ensures
        !repo_name_of(remote).contains('/'),
        repo_name_of(repo_name_of(remote)) == repo_name_of(remote),
{
    let seg = last_segment(remote);
    let name = strip_git_suffixes(seg);
    lemma_last_segment_no_slash(remote);
    lemma_strip_is_prefix(seg);
    assert(!name.contains('/')) by {
        assert forall|i: int| 0 <= i < name.len() implies name[i] != '/' by {
            assert(name[i] == seg[i]);
        }
    }
    lemma_last_segment_of_slash_free(name);
}

/// Derives the name under which a repository is shown and looked up.
pub fn extract_repo_name(remote_url: &str) -> (name: String)
    ensures
        name@ == repo_name_of(remote_url@),
{
    let n = remote_url.unicode_len();
    let mut start: usize = 0;
    let mut i: usize = 0;
    while i < n
        invariant
            n == remote_url@.len(),
            start <= i <= n,
            last_segment(remote_url@.take(i as int)) == remote_url@.subrange(start as int, i as int),
        decreases n - i,
    {
        let c = remote_url.get_char(i);
        assert(remote_url@.take(i + 1).drop_last() =~= remote_url@.take(i as int));
        if c == '/' {
            start = i + 1;
        } else {
            assert(remote_url@.subrange(start as int, i as int).push(c) =~= remote_url@.subrange(
                start as int,
                i + 1,
            ));
        }
        i = i + 1;
    }
    assert(remote_url@.take(n as int) =~= remote_url@);
    let ghost seg = remote_url@.subrange(start as int, n as int);
    let mut end: usize = n;
    while end - start >= 4 && remote_url.get_char(end - 4) == '.' && remote_url.get_char(end - 3)
        == 'g' && remote_url.get_char(end - 2) == 'i' && remote_url.get_char(end - 1) == 't'
        invariant
            n == remote_url@.len(),
            start <= end <= n,
            seg == remote_url@.subrange(start as int, n as int),
            strip_git_suffixes(remote_url@.subrange(start as int, end as int))
                == strip_git_suffixes(seg),
        decreases end,
    {
        let ghost cur = remote_url@.subrange(start as int, end as int);
        assert(cur.subrange(cur.len() - 4, cur.len() as int) =~= git_suffix());
        assert(cur.subrange(0, cur.len() - 4) =~= remote_url@.subrange(start as int, end - 4));
        end = end - 4;
    }
    let ghost cur = remote_url@.subrange(start as int, end as int);
    if end - start >= 4 {
        assert(cur.subrange(cur.len() - 4, cur.len() as int) != git_suffix()) by {
            let tail = cur.subrange(cur.len() - 4, cur.len() as int);
            if tail == git_suffix() {
                assert(tail[0] == remote_url@[end - 4]);
                assert(tail[1] == remote_url@[end - 3]);
                assert(tail[2] == remote_url@[end - 2]);
                assert(tail[3] == remote_url@[end - 1]);
            }
        }
    }
    String::from_str(remote_url.substring_char(start, end))
}

} // verus!
