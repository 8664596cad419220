//! Picking a branch's latest commit out of a remote's advertised references.

use vstd::prelude::*;
use vstd::string::*;

use crate::config::Duration;
use crate::domain::commit_hash::{commit_hash_error, valid_commit_hash};
use crate::domain::CommitHash;
use crate::polling::error::CommitHashError;
use crate::text::int_decimal;

verus! {

/// A reference advertised by a remote: its full name and the object it
/// points at, as hexadecimal text, when it points at one.
#[derive(Debug, Clone, PartialEq, Eq)]
pub struct RemoteRef {
    /// The reference's name, such as `refs/heads/main`.
    pub name: String,
    /// The object ID the reference points at.
    pub target: Option<String>,
}

/// The reference `name` designates `branch`: it is the branch's own name,
/// or its head, or a tag of that name.
pub open spec fn designates(name: Seq<char>, branch: Seq<char>) -> bool {
    name == branch || name == "refs/heads/"@ + branch || name == "refs/tags/"@ + branch
}

/// A head or tag reference designates only the branch it is named after:
/// `refs/heads/x` and `refs/tags/x` designate `x` (and the branch whose
/// whole name they are), never another branch, whatever their names share.
pub proof fn lemma_only_named_refs_designate(x: Seq<char>, branch: Seq<char>)
    ensures
        designates("refs/heads/"@ + x, branch) <==> (x == branch || "refs/heads/"@ + x
            == branch),
        designates("refs/tags/"@ + x, branch) <==> (x == branch || "refs/tags/"@ + x
            == branch),
        designates(branch, branch),
{
    reveal_strlit("refs/heads/");
    reveal_strlit("refs/tags/");
    let h = "refs/heads/"@;
    let t = "refs/tags/"@;
    if h + x == h + branch {
        assert(x =~= (h + x).subrange(h.len() as int, (h + x).len() as int));
        assert(branch =~= (h + branch).subrange(h.len() as int, (h + branch).len() as int));
    }
    if t + x == t + branch {
        assert(x =~= (t + x).subrange(t.len() as int, (t + x).len() as int));
        assert(branch =~= (t + branch).subrange(t.len() as int, (t + branch).len() as int));
    }
    if h + x == t + branch {
        assert((h + x)[5] == 'h');
        assert((t + branch)[5] == 't');
    }
    if t + x == h + branch {
        assert((t + x)[5] == 't');
        assert((h + branch)[5] == 'h');
    }
}

/// The index of the first reference that designates `branch`, if any.
pub open spec fn first_designating(refs: Seq<RemoteRef>, branch: Seq<char>, k: int) -> bool {
    0 <= k < refs.len() && designates(refs[k].name@, branch) && forall|j: int|
        0 <= j < k ==> !designates(#[trigger] refs[j].name@, branch)
}

/// Whether `name` designates `branch`.
fn designates_exec(name: &str, branch: &str, head: &str, tag: &str) -> (r: bool)
    requires
        head@ == "refs/heads/"@ + branch@,
        tag@ == "refs/tags/"@ + branch@,
    ensures
        r == designates(name@, branch@),
{
    crate::text::same_text(name, branch) || crate::text::same_text(name, head)
        || crate::text::same_text(name, tag)
}

/// The latest commit of `branch` among the references a remote advertised:
/// the target of the first reference that designates the branch, which must
/// be a valid commit hash.
pub fn latest_hash_from_refs(refs: &Vec<RemoteRef>, branch: &str) -> (r: Result<
    CommitHash,
    CommitHashError,
>)
    ensures
        (forall|j: int| 0 <= j < refs@.len() ==> !designates(#[trigger] refs@[j].name@, branch@))
            ==> r == Err::<CommitHash, CommitHashError>(
            CommitHashError::Git(r->Err_0->Git_0),
        ) && r->Err_0->Git_0@ == "Branch not found"@,
        forall|k: int|
            #[trigger] first_designating(refs@, branch@, k) ==> match refs@[k].target {
                None => r is Err && r->Err_0 is Git && r->Err_0->Git_0@ == "Hash not found for branch"@,
                Some(t) => if valid_commit_hash(t@) {
                    r is Ok && r->Ok_0@ == t@
                } else {
                    r is Err && r->Err_0 is Validation && r->Err_0->Validation_0.message()
                        == commit_hash_error(t@)
                },
            },
        r is Ok ==> exists|k: int|
            0 <= k < refs@.len() && (#[trigger] refs@[k]).target is Some
                && refs@[k].target->0@ == r->Ok_0@ && (refs@[k].name@ == branch@
                || refs@[k].name@ == "refs/heads/"@ + branch@ || refs@[k].name@ == "refs/tags/"@
                + branch@) && forall|j: int|
                0 <= j < k ==> !(refs@[j].name@ == branch@ || refs@[j].name@ == "refs/heads/"@
                    + branch@ || refs@[j].name@ == "refs/tags/"@ + branch@),
{
    let head = String::from_str("refs/heads/").concat(branch);
    let tag = String::from_str("refs/tags/").concat(branch);
    let mut i: usize = 0;
    while i < refs.len()
        invariant
            head@ == "refs/heads/"@ + branch@,
            tag@ == "refs/tags/"@ + branch@,
            i <= refs@.len(),
            forall|j: int| 0 <= j < i ==> !designates(#[trigger] refs@[j].name@, branch@),
        decreases refs@.len() - i,
    {
        if designates_exec(refs[i].name.as_str(), branch, head.as_str(), tag.as_str()) {
            proof {
                assert(first_designating(refs@, branch@, i as int));
                assert forall|k: int| #[trigger] first_designating(refs@, branch@, k) implies k
                    == i by {
                    if k < i {
                        assert(!designates(refs@[k].name@, branch@));
                    } else if k > i {
                        assert(!designates(refs@[i as int].name@, branch@));
                    }
                }
                assert forall|j: int| 0 <= j < i implies !(refs@[j].name@ == branch@
                    || refs@[j].name@ == "refs/heads/"@ + branch@ || refs@[j].name@
                    == "refs/tags/"@ + branch@) by {
                    assert(!designates(refs@[j].name@, branch@));
                }
            }
            return match &refs[i].target {
                None => Err(CommitHashError::Git(String::from_str("Hash not found for branch"))),
                Some(t) => match CommitHash::new(t.clone()) {
                    Ok(h) => Ok(h),
                    Err(e) => Err(CommitHashError::Validation(e)),
                },
            };
        }
        i = i + 1;
    }
    proof {
        assert forall|k: int| !#[trigger] first_designating(refs@, branch@, k) by {
            if 0 <= k < refs@.len() {
                assert(!designates(refs@[k].name@, branch@));
            }
        }
    }
    Err(CommitHashError::Git(String::from_str("Branch not found")))
}

/// The position of the first `c` in `s` at or after `from`, or the length
/// of `s` when there is none.
pub open spec fn next_index_of(s: Seq<char>, c: char, from: int) -> int
    decreases s.len() - from,
{
    if from >= s.len() {
        s.len() as int
    } else if s[from] == c {
        from
    } else {
        next_index_of(s, c, from + 1)
    }
}

/// The search never goes backwards, and stops at the end of the text.
pub proof fn lemma_next_index_of_bounds(s: Seq<char>, c: char, from: int)
    requires
        from <= s.len(),
    ensures
        from <= next_index_of(s, c, from) <= s.len(),
        next_index_of(s, c, from) < s.len() ==> s[next_index_of(s, c, from)] == c,
    decreases s.len() - from,
{
    if from < s.len() && s[from] != c {
        lemma_next_index_of_bounds(s, c, from + 1);
    }
}

/// The search finds `c` at `m` when it occurs there and nowhere between
/// `from` and `m`.
pub proof fn lemma_next_index_of_finds(s: Seq<char>, c: char, from: int, m: int)
    requires
        0 <= from <= m < s.len(),
        s[m] == c,
        forall|j: int| from <= j < m ==> s[j] != c,
    ensures
        next_index_of(s, c, from) == m,
    decreases m - from,
{
    if from < m {
        lemma_next_index_of_finds(s, c, from + 1, m);
    }
}

/// A line without the carriage return that may end it.
pub open spec fn without_cr(line: Seq<char>) -> Seq<char> {
    if line.len() > 0 && line.last() == '\r' {
        line.drop_last()
    } else {
        line
    }
}

/// The reference that a line of `git ls-remote` output lists, as its
/// object ID and its name: the text before the first tab and the text
/// after it. A line without a tab lists none.
pub open spec fn line_ref(line: Seq<char>) -> Option<(Seq<char>, Seq<char>)> {
    let l = without_cr(line);
    let t = next_index_of(l, '\t', 0);
    if t < l.len() {
        Some((l.subrange(0, t), l.subrange(t + 1, l.len() as int)))
    } else {
        None
    }
}

/// The references listed by the lines of `text` that start at or after
/// `from`, in order; lines are separated by `\n`.
pub open spec fn listed_refs(text: Seq<char>, from: int) -> Seq<(Seq<char>, Seq<char>)>
    decreases text.len() - from,
{
    if from >= text.len() {
        Seq::empty()
    } else {
        let end = next_index_of(text, '\n', from);
        proof {
            lemma_next_index_of_bounds(text, '\n', from);
        }
        let rest = if end < text.len() {
            listed_refs(text, end + 1)
        } else {
            Seq::empty()
        };
        match line_ref(text.subrange(from, end)) {
            Some(r) => seq![r] + rest,
            None => rest,
        }
    }
}

/// A reference as an object ID and a name.
pub open spec fn ref_view(r: RemoteRef) -> (Seq<char>, Seq<char>) {
    (
        match r.target {
            Some(t) => t@,
            None => Seq::empty(),
        },
        r.name@,
    )
}

/// The position of the first `c` in `s` at or after `from`, or the length
/// of `s` when there is none.
fn next_index(s: &str, c: char, from: usize) -> (r: usize)
    requires
        from <= s@.len(),
    ensures
        r == next_index_of(s@, c, from as int),
{
    let n = s.unicode_len();
    let mut i = from;
    while i < n
        invariant
            n == s@.len(),
            from <= i <= n,
            next_index_of(s@, c, from as int) == next_index_of(s@, c, i as int),
        decreases n - i,
    {
        if s.get_char(i) == c {
            return i;
        }
        i = i + 1;
    }
    i
}

/// `s` without the carriage return that may end it.
fn strip_cr(s: &str) -> (r: &str)
    ensures
        r@ == without_cr(s@),
{
    let n = s.unicode_len();
    if n > 0 && s.get_char(n - 1) == '\r' {
        s.substring_char(0, n - 1)
    } else {
        s
    }
}

/// The references that `git ls-remote` prints, one `<object id>\t<name>`
/// line each, in order; lines without a tab are skipped.
pub fn parse_ls_remote(text: &str) -> (refs: Vec<RemoteRef>)
    ensures
        refs@.map_values(|r: RemoteRef| ref_view(r)) == listed_refs(text@, 0),
        forall|i: int| 0 <= i < refs@.len() ==> (#[trigger] refs@[i]).target is Some,
{
    let n = text.unicode_len();
    let mut out: Vec<RemoteRef> = Vec::new();
    let mut pos: usize = 0;
    while pos < n
        invariant
            n == text@.len(),
            pos <= n,
            out@.map_values(|r: RemoteRef| ref_view(r)) + listed_refs(text@, pos as int)
                == listed_refs(text@, 0),
            forall|i: int| 0 <= i < out@.len() ==> (#[trigger] out@[i]).target is Some,
        decreases n - pos,
    {
        let end = next_index(text, '\n', pos);
        proof {
            lemma_next_index_of_bounds(text@, '\n', pos as int);
        }
        let raw = text.substring_char(pos, end);
        let line = strip_cr(raw);
        let len = line.unicode_len();
        let t = next_index(line, '\t', 0);
        proof {
            lemma_next_index_of_bounds(line@, '\t', 0);
        }
        let ghost before = out@;
        if t < len {
            let id = line.substring_char(0, t);
            let name = line.substring_char(t + 1, len);
            out.push(
                RemoteRef { name: String::from_str(name), target: Some(String::from_str(id)) },
            );
        }
        let next = if end < n {
            end + 1
        } else {
            n
        };
        proof {
            assert(out@.map_values(|r: RemoteRef| ref_view(r)) + listed_refs(text@, next as int)
                =~= before.map_values(|r: RemoteRef| ref_view(r)) + listed_refs(text@, pos as int));
        }
        pos = next;
    }
    out
}

/// A git configuration setting: its key and its value.
#[derive(Debug, Clone, PartialEq, Eq)]
pub struct GitSetting {
    /// The configuration key.
    pub key: String,
    /// The value set.
    pub value: String,
}

/// The number of whole seconds after which a stalled transfer or a
/// connection attempt is given up: those of the timeout, and at least one.
pub open spec fn stall_secs(timeout_nanos: nat) -> nat {
    let secs = timeout_nanos / 1_000_000_000;
    if secs >= 1 {
        secs
    } else {
        1
    }
}

/// The settings under which remotes are queried: a transfer slower than
/// one byte per second for `stall_secs` seconds is aborted
/// (`http.lowSpeedLimit`, `http.lowSpeedTime`), and so is a connection
/// that takes longer (`http.connectTimeout`).
pub fn fetch_settings(timeout: &Duration) -> (v: Vec<GitSetting>)
    ensures
        v@.len() == 3,
        v@[0].key@ == "http.lowSpeedLimit"@,
        v@[0].value@ == "1"@,
        v@[1].key@ == "http.lowSpeedTime"@,
        v@[1].value@ == int_decimal(stall_secs(timeout@) as int),
        v@[2].key@ == "http.connectTimeout"@,
        v@[2].value@ == int_decimal(stall_secs(timeout@) as int),
{
    let whole = timeout.as_secs();
    let secs = if whole >= 1 {
        whole
    } else {
        1
    };
    let mut v: Vec<GitSetting> = Vec::new();
    v.push(
        GitSetting { key: String::from_str("http.lowSpeedLimit"), value: String::from_str("1") },
    );
    v.push(
        GitSetting {
            key: String::from_str("http.lowSpeedTime"),
            value: crate::external::decimal_string(secs as i128),
        },
    );
    v.push(
        GitSetting {
            key: String::from_str("http.connectTimeout"),
            value: crate::external::decimal_string(secs as i128),
        },
    );
    v
}

} // verus!
