use vstd::prelude::*;

verus! {

/// Whether `c` has the Unicode property `White_Space`, which is what
/// `str::trim` goes by. The property's members are fixed by the Unicode
/// character database, so the function is left without a body.
pub uninterp spec fn white_space(c: char) -> bool;

/// `s` without its leading whitespace.
pub open spec fn trimmed_start(s: Seq<char>) -> Seq<char>
    decreases s.len(),
{
    if s.len() > 0 && white_space(s.first()) {
        trimmed_start(s.drop_first())
    } else {
        s
    }
}

/// `s` without its trailing whitespace.
pub open spec fn trimmed_end(s: Seq<char>) -> Seq<char>
    decreases s.len(),
{
    if s.len() > 0 && white_space(s.last()) {
        trimmed_end(s.drop_last())
    } else {
        s
    }
}

/// `s` without its leading and trailing whitespace.
pub open spec fn trimmed(s: Seq<char>) -> Seq<char> {
    trimmed_end(trimmed_start(s))
}

/// Stripping whitespace from the front skips exactly the first `from`
/// characters, when those are whitespace and the next one, if any, is not.
proof fn lemma_trimmed_start(s: Seq<char>, from: int)
    requires
        0 <= from <= s.len(),
        forall|k: int| 0 <= k < from ==> white_space(#[trigger] s[k]),
        from < s.len() ==> !white_space(s[from]),
    ensures
        trimmed_start(s) == s.subrange(from, s.len() as int),
    decreases from,
{
    if from == 0 {
        assert(s.subrange(0, s.len() as int) =~= s);
    } else {
        let rest = s.drop_first();
        assert(white_space(s[0]));
        assert forall|k: int| 0 <= k < from - 1 implies white_space(#[trigger] rest[k]) by {
            assert(rest[k] == s[k + 1]);
        }
        lemma_trimmed_start(rest, from - 1);
        assert(rest.subrange(from - 1, rest.len() as int) =~= s.subrange(from, s.len() as int));
    }
}

/// Stripping whitespace from the back keeps exactly the first `to`
/// characters, when all after them are whitespace and the one before, if
/// any, is not.
proof fn lemma_trimmed_end(s: Seq<char>, to: int)
    requires
        0 <= to <= s.len(),
        forall|k: int| to <= k < s.len() ==> white_space(#[trigger] s[k]),
        0 < to ==> !white_space(s[to - 1]),
    ensures
        trimmed_end(s) == s.subrange(0, to),
    decreases s.len() - to,
{
    if to == s.len() {
        assert(s.subrange(0, to) =~= s);
    } else {
        let rest = s.drop_last();
        assert(white_space(s[s.len() - 1]));
        assert forall|k: int| to <= k < rest.len() implies white_space(#[trigger] rest[k]) by {
            assert(rest[k] == s[k]);
        }
        lemma_trimmed_end(rest, to);
        assert(rest.subrange(0, to) =~= s.subrange(0, to));
    }
}

/// `str::trim`. The standard library documents that it returns the slice
/// with leading and trailing whitespace removed, whitespace being the
/// characters with the Unicode property `White_Space`. The contract says
/// that and no more: the result is a stretch of `s` that neither starts
/// nor ends with whitespace, and all that was left out is whitespace. It is
/// believed, not proved.
#[verifier::external_body]
fn str_trim(s: &str) -> (t: &str)
    ensures
        t@.len() > 0 ==> !white_space(t@.first()) && !white_space(t@.last()),
        exists|from: int|
            0 <= from <= s@.len() - t@.len() && t@ == #[trigger] s@.subrange(from, from + t@.len())
                && (forall|k: int|
                0 <= k < s@.len() && !(from <= k < from + t@.len()) ==> white_space(
                    #[trigger] s@[k],
                )),
{
    s.trim()
}

/// `s` without its leading and trailing whitespace.
pub(crate) fn trim(s: &str) -> (t: &str)
    ensures
        t@ == trimmed(s@),
{
    let t = str_trim(s);
    proof {
        let from = choose|from: int|
            0 <= from <= s@.len() - t@.len() && t@ == #[trigger] s@.subrange(from, from + t@.len())
                && (forall|k: int|
                0 <= k < s@.len() && !(from <= k < from + t@.len()) ==> white_space(
                    #[trigger] s@[k],
                ));
        let to = from + t@.len();
        let len = s@.len() as int;
        if from < to {
            assert(s@[from] == t@.first());
            assert(s@[to - 1] == t@.last());
            lemma_trimmed_start(s@, from);
            let tail = s@.subrange(from, len);
            assert forall|k: int| to - from <= k < tail.len() implies white_space(
                #[trigger] tail[k],
            ) by {
                assert(tail[k] == s@[k + from]);
            }
            assert(tail[to - from - 1] == s@[to - 1]);
            lemma_trimmed_end(tail, to - from);
            assert(tail.subrange(0, to - from) =~= s@.subrange(from, to));
        } else {
            lemma_trimmed_start(s@, len);
            let tail = s@.subrange(len, len);
            lemma_trimmed_end(tail, 0);
            assert(tail.subrange(0, 0) =~= s@.subrange(from, to));
        }
    }
    t
}

/// Whether two strings hold the same characters.
pub(crate) fn same_text(a: &str, b: &str) -> (same: bool)
    ensures
        same == (a@ == b@),
{
    let left: String = a.to_owned();
    let right: String = b.to_owned();
    left == right
}

} // verus!
