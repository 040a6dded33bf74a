use crate::error::ClipboardError;
use vstd::prelude::*;
use vstd::string::StrSliceExecFns;

verus! {

/// Whether a path begins with the Windows extended-length marker `\\?\`.
///
/// Canonical Windows paths carry this marker; it is stripped before paths
/// are handed back to callers, so that the results work with ordinary path
/// APIs.
pub open spec fn has_extended_prefix(s: Seq<char>) -> bool {
    s.len() >= 4 && s[0] == '\\' && s[1] == '\\' && s[2] == '?' && s[3] == '\\'
}

/// The path with a leading extended-length marker removed, if one is
/// present; otherwise the path unchanged.
pub open spec fn strip_spec(s: Seq<char>) -> Seq<char> {
    if has_extended_prefix(s) {
        s.subrange(4, s.len() as int)
    } else {
        s
    }
}

/// Remove a leading Windows extended-length marker (`\\?\`) from a path.
///
/// A path without the marker is returned unchanged; stripping never fails.
pub fn strip_prefix(p: String) -> (r: String)
    ensures
        r@ == strip_spec(p@),
{
    let s = p.as_str();
    let n = s.unicode_len();
    if n >= 4 && s.get_char(0) == '\\' && s.get_char(1) == '\\' && s.get_char(2) == '?'
        && s.get_char(3) == '\\' {
        let rest = s.substring_char(4, n);
        rest.to_owned()
    } else {
        p
    }
}

/// Whether every entry of a batch of resolution outcomes resolved.
///
/// An entry is the outcome of resolving one path against the filesystem:
/// `Some` of the canonical absolute form, or `None` when the path does not
/// resolve (for instance, because it names nothing that exists).
pub open spec fn all_resolved(rs: Seq<Option<Seq<char>>>) -> bool {
    forall|i: int| 0 <= i < rs.len() ==> rs[i] is Some
}

/// The canonical forms of a fully resolved batch, each with its
/// extended-length marker stripped, in the order of the batch.
pub open spec fn stripped_all(rs: Seq<Option<Seq<char>>>) -> Seq<Seq<char>> {
    Seq::new(rs.len(), |i: int| strip_spec(rs[i].unwrap()))
}

/// The canonical forms of the entries of a batch that resolved, each with
/// its extended-length marker stripped; entries that did not resolve are
/// dropped, and the order of the rest is kept.
pub open spec fn filtered(rs: Seq<Option<Seq<char>>>) -> Seq<Seq<char>>
    decreases rs.len(),
{
    if rs.len() == 0 {
        Seq::<Seq<char>>::empty()
    } else {
        filtered(rs.drop_last()) + (match rs.last() {
            Option::Some(c) => seq![strip_spec(c)],
            Option::None => Seq::<Seq<char>>::empty(),
        })
    }
}

/// The all-or-nothing write batch.
///
/// `rs` holds, for each path handed to a write, the outcome of resolving it
/// against the filesystem (`Some` canonical absolute form, `None` when it
/// does not resolve). If every entry resolved, the result is the canonical
/// list with extended-length markers stripped, in the given order. If any
/// single entry failed, the whole batch is rejected with `NoExist` and no
/// partial result is surfaced. An empty batch resolves trivially and is
/// accepted: the native write then replaces the clipboard with an empty
/// file list.
pub fn canonicalize_all(rs: Vec<Option<String>>) -> (out: Result<
    Vec<String>,
    ClipboardError,
>)
    ensures
        out is Ok <==> all_resolved(rs.deep_view()),
        out is Ok ==> out->Ok_0.deep_view() == stripped_all(rs.deep_view()),
        out is Err ==> out->Err_0 == ClipboardError::NoExist,
{
    let ghost dv = rs.deep_view();
    let mut stripped: Vec<String> = Vec::new();
    let mut i: usize = 0;
    while i < rs.len()
        invariant
            i <= rs.len(),
            dv == rs.deep_view(),
            dv.len() == rs.len(),
            forall|j: int| 0 <= j < i ==> dv[j] is Some,
            stripped.deep_view() == stripped_all(dv.take(i as int)),
        decreases rs.len() - i,
    {
        let ghost prev = stripped.deep_view();
        match &rs[i] {
            Option::Some(s) => {
                let r = strip_prefix(s.clone());
                stripped.push(r);
                proof {
                    assert(stripped.deep_view() =~= prev.push(r@));
                    assert(stripped_all(dv.take(i + 1)) =~= prev.push(r@));
                }
            },
            Option::None => {
                assert(dv[i as int] is None);
                return Result::Err(ClipboardError::NoExist);
            },
        }
        i += 1;
    }
    proof {
        assert(dv.take(rs.len() as int) =~= dv);
    }
    Result::Ok(stripped)
}

/// The best-effort read filter.
///
/// `rs` holds, for each path found on the clipboard, the outcome of
/// resolving it against the filesystem. Entries that resolved appear in the
/// result in their canonical form with extended-length markers stripped;
/// entries that did not — files deleted since they were placed on the
/// clipboard — are silently dropped. Order is kept. The result is empty
/// only when every entry failed to resolve; no error is ever raised.
pub fn canonicalize_and_filter(rs: Vec<Option<String>>) -> (out: Vec<String>)
    ensures
        out.deep_view() == filtered(rs.deep_view()),
{
    let ghost dv = rs.deep_view();
    let mut out: Vec<String> = Vec::new();
    let mut i: usize = 0;
    while i < rs.len()
        invariant
            i <= rs.len(),
            dv == rs.deep_view(),
            dv.len() == rs.len(),
            out.deep_view() == filtered(dv.take(i as int)),
        decreases rs.len() - i,
    {
        let ghost prev = out.deep_view();
        proof {
            assert(dv.take(i + 1).drop_last() =~= dv.take(i as int));
        }
        match &rs[i] {
            Option::Some(s) => {
                let r = strip_prefix(s.clone());
                out.push(r);
                proof {
                    assert(out.deep_view() =~= prev.push(r@));
                    assert(filtered(dv.take(i + 1)) =~= prev.push(r@));
                }
            },
            Option::None => {
                proof {
                    assert(filtered(dv.take(i + 1)) =~= prev);
                }
            },
        }
        i += 1;
    }
    proof {
        assert(dv.take(rs.len() as int) =~= dv);
    }
    out
}

/// On a fully resolved batch the read-path filter and the write-path batch
/// agree: the filter drops nothing, and both keep the order of the batch.
pub proof fn lemma_filtered_agrees_when_all_resolved(rs: Seq<Option<Seq<char>>>)
    requires
        all_resolved(rs),
    ensures
        filtered(rs) == stripped_all(rs),
    decreases rs.len(),
{
    if rs.len() == 0 {
        assert(filtered(rs) =~= stripped_all(rs));
    } else {
        assert(all_resolved(rs.drop_last())) by {
            assert(forall|i: int|
                0 <= i < rs.drop_last().len() ==> rs.drop_last()[i] == rs[i]);
        }
        lemma_filtered_agrees_when_all_resolved(rs.drop_last());
        assert(filtered(rs) =~= stripped_all(rs));
    }
}

/// The round trip: a written list, read back, is the written list.
///
/// `rs` are the resolution outcomes of the paths handed to a write; `back`
/// are the outcomes of resolving, at read time, the very paths that write
/// placed on the clipboard, entry by entry. When every written path still
/// resolves at read time to a canonical form that strips back to the path
/// that was written, the read returns exactly the written list, in order.
pub proof fn lemma_round_trip(rs: Seq<Option<Seq<char>>>, back: Seq<Option<Seq<char>>>)
    requires
        all_resolved(rs),
        back.len() == rs.len(),
        forall|i: int|
            0 <= i < back.len() ==> #[trigger] back[i] is Some && strip_spec(back[i].unwrap())
                == stripped_all(rs)[i],
    ensures
        filtered(back) == stripped_all(rs),
{
    lemma_filtered_agrees_when_all_resolved(back);
    assert(filtered(back) =~= stripped_all(rs));
}

/// Stripping the extended-length marker is idempotent on any path that is
/// not doubly marked: stripping twice is stripping once.
pub proof fn lemma_strip_idempotent(s: Seq<char>)
    requires
        !(has_extended_prefix(s) && has_extended_prefix(s.subrange(4, s.len() as int))),
    ensures
        strip_spec(strip_spec(s)) == strip_spec(s),
{
}

} // verus!
