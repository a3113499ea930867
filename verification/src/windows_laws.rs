//! What holds of Windows paths when they are cut short or grow by a name:
//! taking the parent takes one name off, and a name that is joined lies in
//! the path it was joined to.

use crate::windows_path::{
    lacks_share, lies_directly_in, with_backslashes,
    body_start, depth, has_leading_dot, has_physical_root, has_root, has_unc_marker,
    has_verbatim_marker, has_device_marker, has_drive_at, is_absolute, is_name, is_plain_name,
    is_separator, join_name, last_name_end, lemma_last_name_end_bounds,
    lemma_name_end_bounds, lemma_name_start_bounds, lemma_name_start_of_run, lemma_prefix_len_bounds, name_end,
    name_start, names, names_in, parent, prefix_kind, prefix_len, separates, trimmed, PrefixKind,
};
use vstd::prelude::*;

verus! {

/// In a path cut at `k`, a name ends where it ended before, or at the cut.
pub proof fn lemma_name_end_of_truncated(p: Seq<char>, k: int, from: int, verbatim: bool)
    requires
        0 <= from <= k <= p.len(),
    ensures
        name_end(p.take(k), from, verbatim) == if name_end(p, from, verbatim) <= k {
            name_end(p, from, verbatim)
        } else {
            k
        },
    decreases k - from,
{
    lemma_name_end_bounds(p, from, verbatim);
    if from < k && !separates(p[from], verbatim) {
        lemma_name_end_of_truncated(p, k, from + 1, verbatim);
    }
}

/// A path cut at or after the end of its prefix keeps that prefix.
pub proof fn lemma_prefix_of_truncated(p: Seq<char>, k: int)
    requires
        prefix_len(p) <= k <= p.len(),
    ensures
        prefix_kind(p.take(k)) == prefix_kind(p),
        prefix_len(p.take(k)) == prefix_len(p),
{
    if has_verbatim_marker(p) {
        if has_unc_marker(p) {
            lemma_name_end_bounds(p, 8, true);
            lemma_name_end_of_truncated(p, k, 8, true);
            let server_end = name_end(p, 8, true);
            if server_end < k {
                lemma_name_end_of_truncated(p, k, server_end + 1, true);
            }
        } else {
            lemma_name_end_bounds(p, 4, true);
            lemma_name_end_of_truncated(p, k, 4, true);
            if has_drive_at(p, 4) && !(p.len() == 6 || is_separator(p[6])) {
                // the name after the marker is longer than a drive
            }
        }
    } else if p.len() >= 2 && is_separator(p[0]) && is_separator(p[1]) {
        if has_device_marker(p) {
            lemma_name_end_bounds(p, 4, false);
            lemma_name_end_of_truncated(p, k, 4, false);
        } else if k >= 2 {
            lemma_name_end_bounds(p, 2, false);
            lemma_name_end_of_truncated(p, k, 2, false);
            let server_end = name_end(p, 2, false);
            if server_end < k {
                lemma_name_end_of_truncated(p, k, server_end + 1, false);
            }
        }
    }
}

/// What is read of the names before `end` does not depend on what follows
/// `end`.
pub proof fn lemma_names_of_truncated(p: Seq<char>, k: int, start: int, end: int, verbatim: bool)
    requires
        0 <= start <= end <= k <= p.len(),
    ensures
        name_start(p.take(k), start, end, verbatim) == name_start(p, start, end, verbatim),
        last_name_end(p.take(k), start, end, verbatim) == last_name_end(p, start, end, verbatim),
        names_in(p.take(k), start, end, verbatim) == names_in(p, start, end, verbatim),
    decreases end - start, 2int,
{
    lemma_name_start_of_truncated(p, k, start, end, verbatim);
    lemma_name_start_bounds(p, start, end, verbatim);
    if end > start {
        let from = name_start(p, start, end, verbatim);
        if is_name(p, from, end, verbatim) {
            lemma_names_of_truncated(p, k, start, from, verbatim);
            assert(p.take(k).subrange(from, end) =~= p.subrange(from, end));
        } else {
            lemma_names_of_truncated(p, k, start, end - 1, verbatim);
        }
    }
}

/// Where a name starts does not depend on what follows its end.
pub proof fn lemma_name_start_of_truncated(
    p: Seq<char>,
    k: int,
    start: int,
    end: int,
    verbatim: bool,
)
    requires
        0 <= start <= end <= k <= p.len(),
    ensures
        name_start(p.take(k), start, end, verbatim) == name_start(p, start, end, verbatim),
    decreases end - start, 1int,
{
    if end > start && !separates(p[end - 1], verbatim) {
        lemma_name_start_of_truncated(p, k, start, end - 1, verbatim);
    }
}

/// What follows the last name adds no name: the names of `p[start..end]`
/// are those up to the end of its last name, and there is a last name
/// exactly where there is a name at all.
pub proof fn lemma_name_count_up_to_last(p: Seq<char>, start: int, end: int, verbatim: bool)
    requires
        0 <= start <= end <= p.len(),
    ensures
        names_in(p, start, end, verbatim) == names_in(
            p,
            start,
            last_name_end(p, start, end, verbatim),
            verbatim,
        ),
        last_name_end(p, start, end, verbatim) > start <==> names_in(p, start, end, verbatim).len() > 0,
    decreases end - start,
{
    if end > start && !is_name(p, name_start(p, start, end, verbatim), end, verbatim) {
        lemma_name_count_up_to_last(p, start, end - 1, verbatim);
    }
}

/// Taking the parent takes one name off: a path has a parent exactly where
/// its depth is not zero, and the parent is less deep by one. The parent
/// keeps the prefix and the root, so it is absolute exactly where the path
/// is, and nothing follows its last name.
pub proof fn lemma_parent_depth(p: Seq<char>)
    ensures
        parent(p) is Some <==> depth(p) > 0,
        parent(p) matches Some(q) ==> {
            &&& depth(q) + 1 == depth(p)
            &&& prefix_kind(q) == prefix_kind(p)
            &&& has_physical_root(q) == has_physical_root(p)
            &&& is_absolute(q) == is_absolute(p)
            &&& lacks_share(q) == lacks_share(p)
            &&& trimmed(q) == q
        },
{
    let verbatim = prefix_kind(p).is_verbatim();
    let start = body_start(p);
    let len = p.len() as int;
    lemma_prefix_len_bounds(p);
    lemma_name_count_up_to_last(p, start, len, verbatim);
    lemma_last_name_end_bounds(p, start, len, verbatim);
    let end = last_name_end(p, start, len, verbatim);
    if end > start {
        let from = name_start(p, start, end, verbatim);
        lemma_name_start_bounds(p, start, end, verbatim);
        let cut = if from > start {
            from - 1
        } else {
            start
        };
        // the name that ends at `end` is taken off, with the separator before it
        assert(names_in(p, start, from, verbatim) == names_in(p, start, cut, verbatim));
        lemma_name_count_up_to_last(p, start, cut, verbatim);
        lemma_last_name_end_bounds(p, start, cut, verbatim);
        let kept = last_name_end(p, start, cut, verbatim);
        lemma_body_start_of_truncated(p, kept);
        lemma_names_of_truncated(p, kept, start, kept, verbatim);
    }
}

/// A path cut at its body's start, or at the end of a name of its body,
/// keeps its prefix, its root and its leading dot.
pub proof fn lemma_body_start_of_truncated(p: Seq<char>, k: int)
    requires
        body_start(p) <= k <= p.len(),
        k == body_start(p) || is_name(
            p,
            name_start(p, body_start(p), k, prefix_kind(p).is_verbatim()),
            k,
            prefix_kind(p).is_verbatim(),
        ),
    ensures
        prefix_kind(p.take(k)) == prefix_kind(p),
        prefix_len(p.take(k)) == prefix_len(p),
        has_physical_root(p.take(k)) == has_physical_root(p),
        has_leading_dot(p.take(k)) == has_leading_dot(p),
        body_start(p.take(k)) == body_start(p),
        is_absolute(p.take(k)) == is_absolute(p),
        lacks_share(p.take(k)) == lacks_share(p),
{
    if prefix_kind(p) is VerbatimUnc {
        // the server and the share lie before the cut
        lemma_name_end_bounds(p, 8, true);
        lemma_name_end_of_truncated(p, k, 8, true);
    }
    lemma_prefix_len_bounds(p);
    lemma_prefix_of_truncated(p, k);
    let at = prefix_len(p);
    if !has_root(p) && at < p.len() && p[at] == '.' && !has_leading_dot(p) && k == at + 1 {
        // a lone dot would be cut out of a longer name, and it is no name
        assert(name_start(p, at, at + 1, false) == at) by {
            assert(name_start(p, at, at, false) == at);
        }
    }
}

/// Joining a plain name to an absolute path gives an absolute path.
pub proof fn lemma_join_name_absolute(base: Seq<char>, name: Seq<char>)
    requires
        is_absolute(base),
        is_plain_name(name),
    ensures
        is_absolute(join_name(base, name)),
{
    let joined = join_name(base, name);
    lemma_prefix_len_bounds(base);
    if has_verbatim_marker(base) {
        // the marker is kept, and every path that opens with it is absolute
        lemma_name_end_bounds(base, 4, true);
        if has_unc_marker(base) {
            lemma_name_end_bounds(base, 8, true);
        }
    } else {
        let len = base.len() as int;
        assert(forall|i: int| 0 <= i < len ==> joined[i] == base[i]);
        if prefix_kind(base) is Unc {
            // the server and the share end where they ended
            lemma_name_end_bounds(base, 2, false);
            let server_end = name_end(base, 2, false);
            lemma_name_end_bounds(joined, 2, false);
            lemma_name_end_bounds(joined, server_end + 2, false);
            assert(name_end(joined, server_end + 1, false) == name_end(
                joined,
                server_end + 2,
                false,
            ));
        }
    }
}

/// An absolute path that has a parent has a separator after its prefix.
pub proof fn lemma_absolute_with_parent_has_physical_root(p: Seq<char>)
    requires
        is_absolute(p),
        parent(p) is Some,
    ensures
        has_physical_root(p),
{
    match prefix_kind(p) {
        PrefixKind::Unc => {
            lemma_name_end_bounds(p, name_end(p, 2, false) + 1, false);
        },
        PrefixKind::Device => {
            lemma_name_end_bounds(p, 4, false);
        },
        PrefixKind::Verbatim => {
            lemma_name_end_bounds(p, 4, true);
        },
        PrefixKind::VerbatimUnc => {
            lemma_name_end_bounds(p, 8, true);
            if name_end(p, 8, true) < p.len() {
                lemma_name_end_bounds(p, name_end(p, 8, true) + 1, true);
            }
        },
        _ => {},
    }
}

/// Whether a path is read as before once a name is joined to it. A
/// verbatim path is, where a separator follows its prefix and the prefix
/// lacks no share. Any other path is, where it is absolute with a separator
/// after its prefix, or at least two names deep. A path that is not settled
/// may be read anew with the name: in `\\server` a name follows a root, and
/// `\\server\Plugins` is a share.
pub open spec fn is_settled(base: Seq<char>) -> bool {
    if prefix_kind(base).is_verbatim() {
        has_physical_root(base) && !lacks_share(base)
    } else {
        (is_absolute(base) && has_physical_root(base)) || depth(base) >= 2
    }
}

/// A settled path that is not verbatim keeps its prefix, its root and its
/// leading dot when a plain name is joined to it.
pub proof fn lemma_joined_keeps_shape(base: Seq<char>, name: Seq<char>)
    requires
        is_plain_name(name),
        is_settled(base),
        !prefix_kind(base).is_verbatim(),
    ensures
        prefix_kind(join_name(base, name)) == prefix_kind(base),
        prefix_len(join_name(base, name)) == prefix_len(base),
        has_physical_root(join_name(base, name)) == has_physical_root(base),
        has_leading_dot(join_name(base, name)) == has_leading_dot(base),
        body_start(join_name(base, name)) == body_start(base),
{
    let joined = join_name(base, name);
    let len = base.len() as int;
    let start = body_start(base);
    lemma_prefix_len_bounds(base);
    assert(joined.take(len) =~= base);
    // a path that is two names deep has a name in its body
    lemma_name_count_up_to_last(base, start, len, false);
    lemma_last_name_end_bounds(base, start, len, false);
    let last = last_name_end(base, start, len, false);
    lemma_name_start_bounds(base, start, last, false);
    match prefix_kind(base) {
        PrefixKind::Unc => {
            // the prefix ends at a separator of the path, so it ends there still
            let server_end = name_end(base, 2, false);
            lemma_name_end_of_truncated(joined, len, 2, false);
            lemma_name_end_of_truncated(joined, len, server_end + 1, false);
        },
        PrefixKind::Device => {
            lemma_name_end_of_truncated(joined, len, 4, false);
        },
        PrefixKind::Absent => {
            if len >= 2 && is_separator(base[0]) && is_separator(base[1]) {
                // two names follow the two separators, and a separator divides them
                let from = name_start(base, start, last, false);
                lemma_name_count_up_to_last(base, start, from, false);
                lemma_last_name_end_bounds(base, start, from, false);
                lemma_name_end_bounds(base, 2, false);
                let server_end = name_end(base, 2, false);
                lemma_name_end_of_truncated(joined, len, 2, false);
                if server_end > 2 {
                    // no share was named, and none is named now
                    lemma_name_end_of_truncated(joined, len, server_end + 1, false);
                }
            }
        },
        _ => {},
    }
}

/// A plain name that is joined to a settled path lies directly in that path:
/// the parent of the joined path is the path itself, up to the end of its
/// last name. This is stated of paths that are not verbatim, which are kept
/// as they are.
pub proof fn lemma_parent_of_joined(base: Seq<char>, name: Seq<char>)
    requires
        is_plain_name(name),
        is_settled(base),
        !prefix_kind(base).is_verbatim(),
    ensures
        parent(join_name(base, name)) == Some(trimmed(base)),
{
    let joined = join_name(base, name);
    let len = base.len() as int;
    let end = joined.len() as int;
    let start = body_start(base);
    lemma_prefix_len_bounds(base);
    lemma_joined_keeps_shape(base, name);
    assert(joined.take(len) =~= base);
    // the name is the last name of the joined path
    let from = end - name.len();
    lemma_name_start_of_run(joined, start, from, end, false);
    assert(is_name(joined, from, end, false)) by {
        if name.len() == 1 {
            assert(!(name =~= seq!['.']));
        }
    }
    let cut = if from > start {
        from - 1
    } else {
        start
    };
    // before it the joined path is the path
    lemma_names_of_truncated(joined, len, start, cut, false);
    lemma_last_name_end_bounds(base, start, len, false);
}

/// One name: it is not empty and holds no separator.
pub open spec fn is_one_name(name: Seq<char>, verbatim: bool) -> bool {
    name.len() > 0 && forall|i: int| 0 <= i < name.len() ==> !separates(#[trigger] name[i], verbatim)
}

/// Each of the names of a path is one name.
pub proof fn lemma_names_are_single(p: Seq<char>, start: int, end: int, verbatim: bool)
    requires
        0 <= start <= end <= p.len(),
    ensures
        forall|i: int|
            0 <= i < names_in(p, start, end, verbatim).len() ==> is_one_name(
                #[trigger] names_in(p, start, end, verbatim)[i],
                verbatim,
            ),
    decreases end - start,
{
    let all = names_in(p, start, end, verbatim);
    if end > start {
        let from = name_start(p, start, end, verbatim);
        lemma_name_start_bounds(p, start, end, verbatim);
        if is_name(p, from, end, verbatim) {
            let before = names_in(p, start, from, verbatim);
            let last = p.subrange(from, end);
            lemma_names_are_single(p, start, from, verbatim);
            assert(forall|j: int| 0 <= j < last.len() ==> !separates(#[trigger] last[j], verbatim));
            assert forall|i: int| 0 <= i < all.len() implies is_one_name(
                #[trigger] all[i],
                verbatim,
            ) by {
                // a name before the last one, or the last one
                if i < before.len() {
                    assert(all[i] == before[i]);
                } else {
                    assert(all[i] == last);
                }
            }
        } else {
            lemma_names_are_single(p, start, end - 1, verbatim);
            assert(all == names_in(p, start, end - 1, verbatim));
        }
    }
}

/// A name that follows a text, after a separator or directly, is one more
/// name behind the names of that text.
pub proof fn lemma_names_with_one_more(
    text: Seq<char>,
    start: int,
    len: int,
    from: int,
    verbatim: bool,
)
    requires
        0 <= start <= len <= from <= text.len(),
        from == len || (from == len + 1 && separates(text[len], verbatim)),
        from == start || separates(text[from - 1], verbatim),
        forall|i: int| from <= i < text.len() ==> !separates(#[trigger] text[i], verbatim),
        is_name(text, from, text.len() as int, verbatim),
    ensures
        names_in(text, start, text.len() as int, verbatim) == names_in(
            text.take(len),
            start,
            len,
            verbatim,
        ).push(text.subrange(from, text.len() as int)),
{
    let end = text.len() as int;
    lemma_name_start_of_run(text, start, from, end, verbatim);
    lemma_names_of_truncated(text, len, start, len, verbatim);
    assert(names_in(text, start, end, verbatim) == names_in(text, start, from, verbatim).push(
        text.subrange(from, end),
    ));
}

/// Names that are written one after the other, each followed by a
/// backslash, are read again as they were, whatever stands before and after
/// them.
pub proof fn lemma_names_of_rewritten(head: Seq<char>, names: Seq<Seq<char>>, tail: Seq<char>)
    requires
        forall|i: int| 0 <= i < names.len() ==> is_one_name(#[trigger] names[i], true),
    ensures
        names_in(
            head + with_backslashes(names) + tail,
            head.len() as int,
            (head.len() + with_backslashes(names).len()) as int,
            true,
        ) == names,
        names.len() > 0 ==> with_backslashes(names).len() > 0 && with_backslashes(names).last()
            == '\\',
    decreases names.len(),
{
    let text = head + with_backslashes(names) + tail;
    let start = head.len() as int;
    let end = start + with_backslashes(names).len();
    if names.len() > 0 {
        let before = names.drop_last();
        let name = names.last();
        let from = start + with_backslashes(before).len();
        lemma_names_of_rewritten(head, before, name + seq!['\\'] + tail);
        assert(text =~= head + with_backslashes(before) + (name + seq!['\\'] + tail));
        // the backslash ends the name, and the name starts after the names before it
        lemma_name_start_of_run(text, start, from, end - 1, true);
        assert(text.subrange(from, end - 1) =~= name);
        assert(names_in(text, start, end - 1, true) == names_in(text, start, from, true).push(name));
    }
}

/// A settled verbatim path keeps its prefix when a plain name is joined to
/// it, and a backslash follows the prefix.
pub proof fn lemma_rewritten_keeps_prefix(base: Seq<char>, name: Seq<char>)
    requires
        is_plain_name(name),
        is_settled(base),
        prefix_kind(base).is_verbatim(),
    ensures
        prefix_kind(join_name(base, name)) == prefix_kind(base),
        prefix_len(join_name(base, name)) == prefix_len(base),
        join_name(base, name)[prefix_len(base)] == '\\',
        body_start(join_name(base, name)) == prefix_len(base) + 1,
{
    let joined = join_name(base, name);
    let len = prefix_len(base);
    lemma_prefix_len_bounds(base);
    match prefix_kind(base) {
        PrefixKind::Verbatim => {
            lemma_name_end_bounds(base, 4, true);
            assert(joined.take(len + 1) =~= base.take(len + 1));
            lemma_name_end_of_truncated(joined, len + 1, 4, true);
            lemma_name_end_of_truncated(base, len + 1, 4, true);
        },
        PrefixKind::VerbatimUnc => {
            lemma_name_end_bounds(base, 8, true);
            let server_end = name_end(base, 8, true);
            lemma_name_end_bounds(base, server_end + 1, true);
            assert(joined.take(len + 1) =~= base.take(len + 1));
            lemma_name_end_of_truncated(joined, len + 1, 8, true);
            lemma_name_end_of_truncated(base, len + 1, 8, true);
            lemma_name_end_of_truncated(joined, len + 1, server_end + 1, true);
            lemma_name_end_of_truncated(base, len + 1, server_end + 1, true);
        },
        _ => {},
    }
}

/// A plain name that is joined to a settled verbatim path lies directly in
/// that path, and is the last of its names.
proof fn lemma_rewritten_lies_in(base: Seq<char>, name: Seq<char>)
    requires
        is_plain_name(name),
        is_settled(base),
        prefix_kind(base).is_verbatim(),
    ensures
        lies_directly_in(join_name(base, name), base),
        names(join_name(base, name)).last() == name,
{
    let joined = join_name(base, name);
    let end = joined.len() as int;
    let from = end - name.len();
    let start = prefix_len(base) + 1;
    let head = base.take(prefix_len(base)) + seq!['\\'];
    lemma_prefix_len_bounds(base);
    lemma_rewritten_keeps_prefix(base, name);
    lemma_names_are_single(base, body_start(base), base.len() as int, true);
    lemma_names_of_rewritten(head, names(base), name);
    // the name follows a backslash, that of the prefix or that of the name before it
    assert(joined[from - 1] == '\\');
    assert(forall|i: int| from <= i < end ==> !separates(#[trigger] joined[i], true));
    lemma_name_start_of_run(joined, start, from, end, true);
    assert(joined.subrange(from, end) =~= name);
    assert(names(joined).drop_last() =~= names(base));
    assert(joined.take(prefix_len(joined)) =~= base.take(prefix_len(base)));
}

/// A plain name that is joined to a settled path that is not verbatim lies
/// directly in that path, and is the last of its names.
proof fn lemma_appended_lies_in(base: Seq<char>, name: Seq<char>)
    requires
        is_plain_name(name),
        is_settled(base),
        !prefix_kind(base).is_verbatim(),
    ensures
        lies_directly_in(join_name(base, name), base),
        names(join_name(base, name)).last() == name,
{
    let joined = join_name(base, name);
    let end = joined.len() as int;
    let from = end - name.len();
    let len = base.len() as int;
    let start = body_start(base);
    lemma_prefix_len_bounds(base);
    lemma_joined_keeps_shape(base, name);
    assert(joined.take(len) =~= base);
    assert(joined.subrange(from, end) =~= name);
    assert(is_name(joined, from, end, false)) by {
        if name.len() == 1 {
            assert(!(name =~= seq!['.']));
        }
    }
    assert(forall|i: int| from <= i < end ==> !separates(#[trigger] joined[i], false));
    lemma_names_with_one_more(joined, start, len, from, false);
    assert(names(base).push(name).drop_last() =~= names(base));
    assert(joined.take(prefix_len(joined)) =~= base.take(prefix_len(base)));
}

/// A plain name that is joined to a settled path lies directly in that
/// path, and is the last of its names.
pub proof fn lemma_joined_lies_in(base: Seq<char>, name: Seq<char>)
    requires
        is_plain_name(name),
        is_settled(base),
    ensures
        lies_directly_in(join_name(base, name), base),
        names(join_name(base, name)).last() == name,
{
    if prefix_kind(base).is_verbatim() {
        lemma_rewritten_lies_in(base, name);
    } else {
        lemma_appended_lies_in(base, name);
    }
}

} // verus!
