//! Windows path text.
//!
//! A path is read as a sequence of characters, in three parts. It is read
//! the same way on every host, whatever paths look like there.
//!
//! It may open with a prefix: a drive (`C:`), a share (`\\server\share`), a
//! device (`\\.\COM1`), or one of the verbatim forms, which start with
//! `\\?\`. A separator after the prefix roots the path, and every prefix but
//! a drive roots it without one. A path with both a prefix and a root is
//! absolute.
//!
//! The rest is the body: names divided by separators. Both `\` and `/`
//! separate, but in a verbatim path only `\` does. Empty names are ignored,
//! and so is the name `.` outside verbatim paths. A path without a root may
//! open with a `.` of its own, which stands for the current directory.
//!
//! [`parent`] takes the last name off a path and [`join_name`] adds one.
//! [`find_parent`] and `append_name` compute them. [`names`] are the names
//! of the body, and [`lies_directly_in`] says by them when one path lies in
//! another, however the two are written.

use vstd::prelude::*;
use vstd::string::*;

verus! {

/// The form of the prefix a path opens with.
#[derive(Clone, Copy, Debug)]
pub enum PrefixKind {
    /// No prefix at all.
    Absent,
    /// A drive letter and a colon, `C:`.
    Disk,
    /// A server and a share, `\\server\share`.
    Unc,
    /// A device, `\\.\COM1`.
    Device,
    /// A verbatim name, `\\?\name`.
    Verbatim,
    /// A verbatim server and share, `\\?\UNC\server\share`.
    VerbatimUnc,
    /// A verbatim drive, `\\?\C:`.
    VerbatimDisk,
}

impl PrefixKind {
    /// Verbatim prefixes switch off the special reading of `/` and `.`.
    pub open spec fn is_verbatim(self) -> bool {
        self is Verbatim || self is VerbatimUnc || self is VerbatimDisk
    }

    /// Every prefix but a bare drive roots the path by itself.
    pub open spec fn has_implicit_root(self) -> bool {
        !(self is Absent) && !(self is Disk)
    }
}

// Characters

/// `\` and `/` are the separators.
pub open spec fn is_separator(c: char) -> bool {
    c == '\\' || c == '/'
}

/// Whether `c` divides names: in a verbatim path only `\` does.
pub open spec fn separates(c: char, verbatim: bool) -> bool {
    c == '\\' || (c == '/' && !verbatim)
}

/// Drives are named by the ASCII letters.
pub open spec fn is_drive_letter(c: char) -> bool {
    ('a' <= c && c <= 'z') || ('A' <= c && c <= 'Z')
}

// The prefix

/// A drive letter and a colon stand at `at`.
pub open spec fn has_drive_at(p: Seq<char>, at: int) -> bool {
    at + 2 <= p.len() && is_drive_letter(p[at]) && p[at + 1] == ':'
}

/// The path opens with `\\?\`, written with backslashes only.
pub open spec fn has_verbatim_marker(p: Seq<char>) -> bool {
    p.len() >= 4 && p[0] == '\\' && p[1] == '\\' && p[2] == '?' && p[3] == '\\'
}

/// After the verbatim marker stands `UNC` and a separator.
pub open spec fn has_unc_marker(p: Seq<char>) -> bool {
    p.len() >= 8 && p[4] == 'U' && p[5] == 'N' && p[6] == 'C' && is_separator(p[7])
}

/// The path opens with two separators, a dot and a separator.
pub open spec fn has_device_marker(p: Seq<char>) -> bool {
    p.len() >= 4 && is_separator(p[0]) && is_separator(p[1]) && p[2] == '.' && is_separator(p[3])
}

/// The index of the first separator at or after `from`, or the length of the
/// path where none follows.
pub open spec fn name_end(p: Seq<char>, from: int, verbatim: bool) -> int
    decreases p.len() - from,
{
    if from >= p.len() {
        p.len() as int
    } else if separates(p[from], verbatim) {
        from
    } else {
        name_end(p, from + 1, verbatim)
    }
}

/// Where a server name starts at `from`, the end of the share name that
/// follows it. Without a separator after the server there is no share, and
/// the result is the end of the server name.
pub open spec fn share_end(p: Seq<char>, from: int, verbatim: bool) -> int {
    let server_end = name_end(p, from, verbatim);
    if server_end < p.len() {
        name_end(p, server_end + 1, verbatim)
    } else {
        server_end
    }
}

/// The form of the prefix of `p`.
pub open spec fn prefix_kind(p: Seq<char>) -> PrefixKind {
    if has_verbatim_marker(p) {
        if has_unc_marker(p) {
            PrefixKind::VerbatimUnc
        } else if has_drive_at(p, 4) && (p.len() == 6 || is_separator(p[6])) {
            PrefixKind::VerbatimDisk
        } else {
            PrefixKind::Verbatim
        }
    } else if p.len() >= 2 && is_separator(p[0]) && is_separator(p[1]) {
        if has_device_marker(p) {
            PrefixKind::Device
        } else if name_end(p, 2, false) > 2 && share_end(p, 2, false) > name_end(p, 2, false) + 1 {
            // both the server and the share are named
            PrefixKind::Unc
        } else {
            PrefixKind::Absent
        }
    } else if has_drive_at(p, 0) {
        PrefixKind::Disk
    } else {
        PrefixKind::Absent
    }
}

/// The number of characters the prefix of `p` takes.
pub open spec fn prefix_len(p: Seq<char>) -> int {
    match prefix_kind(p) {
        PrefixKind::Absent => 0,
        PrefixKind::Disk => 2,
        PrefixKind::Unc => share_end(p, 2, false),
        PrefixKind::Device => name_end(p, 4, false),
        PrefixKind::Verbatim => name_end(p, 4, true),
        PrefixKind::VerbatimUnc => {
            // an empty share adds nothing, not even its separator
            if share_end(p, 8, true) > name_end(p, 8, true) + 1 {
                share_end(p, 8, true)
            } else {
                name_end(p, 8, true)
            }
        },
        PrefixKind::VerbatimDisk => 6,
    }
}

// The root and the body

/// A separator follows the prefix.
pub open spec fn has_physical_root(p: Seq<char>) -> bool {
    prefix_len(p) < p.len() && is_separator(p[prefix_len(p)])
}

/// The path starts at a root: a separator follows the prefix, or the prefix
/// is a root by itself.
pub open spec fn has_root(p: Seq<char>) -> bool {
    has_physical_root(p) || prefix_kind(p).has_implicit_root()
}

/// An absolute path has both a prefix and a root.
pub open spec fn is_absolute(p: Seq<char>) -> bool {
    !(prefix_kind(p) is Absent) && has_root(p)
}

/// A path without a root may open with the name `.`, which is then not part
/// of the body. Without a prefix it stands for the current directory.
pub open spec fn has_leading_dot(p: Seq<char>) -> bool {
    let at = prefix_len(p);
    &&& !has_root(p)
    &&& at < p.len()
    &&& p[at] == '.'
    &&& (at + 1 == p.len() || is_separator(p[at + 1]))
}

/// Where the body starts: after the prefix, the root separator and the
/// leading dot.
pub open spec fn body_start(p: Seq<char>) -> int {
    prefix_len(p) + (if has_physical_root(p) {
        1int
    } else {
        0int
    }) + (if has_leading_dot(p) {
        1int
    } else {
        0int
    })
}

// The names of the body

/// The start of the run of characters without a separator that ends at
/// `end`, looking back no further than `start`.
pub open spec fn name_start(p: Seq<char>, start: int, end: int, verbatim: bool) -> int
    decreases end - start,
{
    if end <= start || separates(p[end - 1], verbatim) {
        end
    } else {
        name_start(p, start, end - 1, verbatim)
    }
}

/// Whether `p[from..to]` is a name: it is not empty, and outside verbatim
/// paths it is not `.`.
pub open spec fn is_name(p: Seq<char>, from: int, to: int, verbatim: bool) -> bool {
    from < to && (verbatim || !(to - from == 1 && p[from] == '.'))
}

/// The end of the last name in `p[start..end]`, or `start` where that range
/// holds no name.
pub open spec fn last_name_end(p: Seq<char>, start: int, end: int, verbatim: bool) -> int
    decreases end - start,
{
    if end <= start {
        start
    } else if is_name(p, name_start(p, start, end, verbatim), end, verbatim) {
        end
    } else {
        // a separator, or a `.` that is ignored
        last_name_end(p, start, end - 1, verbatim)
    }
}

/// The names in `p[start..end]`, in their order.
pub open spec fn names_in(p: Seq<char>, start: int, end: int, verbatim: bool) -> Seq<Seq<char>>
    decreases end - start,
    via names_in_decreases
{
    if end <= start {
        Seq::empty()
    } else if is_name(p, name_start(p, start, end, verbatim), end, verbatim) {
        names_in(p, start, name_start(p, start, end, verbatim), verbatim).push(
            p.subrange(name_start(p, start, end, verbatim), end),
        )
    } else {
        names_in(p, start, end - 1, verbatim)
    }
}

#[via_fn]
proof fn names_in_decreases(p: Seq<char>, start: int, end: int, verbatim: bool) {
    if start <= end {
        lemma_name_start_bounds(p, start, end, verbatim);
    }
}

/// The names of the body of a path, in their order.
pub open spec fn names(p: Seq<char>) -> Seq<Seq<char>> {
    names_in(p, body_start(p), p.len() as int, prefix_kind(p).is_verbatim())
}

/// How deep a path is: the number of names in its body, and one more for a
/// leading dot that stands for the current directory.
pub open spec fn depth(p: Seq<char>) -> nat {
    names(p).len() + (if prefix_kind(p) is Absent && has_leading_dot(p) {
        1nat
    } else {
        0nat
    })
}

/// A verbatim path that names a server and no share. What follows the
/// server is then read as the body of the path.
pub open spec fn lacks_share(p: Seq<char>) -> bool {
    prefix_kind(p) is VerbatimUnc && share_end(p, 8, true) <= name_end(p, 8, true) + 1
}

/// `child` lies directly in `dir`: the two have the same prefix, the same
/// root and the same leading dot, and the names of `child` are those of
/// `dir` and one more.
pub open spec fn lies_directly_in(child: Seq<char>, dir: Seq<char>) -> bool {
    &&& child.take(prefix_len(child)) == dir.take(prefix_len(dir))
    &&& has_root(child) == has_root(dir)
    &&& has_leading_dot(child) == has_leading_dot(dir)
    &&& names(child).len() > 0
    &&& names(child).drop_last() == names(dir)
}

/// The path up to the end of its last name, without the separators and dots
/// that follow it.
pub open spec fn trimmed(p: Seq<char>) -> Seq<char> {
    p.take(last_name_end(p, body_start(p), p.len() as int, prefix_kind(p).is_verbatim()))
}

// The parent

/// The path without its last name, where it has one: the text up to the end
/// of the name before it, or up to the start of the body. A path that is
/// only `.` has the empty path as its parent. A path that ends in a root or
/// a prefix, and the empty path, have none.
pub open spec fn parent(p: Seq<char>) -> Option<Seq<char>> {
    let verbatim = prefix_kind(p).is_verbatim();
    let start = body_start(p);
    let end = last_name_end(p, start, p.len() as int, verbatim);
    if end > start {
        let from = name_start(p, start, end, verbatim);
        let cut = if from > start {
            from - 1
        } else {
            start
        };
        Some(p.take(last_name_end(p, start, cut, verbatim)))
    } else if prefix_kind(p) is Absent && has_leading_dot(p) {
        Some(Seq::empty())
    } else {
        None
    }
}

// Joining a name

/// A plain name is one name and nothing else: it is not empty, holds no
/// separator, does not open with a drive, and is neither `.` nor `..`.
pub open spec fn is_plain_name(name: Seq<char>) -> bool {
    &&& name.len() > 0
    &&& forall|i: int| 0 <= i < name.len() ==> !is_separator(#[trigger] name[i])
    &&& !has_drive_at(name, 0)
    &&& name != seq!['.']
    &&& name != seq!['.', '.']
}

/// Whether a separator has to go between `base` and a name joined to it:
/// not after the empty path, after a separator, or after a bare drive.
pub open spec fn needs_separator(base: Seq<char>) -> bool {
    &&& base.len() > 0
    &&& !is_separator(base.last())
    &&& !(prefix_kind(base) is Disk && base.len() == 2)
}

/// The text of `names`, each followed by one backslash.
pub open spec fn with_backslashes(names: Seq<Seq<char>>) -> Seq<char>
    decreases names.len(),
{
    if names.len() == 0 {
        Seq::empty()
    } else {
        with_backslashes(names.drop_last()) + names.last() + seq!['\\']
    }
}

/// `base` with the plain name `name` joined to it. A verbatim path is
/// written anew, its prefix followed by its names with one backslash before
/// each. Any other path is kept as it is, and the name follows it, after a
/// backslash where one is needed.
pub open spec fn join_name(base: Seq<char>, name: Seq<char>) -> Seq<char> {
    if prefix_kind(base).is_verbatim() {
        base.take(prefix_len(base)) + seq!['\\'] + with_backslashes(names(base)) + name
    } else if needs_separator(base) {
        base + seq!['\\'] + name
    } else {
        base + name
    }
}

// Where the parts of a path lie

/// A name ends between where it is looked for and the end of the path, at a
/// separator or at the end, and holds no separator.
pub proof fn lemma_name_end_bounds(p: Seq<char>, from: int, verbatim: bool)
    requires
        0 <= from <= p.len(),
    ensures
        from <= name_end(p, from, verbatim) <= p.len(),
        name_end(p, from, verbatim) < p.len() ==> separates(
            p[name_end(p, from, verbatim)],
            verbatim,
        ),
        forall|i: int| from <= i < name_end(p, from, verbatim) ==> !separates(#[trigger] p[i], verbatim),
    decreases p.len() - from,
{
    if from < p.len() && !separates(p[from], verbatim) {
        lemma_name_end_bounds(p, from + 1, verbatim);
    }
}

/// The prefix lies inside the path, and only an absent prefix is empty.
pub proof fn lemma_prefix_len_bounds(p: Seq<char>)
    ensures
        0 <= prefix_len(p) <= p.len(),
        prefix_kind(p) is Absent <==> prefix_len(p) == 0,
{
    match prefix_kind(p) {
        PrefixKind::Unc => {
            if name_end(p, 2, false) < p.len() {
                lemma_name_end_bounds(p, name_end(p, 2, false) + 1, false);
            }
        },
        PrefixKind::Device => {
            lemma_name_end_bounds(p, 4, false);
        },
        PrefixKind::Verbatim => {
            lemma_name_end_bounds(p, 4, true);
        },
        PrefixKind::VerbatimUnc => {
            lemma_name_end_bounds(p, 8, true);
            if name_end(p, 8, true) < p.len() {
                lemma_name_end_bounds(p, name_end(p, 8, true) + 1, true);
            }
        },
        _ => {},
    }
}

/// A name starts between `start` and its end, after a separator or at
/// `start`, and holds no separator.
pub proof fn lemma_name_start_bounds(p: Seq<char>, start: int, end: int, verbatim: bool)
    requires
        start <= end,
    ensures
        start <= name_start(p, start, end, verbatim) <= end,
        name_start(p, start, end, verbatim) > start ==> separates(
            p[name_start(p, start, end, verbatim) - 1],
            verbatim,
        ),
        forall|i: int|
            name_start(p, start, end, verbatim) <= i < end ==> !separates(#[trigger] p[i], verbatim),
    decreases end - start,
{
    if end > start && !separates(p[end - 1], verbatim) {
        lemma_name_start_bounds(p, start, end - 1, verbatim);
    }
}

/// The last name ends between `start` and `end`, and where it ends past
/// `start` a name does end there.
pub proof fn lemma_last_name_end_bounds(p: Seq<char>, start: int, end: int, verbatim: bool)
    requires
        0 <= start <= end <= p.len(),
    ensures
        start <= last_name_end(p, start, end, verbatim) <= end,
        last_name_end(p, start, end, verbatim) > start ==> is_name(
            p,
            name_start(p, start, last_name_end(p, start, end, verbatim), verbatim),
            last_name_end(p, start, end, verbatim),
            verbatim,
        ),
    decreases end - start,
{
    if end > start && !is_name(p, name_start(p, start, end, verbatim), end, verbatim) {
        lemma_last_name_end_bounds(p, start, end - 1, verbatim);
    }
}

/// A run of characters without a separator, with a separator or the start
/// before it, is found from its end.
pub proof fn lemma_name_start_of_run(p: Seq<char>, start: int, from: int, end: int, verbatim: bool)
    requires
        start <= from <= end,
        from == start || separates(p[from - 1], verbatim),
        forall|i: int| from <= i < end ==> !separates(#[trigger] p[i], verbatim),
    ensures
        name_start(p, start, end, verbatim) == from,
    decreases end - from,
{
    if end > from {
        lemma_name_start_of_run(p, start, from, end - 1, verbatim);
    }
}

// Reading a path

/// A prefix as found at the start of a path: its form and how many
/// characters it takes.
struct Prefix {
    kind: PrefixKind,
    len: usize,
}

fn verbatim_kind(kind: &PrefixKind) -> (yes: bool)
    ensures
        yes == kind.is_verbatim(),
{
    match kind {
        PrefixKind::Verbatim | PrefixKind::VerbatimUnc | PrefixKind::VerbatimDisk => true,
        _ => false,
    }
}

fn rooting_kind(kind: &PrefixKind) -> (yes: bool)
    ensures
        yes == kind.has_implicit_root(),
{
    match kind {
        PrefixKind::Absent | PrefixKind::Disk => false,
        _ => true,
    }
}

fn separator(c: char) -> (yes: bool)
    ensures
        yes == is_separator(c),
{
    c == '\\' || c == '/'
}

fn divides(c: char, verbatim: bool) -> (yes: bool)
    ensures
        yes == separates(c, verbatim),
{
    c == '\\' || (c == '/' && !verbatim)
}

fn drive_letter(c: char) -> (yes: bool)
    ensures
        yes == is_drive_letter(c),
{
    ('a' <= c && c <= 'z') || ('A' <= c && c <= 'Z')
}

fn drive_at(p: &Vec<char>, at: usize) -> (yes: bool)
    requires
        at <= p.len(),
    ensures
        yes == has_drive_at(p@, at as int),
{
    p.len() - at >= 2 && drive_letter(p[at]) && p[at + 1] == ':'
}

fn find_name_end(p: &Vec<char>, from: usize, verbatim: bool) -> (end: usize)
    requires
        from <= p.len(),
    ensures
        end == name_end(p@, from as int, verbatim),
        from <= end <= p.len(),
{
    let mut at: usize = from;
    while at < p.len() && !divides(p[at], verbatim)
        invariant
            from <= at <= p.len(),
            name_end(p@, from as int, verbatim) == name_end(p@, at as int, verbatim),
        decreases p.len() - at,
    {
        at += 1;
    }
    at
}

/// The ends of the server name that starts at `from` and of the share name
/// after it.
fn find_share_end(p: &Vec<char>, from: usize, verbatim: bool) -> (ends: (usize, usize))
    requires
        from <= p.len(),
    ensures
        ends.0 == name_end(p@, from as int, verbatim),
        ends.1 == share_end(p@, from as int, verbatim),
        from <= ends.0 <= ends.1 <= p.len(),
{
    let server_end = find_name_end(p, from, verbatim);
    if server_end < p.len() {
        (server_end, find_name_end(p, server_end + 1, verbatim))
    } else {
        (server_end, server_end)
    }
}

/// Reads the prefix of `p`.
fn parse_prefix(p: &Vec<char>) -> (prefix: Prefix)
    ensures
        prefix.kind == prefix_kind(p@),
        prefix.len == prefix_len(p@),
        prefix.len <= p.len(),
{
    let n = p.len();
    if n >= 4 && p[0] == '\\' && p[1] == '\\' && p[2] == '?' && p[3] == '\\' {
        if n >= 8 && p[4] == 'U' && p[5] == 'N' && p[6] == 'C' && separator(p[7]) {
            let (server_end, share_end) = find_share_end(p, 8, true);
            if share_end - server_end > 1 {
                Prefix { kind: PrefixKind::VerbatimUnc, len: share_end }
            } else {
                Prefix { kind: PrefixKind::VerbatimUnc, len: server_end }
            }
        } else if drive_at(p, 4) && (n == 6 || separator(p[6])) {
            Prefix { kind: PrefixKind::VerbatimDisk, len: 6 }
        } else {
            Prefix { kind: PrefixKind::Verbatim, len: find_name_end(p, 4, true) }
        }
    } else if n >= 2 && separator(p[0]) && separator(p[1]) {
        if n >= 4 && p[2] == '.' && separator(p[3]) {
            Prefix { kind: PrefixKind::Device, len: find_name_end(p, 4, false) }
        } else {
            let (server_end, share_end) = find_share_end(p, 2, false);
            if server_end > 2 && share_end - server_end > 1 {
                Prefix { kind: PrefixKind::Unc, len: share_end }
            } else {
                Prefix { kind: PrefixKind::Absent, len: 0 }
            }
        }
    } else if drive_at(p, 0) {
        Prefix { kind: PrefixKind::Disk, len: 2 }
    } else {
        Prefix { kind: PrefixKind::Absent, len: 0 }
    }
}

/// Finds where the body of `p` starts, given its prefix.
fn find_body_start(p: &Vec<char>, prefix: &Prefix) -> (start: usize)
    requires
        prefix.kind == prefix_kind(p@),
        prefix.len == prefix_len(p@),
    ensures
        start == body_start(p@),
        prefix.len <= start <= p.len(),
{
    proof {
        lemma_prefix_len_bounds(p@);
    }
    let at = prefix.len;
    if at < p.len() && separator(p[at]) {
        at + 1
    } else if !rooting_kind(&prefix.kind) && at < p.len() && p[at] == '.' && (p.len() - at == 1
        || separator(p[at + 1])) {
        at + 1
    } else {
        at
    }
}

fn find_name_start(p: &Vec<char>, start: usize, end: usize, verbatim: bool) -> (from: usize)
    requires
        start <= end <= p.len(),
    ensures
        from == name_start(p@, start as int, end as int, verbatim),
        start <= from <= end,
{
    let mut at: usize = end;
    while at > start && !divides(p[at - 1], verbatim)
        invariant
            start <= at <= end <= p.len(),
            name_start(p@, start as int, end as int, verbatim) == name_start(
                p@,
                start as int,
                at as int,
                verbatim,
            ),
        decreases at - start,
    {
        at -= 1;
    }
    at
}

fn holds_name(p: &Vec<char>, from: usize, to: usize, verbatim: bool) -> (yes: bool)
    requires
        from <= to <= p.len(),
    ensures
        yes == is_name(p@, from as int, to as int, verbatim),
{
    from < to && (verbatim || !(to - from == 1 && p[from] == '.'))
}

fn find_last_name_end(p: &Vec<char>, start: usize, end: usize, verbatim: bool) -> (last: usize)
    requires
        start <= end <= p.len(),
    ensures
        last == last_name_end(p@, start as int, end as int, verbatim),
        start <= last <= end,
{
    let mut at: usize = end;
    while at > start
        invariant
            start <= at <= end <= p.len(),
            last_name_end(p@, start as int, end as int, verbatim) == last_name_end(
                p@,
                start as int,
                at as int,
                verbatim,
            ),
        decreases at - start,
    {
        let from = find_name_start(p, start, at, verbatim);
        if holds_name(p, from, at, verbatim) {
            return at;
        }
        at -= 1;
    }
    at
}

/// The number of characters of `p` that its parent keeps, where it has one.
fn parent_len(p: &Vec<char>) -> (kept: Option<usize>)
    ensures
        match kept {
            Some(n) => n <= p.len() && parent(p@) == Some(p@.take(n as int)),
            None => parent(p@) is None,
        },
{
    let prefix = parse_prefix(p);
    let verbatim = verbatim_kind(&prefix.kind);
    let start = find_body_start(p, &prefix);
    let end = find_last_name_end(p, start, p.len(), verbatim);
    if end > start {
        let from = find_name_start(p, start, end, verbatim);
        let cut = if from > start {
            from - 1
        } else {
            start
        };
        Some(find_last_name_end(p, start, cut, verbatim))
    } else if start > prefix.len && !separator(p[prefix.len]) {
        // nothing follows the leading dot
        match prefix.kind {
            PrefixKind::Absent => Some(0),
            _ => None,
        }
    } else {
        None
    }
}

/// The characters of `text`, one by one.
fn chars_of(text: &str) -> (chars: Vec<char>)
    ensures
        chars@ == text@,
{
    let mut chars: Vec<char> = Vec::new();
    for c in it: text.chars()
        invariant
            chars@ == it.seq().take(it.index() as int),
    {
        chars.push(c);
    }
    chars
}

/// The parent of `path`, as [`parent`] defines it.
pub fn find_parent(path: &str) -> (found: Option<String>)
    ensures
        match found {
            Some(dir) => parent(path@) == Some(dir@),
            None => parent(path@) is None,
        },
{
    let chars = chars_of(path);
    match parent_len(&chars) {
        Some(kept) => Some(path.substring_char(0, kept).to_owned()),
        None => None,
    }
}

/// `base` with the plain name `name` joined to it, as [`join_name`] defines
/// it.
pub(crate) fn append_name(base: &str, name: &str) -> (joined: String)
    requires
        is_plain_name(name@),
    ensures
        joined@ == join_name(base@, name@),
{
    proof {
        reveal_strlit("\\");
    }
    let chars = chars_of(base);
    let prefix = parse_prefix(&chars);
    if verbatim_kind(&prefix.kind) {
        let start = find_body_start(&chars, &prefix);
        let mut joined = base.substring_char(0, prefix.len).to_owned();
        joined.append("\\");
        let ghost head = joined@;
        let mut at: usize = start;
        while at < chars.len()
            invariant
                start <= at <= chars.len(),
                chars@ == base@,
                at == start || chars[at - 1] == '\\' || at == chars.len() || chars[at as int]
                    == '\\',
                joined@ == head + with_backslashes(names_in(chars@, start as int, at as int, true)),
            decreases chars.len() - at,
        {
            if chars[at] == '\\' {
                at += 1;
            } else {
                let end = find_name_end(&chars, at, true);
                proof {
                    reveal_strlit("\\");
                    lemma_name_end_bounds(chars@, at as int, true);
                    lemma_name_start_of_run(chars@, start as int, at as int, end as int, true);
                    let before = names_in(chars@, start as int, at as int, true);
                    let run = chars@.subrange(at as int, end as int);
                    assert(before.push(run).drop_last() =~= before);
                }
                joined.append(base.substring_char(at, end));
                joined.append("\\");
                at = end;
            }
        }
        joined.append(name);
        joined
    } else {
        let n = chars.len();
        let bare_drive = n == 2 && matches!(prefix.kind, PrefixKind::Disk);
        let mut joined = base.to_owned();
        if n > 0 && !separator(chars[n - 1]) && !bare_drive {
            joined.append("\\");
        }
        joined.append(name);
        joined
    }
}

} // verus!
