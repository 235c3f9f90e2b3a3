use vstd::prelude::*;
use vstd::string::*;

use crate::lines::texts_of;

verus! {

/// The kind of project found in a directory, told apart by a marker file.
#[derive(Clone, Copy, Debug, PartialEq, Eq, Structural)]
pub enum ProjectKind {
    /// No marker file was found, or the directory could not be read.
    Unrecognized,
    /// A Ruby on Rails project: a file name ends with "gemfile".
    Rails,
    /// An Elixir / Phoenix project: a file name ends with "mix.exs".
    Phoenix,
}

/// The lower-case form that `str::to_lowercase` gives for a text.
pub uninterp spec fn lower_of(s: Seq<char>) -> Seq<char>;

/// Relies on `str::to_lowercase`: its result depends on the characters alone.
#[verifier::external_body]
fn lowercase(s: &str) -> (r: String)
    ensures
        r@ == lower_of(s@),
{
    s.to_lowercase()
}

/// `s` ends with `suffix`.
pub open spec fn has_suffix(s: Seq<char>, suffix: Seq<char>) -> bool {
    suffix.len() <= s.len() && s.subrange(s.len() - suffix.len(), s.len() as int) == suffix
}

/// The marker suffix of a Rails project, in lower case.
pub open spec fn gemfile_marker() -> Seq<char> {
    seq!['g', 'e', 'm', 'f', 'i', 'l', 'e']
}

/// The marker suffix of a Phoenix project, in lower case.
pub open spec fn mix_marker() -> Seq<char> {
    seq!['m', 'i', 'x', '.', 'e', 'x', 's']
}

/// The kind that one file name, already in lower case, marks.
pub open spec fn marked_kind(lowered: Seq<char>) -> ProjectKind {
    if has_suffix(lowered, gemfile_marker()) {
        ProjectKind::Rails
    } else if has_suffix(lowered, mix_marker()) {
        ProjectKind::Phoenix
    } else {
        ProjectKind::Unrecognized
    }
}

/// The kind marked by the first of the lower-case file names that marks one.
pub open spec fn first_marked_kind(lowered: Seq<Seq<char>>) -> ProjectKind
    decreases lowered.len(),
{
    if lowered.len() == 0 {
        ProjectKind::Unrecognized
    } else if marked_kind(lowered[0]) != ProjectKind::Unrecognized {
        marked_kind(lowered[0])
    } else {
        first_marked_kind(lowered.drop_first())
    }
}

/// The file names of a listing, each in lower case.
pub open spec fn lowered_names(names: Seq<String>) -> Seq<Seq<char>> {
    names.map_values(|n: String| lower_of(n@))
}

/// The kind of project that a directory listing shows; `None` stands for a
/// directory that could not be read.
pub open spec fn listing_kind(listing: Option<Seq<String>>) -> ProjectKind {
    match listing {
        None => ProjectKind::Unrecognized,
        Some(names) => first_marked_kind(lowered_names(names)),
    }
}

/// Whether `s` ends with `suffix`, character by character.
pub fn ends_with_chars(s: &str, suffix: &str) -> (r: bool)
    ensures
        r == has_suffix(s@, suffix@),
{
    let n = s.unicode_len();
    let m = suffix.unicode_len();
    if m > n {
        return false;
    }
    let off = n - m;
    let mut i: usize = 0;
    while i < m
        invariant
            i <= m,
            m <= n,
            off == n - m,
            n == s@.len(),
            m == suffix@.len(),
            forall|k: int| 0 <= k < i ==> s@[off + k] == suffix@[k],
        decreases m - i,
    {
        if s.get_char(off + i) != suffix.get_char(i) {
            assert(s@.subrange(off as int, n as int)[i as int] != suffix@[i as int]);
            return false;
        }
        i += 1;
    }
    assert(s@.subrange(off as int, n as int) =~= suffix@);
    true
}

/// The kind of project that one file name, already in lower case, marks.
pub fn kind_of_lowered_name(lowered: &str) -> (r: ProjectKind)
    ensures
        r == marked_kind(lowered@),
{
    let gemfile = "gemfile";
    let mix = "mix.exs";
    proof {
        reveal_strlit("gemfile");
        reveal_strlit("mix.exs");
        assert(gemfile@ =~= gemfile_marker());
        assert(mix@ =~= mix_marker());
    }
    if ends_with_chars(lowered, gemfile) {
        ProjectKind::Rails
    } else if ends_with_chars(lowered, mix) {
        ProjectKind::Phoenix
    } else {
        ProjectKind::Unrecognized
    }
}

proof fn lemma_first_marked_kind_step(lowered: Seq<Seq<char>>, i: int)
    requires
        0 <= i < lowered.len(),
        forall|k: int| 0 <= k < i ==> marked_kind(lowered[k]) == ProjectKind::Unrecognized,
    ensures
        first_marked_kind(lowered) == first_marked_kind(lowered.subrange(i, lowered.len() as int)),
    decreases i,
{
    if i > 0 {
        let rest = lowered.drop_first();
        assert forall|k: int| 0 <= k < i - 1 implies marked_kind(rest[k])
            == ProjectKind::Unrecognized by {
            assert(rest[k] == lowered[k + 1]);
        }
        lemma_first_marked_kind_step(rest, i - 1);
        assert(rest.subrange(i - 1, rest.len() as int) =~= lowered.subrange(i, lowered.len() as int));
    } else {
        assert(lowered.subrange(0, lowered.len() as int) =~= lowered);
    }
}

/// The kind marked by the first of the lower-case file names that marks one.
pub fn classify_lowered_names(lowered: &Vec<String>) -> (r: ProjectKind)
    ensures
        r == first_marked_kind(texts_of(lowered@)),
{
    let ghost all = texts_of(lowered@);
    let mut i: usize = 0;
    while i < lowered.len()
        invariant
            i <= lowered.len(),
            all == texts_of(lowered@),
            forall|k: int| 0 <= k < i ==> marked_kind(all[k]) == ProjectKind::Unrecognized,
        decreases lowered.len() - i,
    {
        let kind = kind_of_lowered_name(lowered[i].as_str());
        if kind != ProjectKind::Unrecognized {
            proof {
                lemma_first_marked_kind_step(all, i as int);
                assert(all.subrange(i as int, all.len() as int)[0] == all[i as int]);
            }
            return kind;
        }
        i += 1;
    }
    proof {
        lemma_no_marker_unrecognized(all);
    }
    ProjectKind::Unrecognized
}

/// The kind of project that a list of file names shows: the first name
/// whose lower-case form ends with a marker suffix decides.
pub fn classify_file_names(names: &Vec<String>) -> (r: ProjectKind)
    ensures
        r == first_marked_kind(lowered_names(names@)),
{
    let ghost all = lowered_names(names@);
    let mut i: usize = 0;
    while i < names.len()
        invariant
            i <= names.len(),
            all == lowered_names(names@),
            forall|k: int| 0 <= k < i ==> marked_kind(all[k]) == ProjectKind::Unrecognized,
        decreases names.len() - i,
    {
        let lowered = lowercase(names[i].as_str());
        let kind = kind_of_lowered_name(lowered.as_str());
        if kind != ProjectKind::Unrecognized {
            proof {
                lemma_first_marked_kind_step(all, i as int);
                assert(all.subrange(i as int, all.len() as int)[0] == all[i as int]);
            }
            return kind;
        }
        i += 1;
    }
    proof {
        lemma_no_marker_unrecognized(all);
    }
    ProjectKind::Unrecognized
}

/// The kind of project that a directory listing shows. `None` stands for a
/// directory that could not be read, which is never an error: the project
/// is then unrecognized.
pub fn get_project_type(listing: &Option<Vec<String>>) -> (r: ProjectKind)
    ensures
        r == listing_kind(match listing {
            None => None,
            Some(v) => Some(v@),
        }),
{
    match listing {
        None => ProjectKind::Unrecognized,
        Some(names) => classify_file_names(names),
    }
}

proof fn lemma_no_marker_unrecognized(lowered: Seq<Seq<char>>)
    requires
        forall|k: int|
            0 <= k < lowered.len() ==> !has_suffix(#[trigger] lowered[k], gemfile_marker())
                && !has_suffix(lowered[k], mix_marker()),
    ensures
        first_marked_kind(lowered) == ProjectKind::Unrecognized,
    decreases lowered.len(),
{
    if lowered.len() > 0 {
        let rest = lowered.drop_first();
        assert(forall|k: int| 0 <= k < rest.len() ==> rest[k] == lowered[k + 1]);
        lemma_no_marker_unrecognized(rest);
    }
}

proof fn lemma_markers_exclusive(s: Seq<char>)
    ensures
        !(has_suffix(s, gemfile_marker()) && has_suffix(s, mix_marker())),
{
    if has_suffix(s, gemfile_marker()) && has_suffix(s, mix_marker()) {
        let tail = s.subrange(s.len() - 7, s.len() as int);
        assert(tail[0] == gemfile_marker()[0]);
        assert(tail[0] == mix_marker()[0]);
    }
}

proof fn lemma_first_marker_decides(lowered: Seq<Seq<char>>, i: int, rails: bool)
    requires
        0 <= i < lowered.len(),
        rails ==> has_suffix(lowered[i], gemfile_marker()),
        !rails ==> has_suffix(lowered[i], mix_marker()),
        forall|j: int|
            0 <= j < i ==> !has_suffix(
                #[trigger] lowered[j],
                if rails {
                    mix_marker()
                } else {
                    gemfile_marker()
                },
            ),
    ensures
        first_marked_kind(lowered) == if rails {
            ProjectKind::Rails
        } else {
            ProjectKind::Phoenix
        },
    decreases i,
{
    lemma_markers_exclusive(lowered[0]);
    lemma_markers_exclusive(lowered[i]);
    if marked_kind(lowered[0]) == ProjectKind::Unrecognized {
        let rest = lowered.drop_first();
        assert(i > 0);
        assert(rest[i - 1] == lowered[i]);
        assert forall|j: int| 0 <= j < i - 1 implies !has_suffix(
            #[trigger] rest[j],
            if rails {
                mix_marker()
            } else {
                gemfile_marker()
            },
        ) by {
            assert(rest[j] == lowered[j + 1]);
        }
        lemma_first_marker_decides(rest, i - 1, rails);
    } else if i > 0 {
        assert(!has_suffix(
            lowered[0],
            if rails {
                mix_marker()
            } else {
                gemfile_marker()
            },
        ));
    }
}

/// In a listing where some file name, in lower case, ends with "gemfile" and
/// no name listed before it ends with "mix.exs", the project is a Rails one.
pub proof fn lemma_gemfile_first_is_rails(names: Seq<String>, i: int)
    requires
        0 <= i < names.len(),
        has_suffix(lower_of(names[i]@), gemfile_marker()),
        forall|j: int| 0 <= j < i ==> !has_suffix(lower_of(#[trigger] names[j]@), mix_marker()),
    ensures
        listing_kind(Some(names)) == ProjectKind::Rails,
{
    let lowered = lowered_names(names);
    assert forall|j: int| 0 <= j < i implies !has_suffix(#[trigger] lowered[j], mix_marker()) by {
        assert(lowered[j] == lower_of(names[j]@));
    }
    lemma_first_marker_decides(lowered, i, true);
}

/// In a listing where some file name, in lower case, ends with "mix.exs" and
/// no name listed before it ends with "gemfile", the project is a Phoenix one.
pub proof fn lemma_mix_first_is_phoenix(names: Seq<String>, i: int)
    requires
        0 <= i < names.len(),
        has_suffix(lower_of(names[i]@), mix_marker()),
        forall|j: int|
            0 <= j < i ==> !has_suffix(lower_of(#[trigger] names[j]@), gemfile_marker()),
    ensures
        listing_kind(Some(names)) == ProjectKind::Phoenix,
{
    let lowered = lowered_names(names);
    assert forall|j: int| 0 <= j < i implies !has_suffix(#[trigger] lowered[j], gemfile_marker())
        by {
        assert(lowered[j] == lower_of(names[j]@));
    }
    lemma_first_marker_decides(lowered, i, false);
}

/// A listing in which no file name, in lower case, ends with either marker
/// suffix shows an unrecognized project.
pub proof fn lemma_unmarked_listing_is_unrecognized(names: Seq<String>)
    requires
        forall|k: int|
            0 <= k < names.len() ==> !has_suffix(lower_of(#[trigger] names[k]@), gemfile_marker())
                && !has_suffix(lower_of(names[k]@), mix_marker()),
    ensures
        listing_kind(Some(names)) == ProjectKind::Unrecognized,
{
    let lowered = lowered_names(names);
    assert forall|k: int| 0 <= k < lowered.len() implies !has_suffix(
        #[trigger] lowered[k],
        gemfile_marker(),
    ) && !has_suffix(lowered[k], mix_marker()) by {
        assert(lowered[k] == lower_of(names[k]@));
    }
    lemma_no_marker_unrecognized(lowered);
}

/// A directory that cannot be read shows an unrecognized project.
pub proof fn lemma_unreadable_directory_is_unrecognized()
    ensures
        listing_kind(None) == ProjectKind::Unrecognized,
{
}

} // verus!
