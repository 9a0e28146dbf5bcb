//! The section selector: which section of a course to attempt, if any.
//!
//! Given a snapshot of a course's sections and a ranked preference list
//! (most preferred first), the selector decides one of three things:
//! the course is already satisfied, a section should be submitted, or
//! nothing acceptable is open yet. Matching is case-insensitive on the
//! ASCII letters of the UTF-8 bytes of the names involved.

use crate::api::CourseSection;
use crate::text::byte_view;
use crate::text::contains_ci;
use crate::text::str_contains_ci;
use vstd::prelude::*;

verus! {

/// What the selector decides for one snapshot.
#[derive(Debug, Clone, Copy, PartialEq, Eq, Structural)]
pub enum SelectionOutcome {
    /// A section the student is already enrolled in matches a preference:
    /// the course needs no submission.
    AlreadyEnrolled,
    /// This section should be submitted.
    SectionChosen { section_id: u64 },
    /// No preference matches any open section right now.
    NoAcceptableSection,
}

/// The section is already enrolled and matches a preference entry: its
/// name contains the entry, ignoring ASCII case — the same relation the
/// preference walk uses, so a section once chosen by a preference is
/// recognized here when a later snapshot flags it enrolled.
pub open spec fn enrolled_match(sec: CourseSection, prefs: Seq<String>) -> bool {
    &&& sec.is_enrolled
    &&& exists|j: int|
        0 <= j < prefs.len() && contains_ci(byte_view(sec.section_name@), byte_view(prefs[j]@))
}

/// Some section of the snapshot is an enrolled match.
pub open spec fn some_enrolled_match(secs: Seq<CourseSection>, prefs: Seq<String>) -> bool {
    exists|i: int| 0 <= i < secs.len() && enrolled_match(secs[i], prefs)
}

/// The section's name contains the preference entry (ignoring ASCII case)
/// and a seat is still open.
pub open spec fn open_match(sec: CourseSection, pref: String) -> bool {
    &&& contains_ci(byte_view(sec.section_name@), byte_view(pref@))
    &&& sec.seats_taken < sec.total_seats
}

/// The identifier of the first section at index `k` or later that openly
/// matches `pref`, in snapshot order.
pub open spec fn first_open_match_from(secs: Seq<CourseSection>, pref: String, k: int) -> Option<
    u64,
>
    decreases secs.len() - k,
    when 0 <= k <= secs.len()
{
    if k >= secs.len() {
        None
    } else if open_match(secs[k], pref) {
        Some(secs[k].section_id)
    } else {
        first_open_match_from(secs, pref, k + 1)
    }
}

/// The identifier of the first section (in snapshot order) that openly
/// matches `pref`.
pub open spec fn first_open_match(secs: Seq<CourseSection>, pref: String) -> Option<u64> {
    first_open_match_from(secs, pref, 0)
}

/// The identifier chosen when preferences are walked from rank `j` on:
/// the first section matching the earliest-ranked preference that matches
/// anything at all.
pub open spec fn chosen_from(secs: Seq<CourseSection>, prefs: Seq<String>, j: int) -> Option<u64>
    decreases prefs.len() - j,
    when 0 <= j <= prefs.len()
{
    if j >= prefs.len() {
        None
    } else {
        match first_open_match(secs, prefs[j]) {
            Some(id) => Some(id),
            None => chosen_from(secs, prefs, j + 1),
        }
    }
}

/// The identifier the preference walk chooses, if any.
pub open spec fn chosen_section(secs: Seq<CourseSection>, prefs: Seq<String>) -> Option<u64> {
    chosen_from(secs, prefs, 0)
}

/// What `select` returns: an enrolled match wins over everything, then the
/// preference walk decides.
pub open spec fn selection_of(secs: Seq<CourseSection>, prefs: Seq<String>) -> SelectionOutcome {
    if some_enrolled_match(secs, prefs) {
        SelectionOutcome::AlreadyEnrolled
    } else {
        match chosen_section(secs, prefs) {
            Some(id) => SelectionOutcome::SectionChosen { section_id: id },
            None => SelectionOutcome::NoAcceptableSection,
        }
    }
}

/// Decides what to do for one snapshot of a course, given the ranked
/// preference list: already-enrolled beats everything; otherwise the first
/// open section of the earliest-ranked matching preference is chosen; else
/// nothing is acceptable.
pub fn select(snapshot: &Vec<CourseSection>, preferences: &Vec<String>) -> (r: SelectionOutcome)
    ensures
        r == selection_of(snapshot@, preferences@),
{
    let n = snapshot.len();
    let p = preferences.len();
    let mut i: usize = 0;
    while i < n
        invariant
            n == snapshot@.len(),
            p == preferences@.len(),
            i <= n,
            forall|i2: int| 0 <= i2 < i ==> !enrolled_match(snapshot@[i2], preferences@),
        decreases n - i,
    {
        let sec = &snapshot[i];
        if sec.is_enrolled {
            let mut j: usize = 0;
            while j < p
                invariant
                    n == snapshot@.len(),
                    p == preferences@.len(),
                    i < n,
                    j <= p,
                    sec == snapshot@[i as int],
                    snapshot@[i as int].is_enrolled,
                    forall|j2: int|
                        0 <= j2 < j ==> !contains_ci(
                            byte_view(snapshot@[i as int].section_name@),
                            byte_view(preferences@[j2]@),
                        ),
                decreases p - j,
            {
                if str_contains_ci(sec.section_name.as_str(), preferences[j].as_str()) {
                    proof {
                        assert(contains_ci(
                            byte_view(snapshot@[i as int].section_name@),
                            byte_view(preferences@[j as int]@),
                        ));
                        assert(enrolled_match(snapshot@[i as int], preferences@));
                    }
                    return SelectionOutcome::AlreadyEnrolled;
                }
                j += 1;
            }
            proof {
                assert(!enrolled_match(snapshot@[i as int], preferences@));
            }
        }
        i += 1;
    }
    proof {
        assert(!some_enrolled_match(snapshot@, preferences@));
    }
    let mut j: usize = 0;
    while j < p
        invariant
            n == snapshot@.len(),
            p == preferences@.len(),
            j <= p,
            !some_enrolled_match(snapshot@, preferences@),
            chosen_from(snapshot@, preferences@, 0) == chosen_from(
                snapshot@,
                preferences@,
                j as int,
            ),
        decreases p - j,
    {
        let pref = &preferences[j];
        let mut i2: usize = 0;
        while i2 < n
            invariant
                n == snapshot@.len(),
                p == preferences@.len(),
                j < p,
                i2 <= n,
                pref == preferences@[j as int],
                !some_enrolled_match(snapshot@, preferences@),
                chosen_from(snapshot@, preferences@, 0) == chosen_from(
                    snapshot@,
                    preferences@,
                    j as int,
                ),
                first_open_match(snapshot@, preferences@[j as int]) == first_open_match_from(
                    snapshot@,
                    preferences@[j as int],
                    i2 as int,
                ),
            decreases n - i2,
        {
            let sec = &snapshot[i2];
            if sec.seats_taken < sec.total_seats && str_contains_ci(
                sec.section_name.as_str(),
                pref.as_str(),
            ) {
                proof {
                    assert(open_match(snapshot@[i2 as int], preferences@[j as int]));
                }
                return SelectionOutcome::SectionChosen { section_id: sec.section_id };
            }
            proof {
                assert(!open_match(snapshot@[i2 as int], preferences@[j as int]));
            }
            i2 += 1;
        }
        j += 1;
    }
    SelectionOutcome::NoAcceptableSection
}

/// One enrolled match decides the outcome: whatever else the snapshot
/// holds, however seats stand elsewhere, the selector answers
/// already-enrolled.
pub proof fn lemma_enrolled_match_wins(secs: Seq<CourseSection>, prefs: Seq<String>, i: int)
    requires
        0 <= i < secs.len(),
        enrolled_match(secs[i], prefs),
    ensures
        selection_of(secs, prefs) == SelectionOutcome::AlreadyEnrolled,
{
    assert(some_enrolled_match(secs, prefs));
}

/// Sections before `i` that match `pref` nowhere can be skipped: the first
/// open match from `k` is the first open match from `i`.
proof fn lemma_skip_sections(secs: Seq<CourseSection>, pref: String, k: int, i: int)
    requires
        0 <= k <= i <= secs.len(),
        forall|i2: int| k <= i2 < i ==> !open_match(secs[i2], pref),
    ensures
        first_open_match_from(secs, pref, k) == first_open_match_from(secs, pref, i),
    decreases i - k,
{
    if k < i {
        lemma_skip_sections(secs, pref, k + 1, i);
    }
}

/// Preference ranks before `j` that match nothing can be skipped: the walk
/// from rank `k` chooses what the walk from rank `j` chooses.
proof fn lemma_skip_prefs(secs: Seq<CourseSection>, prefs: Seq<String>, k: int, j: int)
    requires
        0 <= k <= j <= prefs.len(),
        forall|j2: int| k <= j2 < j ==> first_open_match(secs, prefs[j2]) is None,
    ensures
        chosen_from(secs, prefs, k) == chosen_from(secs, prefs, j),
    decreases j - k,
{
    if k < j {
        lemma_skip_prefs(secs, prefs, k + 1, j);
    }
}

/// The choice is the first open match of the earliest-ranked matching
/// preference: if no preference ranked before `j` matches any open section,
/// `secs[i]` openly matches `prefs[j]`, and no earlier section does, then
/// the walk chooses exactly `secs[i]`'s identifier. Ties among sections go
/// to the earliest snapshot entry by the same statement.
pub proof fn lemma_chosen_is_first(secs: Seq<CourseSection>, prefs: Seq<String>, j: int, i: int)
    requires
        0 <= j < prefs.len(),
        0 <= i < secs.len(),
        open_match(secs[i], prefs[j]),
        forall|j2: int| 0 <= j2 < j ==> first_open_match(secs, prefs[j2]) is None,
        forall|i2: int| 0 <= i2 < i ==> !open_match(secs[i2], prefs[j]),
    ensures
        chosen_section(secs, prefs) == Some(secs[i].section_id),
{
    lemma_skip_sections(secs, prefs[j], 0, i);
    lemma_skip_prefs(secs, prefs, 0, j);
}

/// When no preference entry openly matches any section at all, the walk
/// chooses nothing.
pub proof fn lemma_no_open_match_chooses_none(secs: Seq<CourseSection>, prefs: Seq<String>)
    requires
        forall|i: int, j: int|
            0 <= i < secs.len() && 0 <= j < prefs.len() ==> !open_match(secs[i], prefs[j]),
    ensures
        chosen_section(secs, prefs) is None,
{
    assert forall|j: int| 0 <= j < prefs.len() implies first_open_match(
        secs,
        prefs[j],
    ) is None by {
        lemma_skip_sections(secs, prefs[j], 0, secs.len() as int);
    }
    lemma_skip_prefs(secs, prefs, 0, prefs.len() as int);
}

} // verus!
