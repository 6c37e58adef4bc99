use vstd::prelude::*;
use vstd::string::StringExecFns;

use crate::common::format::{
    center, centered, decimal, decimal_text, lemma_optional_text_le_order,
    optional_text_before_or_equal, optional_text_le, texts_view,
};
use crate::repository::{details_view, TagDetails, TagDetailsView};

verus! {

/// A sorted list with one more build, put behind the builds whose architecture does not
/// come after its own.
pub open spec fn inserted(sorted: Seq<TagDetailsView>, d: TagDetailsView) -> Seq<TagDetailsView>
    decreases sorted.len(),
{
    if sorted.len() == 0 {
        seq![d]
    } else if optional_text_le(sorted.last().arch, d.arch) {
        sorted.push(d)
    } else {
        inserted(sorted.drop_last(), d).push(sorted.last())
    }
}

/// The builds in the order of their architecture; builds of one architecture keep the order
/// they came in.
pub open spec fn sorted_by_arch(details: Seq<TagDetailsView>) -> Seq<TagDetailsView>
    decreases details.len(),
{
    if details.len() == 0 {
        Seq::empty()
    } else {
        inserted(sorted_by_arch(details.drop_last()), details.last())
    }
}

/// The builds without those that repeat the build just before them.
pub open spec fn deduplicated(details: Seq<TagDetailsView>) -> Seq<TagDetailsView>
    decreases details.len(),
{
    if details.len() == 0 {
        Seq::empty()
    } else {
        let before = deduplicated(details.drop_last());
        if before.len() > 0 && before.last() == details.last() {
            before
        } else {
            before.push(details.last())
        }
    }
}

/// The builds that the panel lists for a tag.
pub open spec fn listed(details: Seq<TagDetailsView>) -> Seq<TagDetailsView> {
    deduplicated(sorted_by_arch(details))
}

/// Whether every build stands before the builds whose architecture comes after its own.
pub open spec fn in_order(details: Seq<TagDetailsView>) -> bool {
    forall|i: int, j: int|
        0 <= i < j < details.len() ==> optional_text_le(
            #[trigger] details[i].arch,
            #[trigger] details[j].arch,
        )
}

/// The heading of the panel.
pub open spec fn heading() -> Seq<char> {
    centered("ARCH"@, 10) + "|"@ + centered("OS"@, 6) + "|"@ + centered("SIZE"@, 6)
}

/// The text of an optional text: a missing one is empty.
pub open spec fn or_empty(text: Option<Seq<char>>) -> Seq<char> {
    match text {
        Some(t) => t,
        None => Seq::empty(),
    }
}

/// The size of a build in whole megabytes; a missing size counts as zero.
pub open spec fn megabytes(size: Option<usize>) -> nat {
    match size {
        Some(n) => (n / 1024 / 1024) as nat,
        None => 0,
    }
}

/// The line of the panel for one build: architecture, system and size, each centred in its
/// column.
pub open spec fn detail_line(d: TagDetailsView) -> Seq<char> {
    centered(or_empty(d.arch), 10) + "|"@ + centered(or_empty(d.os), 6) + "|"@ + centered(
        decimal(megabytes(d.size)) + "MB"@,
        6,
    )
}

/// The lines of the panel: the heading, then one line for every build.
pub open spec fn panel(details: Seq<TagDetailsView>) -> Seq<Seq<char>> {
    seq![heading()] + Seq::new(details.len(), |i: int| detail_line(details[i]))
}

/// The panel that lists the platform builds of the selected tag.
#[derive(Debug)]
pub struct Details {
    details: Vec<TagDetails>,
}

impl View for Details {
    type V = Seq<TagDetailsView>;

    closed spec fn view(&self) -> Seq<TagDetailsView> {
        details_view(self.details@)
    }
}

/// Whether two builds are the same in every field.
fn same(a: &TagDetails, b: &TagDetails) -> (r: bool)
    ensures
        r == (a@ == b@),
{
    same_text(&a.arch, &b.arch) && same_text(&a.variant, &b.variant) && same_text(&a.os, &b.os)
        && a.size == b.size
}

/// Whether two optional texts are the same.
fn same_text(a: &Option<String>, b: &Option<String>) -> (r: bool)
    ensures
        r == (crate::repository::text_view(*a) == crate::repository::text_view(*b)),
{
    match (a, b) {
        (None, None) => true,
        (Some(x), Some(y)) => {
            let equal = *x == *y;
            assert(equal == (x@ == y@));
            equal
        },
        _ => false,
    }
}

/// Putting a build at place `at` of a sorted list is inserting it, where every build from
/// `at` on comes after it and the one before does not.
proof fn lemma_inserted_at(sorted: Seq<TagDetailsView>, d: TagDetailsView, at: int)
    requires
        0 <= at <= sorted.len(),
        forall|j: int| at <= j < sorted.len() ==> !optional_text_le(sorted[j].arch, d.arch),
        at > 0 ==> optional_text_le(sorted[at - 1].arch, d.arch),
    ensures
        inserted(sorted, d) == sorted.insert(at, d),
    decreases sorted.len() - at,
{
    if at == sorted.len() {
        assert(sorted.insert(at, d) =~= sorted.push(d));
    } else {
        lemma_inserted_at(sorted.drop_last(), d, at);
        assert(sorted.drop_last().insert(at, d).push(sorted.last()) =~= sorted.insert(at, d));
    }
}

impl Details {
    pub fn new() -> (r: Self)
        ensures
            r@ == Seq::<TagDetailsView>::empty(),
    {
        let details = Self { details: Vec::new() };
        assert(details@ =~= Seq::<TagDetailsView>::empty());
        details
    }

    pub fn with_list(details: &[TagDetails]) -> (r: Self)
        ensures
            r@ == listed(details_view(details@)),
    {
        let mut sorted: Vec<TagDetails> = Vec::new();
        let mut i: usize = 0;
        assert(details_view(details@).take(0) =~= Seq::<TagDetailsView>::empty());
        while i < details.len()
            invariant
                i <= details.len(),
                details_view(sorted@) == sorted_by_arch(details_view(details@).take(i as int)),
            decreases details.len() - i,
        {
            let d = details[i].clone();
            let mut at: usize = sorted.len();
            while at > 0 && !optional_text_before_or_equal(&sorted[at - 1].arch, &d.arch)
                invariant
                    at <= sorted.len(),
                    forall|j: int|
                        at <= j < sorted@.len() ==> !optional_text_le(
                            details_view(sorted@)[j].arch,
                            d@.arch,
                        ),
                decreases at,
            {
                at -= 1;
            }
            proof {
                let before = details_view(sorted@);
                lemma_inserted_at(before, d@, at as int);
                let prefix = details_view(details@).take(i + 1);
                assert(prefix.drop_last() =~= details_view(details@).take(i as int));
                assert(prefix.last() == d@);
            }
            let ghost before = details_view(sorted@);
            sorted.insert(at, d);
            assert(details_view(sorted@) =~= before.insert(at as int, d@));
            i += 1;
        }
        assert(details_view(details@).take(details@.len() as int) =~= details_view(details@));

        let mut kept: Vec<TagDetails> = Vec::new();
        let mut k: usize = 0;
        assert(details_view(sorted@).take(0) =~= Seq::<TagDetailsView>::empty());
        while k < sorted.len()
            invariant
                k <= sorted.len(),
                details_view(kept@) == deduplicated(details_view(sorted@).take(k as int)),
            decreases sorted.len() - k,
        {
            proof {
                let prefix = details_view(sorted@).take(k + 1);
                assert(prefix.drop_last() =~= details_view(sorted@).take(k as int));
                assert(prefix.last() == sorted@[k as int]@);
            }
            let ghost before = details_view(kept@);
            let repeats = kept.len() > 0 && same(&kept[kept.len() - 1], &sorted[k]);
            if !repeats {
                kept.push(sorted[k].clone());
                assert(details_view(kept@) =~= before.push(sorted@[k as int]@));
            }
            k += 1;
        }
        assert(details_view(sorted@).take(sorted@.len() as int) =~= details_view(sorted@));
        Self { details: kept }
    }

    pub fn get_details(&self) -> (r: Vec<String>)
        ensures
            texts_view(r@) == panel(self@),
    {
        let mut lines: Vec<String> = Vec::new();
        let mut head = center("ARCH", 10);
        head.append("|");
        head.append(center("OS", 6).as_str());
        head.append("|");
        head.append(center("SIZE", 6).as_str());
        lines.push(head);
        let mut i: usize = 0;
        while i < self.details.len()
            invariant
                i <= self.details.len(),
                lines@.len() == i + 1,
                lines@[0]@ == heading(),
                forall|j: int|
                    0 <= j < i ==> (#[trigger] lines@[j + 1])@ == detail_line(
                        self.details@[j]@,
                    ),
            decreases self.details.len() - i,
        {
            let d = &self.details[i];
            let arch = match &d.arch {
                Some(text) => text.as_str(),
                None => "",
            };
            let os = match &d.os {
                Some(text) => text.as_str(),
                None => "",
            };
            let size: usize = match d.size {
                Some(n) => n,
                None => 0,
            };
            proof {
                reveal_strlit("");
                assert(""@ =~= Seq::<char>::empty());
            }
            let mut line = center(arch, 10);
            line.append("|");
            line.append(center(os, 6).as_str());
            line.append("|");
            let amount = decimal_text((size / 1024 / 1024) as u64).concat("MB");
            line.append(center(amount.as_str(), 6).as_str());
            lines.push(line);
            i += 1;
        }
        proof {
            let shown = texts_view(lines@);
            assert(shown.len() == panel(self@).len());
            assert forall|k: int| 0 <= k < shown.len() implies shown[k] == panel(self@)[k] by {
                if k > 0 {
                    assert(shown[k] == (#[trigger] lines@[(k - 1) + 1])@);
                }
            }
            assert(shown =~= panel(self@));
        }
        lines
    }
}

/// Inserting a build into a list in order gives a list in order that holds the builds of
/// the list and the new one.
pub proof fn lemma_inserted_in_order(sorted: Seq<TagDetailsView>, d: TagDetailsView)
    requires
        in_order(sorted),
    ensures
        in_order(inserted(sorted, d)),
        inserted(sorted, d).len() == sorted.len() + 1,
        inserted(sorted, d).to_multiset() == sorted.to_multiset().insert(d),
        forall|i: int|
            0 <= i < inserted(sorted, d).len() ==> (#[trigger] inserted(sorted, d)[i]) == d
                || sorted.contains(inserted(sorted, d)[i]),
    decreases sorted.len(),
{
    broadcast use vstd::seq_lib::group_to_multiset_ensures;

    let result = inserted(sorted, d);
    if sorted.len() == 0 {
        assert(result =~= Seq::<TagDetailsView>::empty().push(d));
    } else if optional_text_le(sorted.last().arch, d.arch) {
        assert forall|i: int, j: int| 0 <= i < j < result.len() implies optional_text_le(
            #[trigger] result[i].arch,
            #[trigger] result[j].arch,
        ) by {
            if j == sorted.len() {
                lemma_optional_text_le_order(sorted[i].arch, sorted.last().arch, d.arch);
            }
        }
        assert forall|i: int| 0 <= i < result.len() implies (#[trigger] result[i]) == d
            || sorted.contains(result[i]) by {
            if i < sorted.len() {
                assert(sorted[i] == result[i]);
            }
        }
    } else {
        let rest = sorted.drop_last();
        let last = sorted.last();
        assert(in_order(rest)) by {
            assert forall|i: int, j: int| 0 <= i < j < rest.len() implies optional_text_le(
                #[trigger] rest[i].arch,
                #[trigger] rest[j].arch,
            ) by {
                assert(rest[i] == sorted[i] && rest[j] == sorted[j]);
            }
        }
        lemma_inserted_in_order(rest, d);
        let before = inserted(rest, d);
        assert(result == before.push(last));
        lemma_optional_text_le_order(last.arch, d.arch, d.arch);
        assert forall|i: int, j: int| 0 <= i < j < result.len() implies optional_text_le(
            #[trigger] result[i].arch,
            #[trigger] result[j].arch,
        ) by {
            if j == before.len() {
                if before[i] != d {
                    assert(rest.contains(before[i]));
                    let k = choose|k: int| 0 <= k < rest.len() && rest[k] == before[i];
                    assert(sorted[k] == before[i]);
                    assert(optional_text_le(sorted[k].arch, sorted[sorted.len() - 1].arch));
                }
            } else {
                assert(result[i] == before[i] && result[j] == before[j]);
            }
        }
        assert forall|i: int| 0 <= i < result.len() implies (#[trigger] result[i]) == d
            || sorted.contains(result[i]) by {
            if i < before.len() {
                assert(result[i] == before[i]);
                if before[i] != d {
                    let k = choose|k: int| 0 <= k < rest.len() && rest[k] == before[i];
                    assert(sorted[k] == before[i]);
                }
            } else {
                assert(sorted[sorted.len() - 1] == result[i]);
            }
        }
        assert(sorted =~= rest.push(last));
        assert(result.to_multiset() =~= sorted.to_multiset().insert(d));
    }
}

/// The builds in the order of their architecture are the builds that were given, each as
/// often as it was given, and none stands before a build whose architecture comes before
/// its own.
pub proof fn lemma_sorted_in_order(details: Seq<TagDetailsView>)
    ensures
        in_order(sorted_by_arch(details)),
        sorted_by_arch(details).len() == details.len(),
        sorted_by_arch(details).to_multiset() == details.to_multiset(),
    decreases details.len(),
{
    broadcast use vstd::seq_lib::group_to_multiset_ensures;

    if details.len() > 0 {
        lemma_sorted_in_order(details.drop_last());
        lemma_inserted_in_order(sorted_by_arch(details.drop_last()), details.last());
        assert(details =~= details.drop_last().push(details.last()));
    } else {
        assert(details =~= Seq::<TagDetailsView>::empty());
    }
}

/// Dropping repeated builds leaves no build that equals the one before it, and keeps the
/// order of a list in order.
pub proof fn lemma_deduplicated(details: Seq<TagDetailsView>)
    ensures
        deduplicated(details).len() <= details.len(),
        details.len() > 0 ==> deduplicated(details).len() > 0 && deduplicated(details).last()
            == details.last(),
        forall|i: int|
            0 < i < deduplicated(details).len() ==> (#[trigger] deduplicated(details)[i])
                != deduplicated(details)[i - 1],
        forall|i: int|
            0 <= i < deduplicated(details).len() ==> details.contains(
                #[trigger] deduplicated(details)[i],
            ),
    decreases details.len(),
{
    if details.len() > 0 {
        let rest = details.drop_last();
        lemma_deduplicated(rest);
        let before = deduplicated(rest);
        let result = deduplicated(details);
        assert forall|i: int| 0 <= i < result.len() implies details.contains(
            #[trigger] result[i],
        ) by {
            if i < before.len() {
                assert(result[i] == before[i]);
                let k = choose|k: int| 0 <= k < rest.len() && rest[k] == before[i];
                assert(details[k] == before[i]);
            } else {
                assert(details[details.len() - 1] == result[i]);
            }
        }
    }
}

} // verus!
