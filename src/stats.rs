use vstd::prelude::*;
use crate::links::{CounterLinkStatistics, StatisticRow};

verus! {

/// The text of an optional header value.
pub open spec fn opt_text(o: Option<String>) -> Option<Seq<char>> {
    match o {
        Some(s) => Some(s@),
        None => None,
    }
}

/// The referer and user agent that a visit was recorded with.
pub open spec fn row_key(r: StatisticRow) -> (Option<Seq<char>>, Option<Seq<char>>) {
    (opt_text(r.referer), opt_text(r.user_agent))
}

/// The referer and user agent that a group of visits shares.
pub open spec fn group_key(c: CounterLinkStatistics) -> (Option<Seq<char>>, Option<Seq<char>>) {
    (opt_text(c.referer), opt_text(c.user_agent))
}

/// How many of `rows` record a visit of the link `id`.
pub open spec fn visits(rows: Seq<StatisticRow>, id: Seq<char>) -> nat
    decreases rows.len(),
{
    if rows.len() == 0 {
        0
    } else {
        visits(rows.drop_last(), id) + if rows.last().link_id@ == id {
            1nat
        } else {
            0nat
        }
    }
}

/// How many of `rows` record a visit of the link `id` with the referer and user agent `key`.
pub open spec fn visits_with(
    rows: Seq<StatisticRow>,
    id: Seq<char>,
    key: (Option<Seq<char>>, Option<Seq<char>>),
) -> nat
    decreases rows.len(),
{
    if rows.len() == 0 {
        0
    } else {
        visits_with(rows.drop_last(), id, key) + if rows.last().link_id@ == id && row_key(
            rows.last(),
        ) == key {
            1nat
        } else {
            0nat
        }
    }
}

/// The count of a group, reading a missing count as zero.
pub open spec fn amount_of(c: CounterLinkStatistics) -> int {
    match c.amount {
        Some(a) => a as int,
        None => 0,
    }
}

/// The sum of the counts of `groups`.
pub open spec fn total_amount(groups: Seq<CounterLinkStatistics>) -> int
    decreases groups.len(),
{
    if groups.len() == 0 {
        0
    } else {
        total_amount(groups.drop_last()) + amount_of(groups.last())
    }
}

/// `groups` counts the visits of the link `id` among `rows`: one group for each distinct
/// referer and user agent pair seen with that link, holding the number of such visits.
pub open spec fn is_statistics_of(
    groups: Seq<CounterLinkStatistics>,
    rows: Seq<StatisticRow>,
    id: Seq<char>,
) -> bool {
    &&& forall|j: int|
        0 <= j < groups.len() ==> (#[trigger] groups[j]).amount == Some(
            visits_with(rows, id, group_key(groups[j])) as i64,
        ) && visits_with(rows, id, group_key(groups[j])) >= 1
    &&& forall|j: int, k: int|
        0 <= j < k < groups.len() ==> group_key(#[trigger] groups[j]) != group_key(
            #[trigger] groups[k],
        )
    &&& forall|i: int|
        0 <= i < rows.len() && (#[trigger] rows[i]).link_id@ == id ==> exists|j: int|
            0 <= j < groups.len() && group_key(#[trigger] groups[j]) == row_key(rows[i])
}

proof fn lemma_visits_with_bound(
    rows: Seq<StatisticRow>,
    id: Seq<char>,
    key: (Option<Seq<char>>, Option<Seq<char>>),
)
    ensures
        visits_with(rows, id, key) <= rows.len(),
    decreases rows.len(),
{
    if rows.len() > 0 {
        lemma_visits_with_bound(rows.drop_last(), id, key);
    }
}

proof fn lemma_visits_with_none(
    rows: Seq<StatisticRow>,
    id: Seq<char>,
    key: (Option<Seq<char>>, Option<Seq<char>>),
)
    requires
        forall|i: int|
            0 <= i < rows.len() && (#[trigger] rows[i]).link_id@ == id ==> row_key(rows[i])
                != key,
    ensures
        visits_with(rows, id, key) == 0,
    decreases rows.len(),
{
    if rows.len() > 0 {
        let init = rows.drop_last();
        assert forall|i: int|
            0 <= i < init.len() && (#[trigger] init[i]).link_id@ == id implies row_key(init[i])
                != key by {
            assert(init[i] == rows[i]);
        }
        lemma_visits_with_none(init, id, key);
        assert(rows.last() == rows[rows.len() - 1]);
    }
}

proof fn lemma_total_amount_update(
    groups: Seq<CounterLinkStatistics>,
    j: int,
    c: CounterLinkStatistics,
)
    requires
        0 <= j < groups.len(),
    ensures
        total_amount(groups.update(j, c)) == total_amount(groups) - amount_of(groups[j])
            + amount_of(c),
    decreases groups.len(),
{
    let u = groups.update(j, c);
    if j == groups.len() - 1 {
        assert(u.drop_last() =~= groups.drop_last());
    } else {
        assert(u.drop_last() =~= groups.drop_last().update(j, c));
        lemma_total_amount_update(groups.drop_last(), j, c);
    }
}

proof fn lemma_total_amount_at_least_len(groups: Seq<CounterLinkStatistics>)
    requires
        forall|j: int| 0 <= j < groups.len() ==> amount_of(#[trigger] groups[j]) >= 1,
    ensures
        total_amount(groups) >= groups.len(),
    decreases groups.len(),
{
    if groups.len() > 0 {
        let init = groups.drop_last();
        assert forall|j: int| 0 <= j < init.len() implies amount_of(#[trigger] init[j]) >= 1 by {
            assert(init[j] == groups[j]);
        }
        lemma_total_amount_at_least_len(init);
        assert(groups.last() == groups[groups.len() - 1]);
    }
}

/// Copies an optional header value.
fn copy_text(o: &Option<String>) -> (r: Option<String>)
    ensures
        r == *o,
{
    match o {
        Some(s) => Some(s.clone()),
        None => None,
    }
}

/// Whether two optional header values hold the same text.
fn same_text(a: &Option<String>, b: &Option<String>) -> (r: bool)
    ensures
        r == (opt_text(*a) == opt_text(*b)),
{
    match (a, b) {
        (Some(x), Some(y)) => *x == *y,
        (None, None) => true,
        _ => false,
    }
}

/// The position among `groups` of the group with the referer and user agent of `row`.
fn find_group(groups: &Vec<CounterLinkStatistics>, row: &StatisticRow) -> (r: Option<usize>)
    ensures
        r is Some ==> r->0 < groups@.len() && group_key(groups@[r->0 as int]) == row_key(*row),
        r is None ==> forall|j: int|
            0 <= j < groups@.len() ==> group_key(#[trigger] groups@[j]) != row_key(*row),
{
    let mut j: usize = 0;
    while j < groups.len()
        invariant
            j <= groups@.len(),
            forall|k: int| 0 <= k < j ==> group_key(#[trigger] groups@[k]) != row_key(*row),
        decreases groups@.len() - j,
    {
        if same_text(&groups[j].referer, &row.referer) && same_text(
            &groups[j].user_agent,
            &row.user_agent,
        ) {
            return Some(j);
        }
        j = j + 1;
    }
    None
}

/// Counts the visits of the link `link_id` among the recorded `rows`, one group for each
/// distinct referer and user agent pair. A link with no recorded visit, known or not, has
/// no group.
pub fn get_link_statistics(link_id: &String, rows: &Vec<StatisticRow>) -> (r: Vec<
    CounterLinkStatistics,
>)
    requires
        rows@.len() <= i64::MAX,
    ensures
        is_statistics_of(r@, rows@, link_id@),
        total_amount(r@) == visits(rows@, link_id@),
        r@.len() == 0 <==> visits(rows@, link_id@) == 0,
{
    let mut groups: Vec<CounterLinkStatistics> = Vec::new();
    let mut i: usize = 0;
    while i < rows.len()
        invariant
            i <= rows@.len() <= i64::MAX,
            is_statistics_of(groups@, rows@.take(i as int), link_id@),
            total_amount(groups@) == visits(rows@.take(i as int), link_id@),
        decreases rows@.len() - i,
    {
        let ghost before = rows@.take(i as int);
        let ghost after = rows@.take(i + 1);
        let ghost old_groups = groups@;
        let row = &rows[i];
        proof {
            assert(after.drop_last() =~= before);
            assert(after.last() == *row);
        }
        if row.link_id == *link_id {
            match find_group(&groups, row) {
                Some(j) => {
                    let count: i64 = match groups[j].amount {
                        Some(a) => a,
                        None => 0,
                    };
                    proof {
                        lemma_visits_with_bound(before, link_id@, row_key(*row));
                    }
                    let entry = CounterLinkStatistics {
                        amount: Some(count + 1),
                        referer: copy_text(&groups[j].referer),
                        user_agent: copy_text(&groups[j].user_agent),
                    };
                    groups.set(j, entry);
                    proof {
                        lemma_total_amount_update(old_groups, j as int, entry);
                        assert forall|k: int| 0 <= k < after.len() && (#[trigger] after[k]).link_id@
                            == link_id@ implies exists|g: int|
                            0 <= g < groups@.len() && group_key(#[trigger] groups@[g])
                                == row_key(after[k]) by {
                            if k < i {
                                assert(after[k] == before[k]);
                                let g = choose|g: int|
                                    0 <= g < old_groups.len() && group_key(#[trigger] old_groups[g])
                                        == row_key(before[k]);
                                assert(group_key(groups@[g]) == group_key(old_groups[g]));
                            } else {
                                assert(group_key(groups@[j as int]) == row_key(after[k]));
                            }
                        }
                    }
                },
                None => {
                    let entry = CounterLinkStatistics {
                        amount: Some(1),
                        referer: copy_text(&row.referer),
                        user_agent: copy_text(&row.user_agent),
                    };
                    proof {
                        assert forall|k: int|
                            0 <= k < before.len() && (#[trigger] before[k]).link_id@
                                == link_id@ implies row_key(before[k]) != row_key(*row) by {
                            let g = choose|g: int|
                                0 <= g < old_groups.len() && group_key(#[trigger] old_groups[g])
                                    == row_key(before[k]);
                        }
                        lemma_visits_with_none(before, link_id@, row_key(*row));
                    }
                    groups.push(entry);
                    proof {
                        assert(groups@.drop_last() =~= old_groups);
                        assert forall|k: int| 0 <= k < after.len() && (#[trigger] after[k]).link_id@
                            == link_id@ implies exists|g: int|
                            0 <= g < groups@.len() && group_key(#[trigger] groups@[g])
                                == row_key(after[k]) by {
                            if k < i {
                                assert(after[k] == before[k]);
                                let g = choose|g: int|
                                    0 <= g < old_groups.len() && group_key(#[trigger] old_groups[g])
                                        == row_key(before[k]);
                                assert(groups@[g] == old_groups[g]);
                            } else {
                                assert(groups@[old_groups.len() as int] == entry);
                            }
                        }
                    }
                },
            }
        } else {
            proof {
                assert forall|k: int| 0 <= k < after.len() && (#[trigger] after[k]).link_id@
                    == link_id@ implies exists|g: int|
                    0 <= g < groups@.len() && group_key(#[trigger] groups@[g])
                        == row_key(after[k]) by {
                    assert(after[k] == before[k]);
                }
            }
        }
        i = i + 1;
    }
    proof {
        assert(rows@.take(rows@.len() as int) =~= rows@);
        assert forall|j: int| 0 <= j < groups@.len() implies amount_of(#[trigger] groups@[j])
            >= 1 by {
            lemma_visits_with_bound(rows@, link_id@, group_key(groups@[j]));
        }
        lemma_total_amount_at_least_len(groups@);
    }
    groups
}

} // verus!
