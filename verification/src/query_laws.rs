//! What holds of every compiled query: read back from the text, the
//! placeholders number the bound values without a gap.

use vstd::prelude::*;
use crate::filter::{BigIntFilter, SqlValue, StoryRankingFilter, StoryRankingSort};
use crate::placeholders::{
    dollar_free, is_digit, lemma_decimal_reads_back, lemma_dollar_free_has_none,
    lemma_none_is_dollar_free, lemma_numbered_placeholder, lemma_placeholders_of_all_concat,
    lemma_placeholders_of_all_none, lemma_placeholders_of_joined, lemma_placeholders_skip,
    lemma_placeholders_split, number_from, placeholders, placeholders_from, placeholders_of_all,
};
use crate::query::{
    clause_texts, effective_page_number, effective_page_size, effective_window, is_bounded,
    is_sortable, order_items, page_items, pattern_bindings, pattern_group, query_bindings,
    query_text, query_values, rest_bindings, sort_clause, sort_items, sort_text, where_clause,
    where_items, window_bindings, Binding, Predicate, BASE_PROJECTION,
};
use crate::text::{decimal, joined};

verus! {

/// The numbers `first`, `first + 1` and so on, `count` of them.
pub open spec fn counting(first: nat, count: nat) -> Seq<nat> {
    Seq::new(count, |k: int| (first + k) as nat)
}

proof fn lemma_column_names()
    ensures
        dollar_free("timestamp"@),
        dollar_free("score"@),
        dollar_free("stars"@),
        dollar_free("title"@),
        dollar_free("comment"@),
        dollar_free("url"@),
        dollar_free("status"@),
        dollar_free("flags"@),
{
    reveal_strlit("timestamp");
    reveal_strlit("score");
    reveal_strlit("stars");
    reveal_strlit("title");
    reveal_strlit("comment");
    reveal_strlit("url");
    reveal_strlit("status");
    reveal_strlit("flags");
}

proof fn lemma_z_score_expression()
    ensures
        dollar_free("((cast(s.score as float) - s.mean_score) / s.stddev_score)"@),
{
    let text = "((cast(s.score as float) - s.mean_score) / s.stddev_score)"@;
    reveal_strlit("((cast(s.score as float) - s.mean_score) / s.stddev_score)");
    reveal_with_fuel(placeholders_from, 60);
    assert(placeholders(text).len() == 0);
    lemma_none_is_dollar_free(text);
}

proof fn lemma_operators()
    ensures
        dollar_free(" > "@),
        dollar_free(" < "@),
        dollar_free(" !~* "@),
        dollar_free(" ~* "@),
        dollar_free(" >= "@),
        dollar_free(" = "@),
        "$"@ == seq!['$'],
{
    reveal_strlit(" > ");
    reveal_strlit(" < ");
    reveal_strlit(" !~* ");
    reveal_strlit(" ~* ");
    reveal_strlit(" >= ");
    reveal_strlit(" = ");
    reveal_strlit("$");
    assert("$"@ =~= seq!['$']);
}

proof fn lemma_separators()
    ensures
        dollar_free(" and "@) && " and "@.len() > 0 && !is_digit(" and "@[0]),
        dollar_free(" or "@) && " or "@.len() > 0 && !is_digit(" or "@[0]),
        dollar_free(" "@) && " "@.len() > 0 && !is_digit(" "@[0]),
        dollar_free(" \n"@) && " \n"@.len() > 0 && !is_digit(" \n"@[0]),
        dollar_free("("@),
        dollar_free(")"@) && ")"@.len() > 0 && !is_digit(")"@[0]),
        dollar_free("where "@),
        dollar_free("order by "@),
{
    reveal_strlit(" and ");
    reveal_strlit(" or ");
    reveal_strlit(" ");
    reveal_strlit(" \n");
    reveal_strlit("(");
    reveal_strlit(")");
    reveal_strlit("where ");
    reveal_strlit("order by ");
}

proof fn lemma_sort_words()
    ensures
        dollar_free(" asc"@),
        dollar_free(" desc"@),
        dollar_free("timestamp desc"@),
        dollar_free("limit "@),
        dollar_free("offset "@),
{
    reveal_strlit(" asc");
    reveal_strlit(" desc");
    reveal_strlit("timestamp desc");
    reveal_strlit("limit ");
    reveal_strlit("offset ");
}

/// A predicate, written with placeholder `n`, has that one placeholder.
pub proof fn lemma_predicate_placeholder(predicate: Predicate, n: nat)
    ensures
        placeholders(predicate.text(n)) == seq![n],
{
    lemma_column_names();
    lemma_z_score_expression();
    lemma_operators();
    let before = predicate.subject() + predicate.operator();
    assert(dollar_free(before));
    let none = Seq::<char>::empty();
    assert(predicate.text(n) =~= before + (seq!['$'] + (decimal(n) + none)));
    lemma_placeholders_skip(before, seq!['$'] + (decimal(n) + none));
    lemma_numbered_placeholder(n, none);
}

/// Predicates numbered from `first` on have the placeholders `first`,
/// `first + 1` and so on, in order.
pub proof fn lemma_clause_placeholders(bs: Seq<Binding>, first: nat)
    ensures
        placeholders_of_all(clause_texts(bs, first)) == counting(first, bs.len()),
    decreases bs.len(),
{
    let items = clause_texts(bs, first);
    if bs.len() == 0 {
        assert(placeholders_of_all(items) =~= counting(first, bs.len()));
    } else {
        lemma_clause_placeholders(bs.drop_last(), first);
        assert(items.drop_last() =~= clause_texts(bs.drop_last(), first));
        lemma_predicate_placeholder(bs.last().predicate, (first + bs.len() - 1) as nat);
        assert(placeholders_of_all(items) =~= counting(first, bs.len()));
    }
}

/// The group of pattern alternatives has the placeholders of its
/// alternatives.
pub proof fn lemma_group_placeholders(patterns: Seq<Binding>, first: nat)
    ensures
        placeholders_of_all(pattern_group(patterns, first)) == counting(first, patterns.len()),
{
    lemma_separators();
    if patterns.len() > 0 {
        let inner = joined(clause_texts(patterns, first), " or "@);
        let group = "("@ + inner + ")"@;
        lemma_placeholders_of_joined(clause_texts(patterns, first), " or "@);
        lemma_clause_placeholders(patterns, first);
        assert(group =~= "("@ + (inner + ")"@));
        lemma_placeholders_skip("("@, inner + ")"@);
        lemma_placeholders_split(inner, ")"@);
        lemma_dollar_free_has_none(")"@);
        assert(placeholders(group) =~= counting(first, patterns.len()));
        let items = pattern_group(patterns, first);
        assert(items.drop_last() =~= Seq::<Seq<char>>::empty());
        assert(placeholders_of_all(items.drop_last()) =~= Seq::<nat>::empty());
        assert(items.last() == group);
        assert(placeholders_of_all(items) =~= counting(first, patterns.len()));
    } else {
        assert(placeholders_of_all(pattern_group(patterns, first)) =~= counting(
            first,
            patterns.len(),
        ));
    }
}

/// The `where` clause has one placeholder for each binding, numbered from
/// 2 on in the order of the text.
pub proof fn lemma_where_clause_placeholders(filter: StoryRankingFilter, window: BigIntFilter)
    ensures
        placeholders(where_clause(filter, window)) == counting(
            2,
            window_bindings(window).len() + pattern_bindings(filter).len() + rest_bindings(
                filter,
            ).len(),
        ),
{
    lemma_separators();
    let a = window_bindings(window);
    let b = pattern_bindings(filter);
    let c = rest_bindings(filter);
    let first = clause_texts(a, 2);
    let second = pattern_group(b, 2 + a.len());
    let third = clause_texts(c, 2 + a.len() + b.len());
    let items = where_items(filter, window);
    assert(items == first + second + third);
    lemma_placeholders_of_all_concat(first + second, third);
    lemma_placeholders_of_all_concat(first, second);
    lemma_clause_placeholders(a, 2);
    lemma_group_placeholders(b, 2 + a.len());
    lemma_clause_placeholders(c, 2 + a.len() + b.len());
    assert(placeholders_of_all(items) =~= counting(2, a.len() + b.len() + c.len()));
    let body = joined(items, " and "@);
    lemma_placeholders_of_joined(items, " and "@);
    assert(where_clause(filter, window) =~= "where "@ + (body + " "@));
    lemma_placeholders_skip("where "@, body + " "@);
    lemma_placeholders_split(body, " "@);
    lemma_dollar_free_has_none(" "@);
    assert(placeholders(where_clause(filter, window)) =~= counting(
        2,
        a.len() + b.len() + c.len(),
    ));
}

proof fn lemma_sort_items_are_dollar_free(keys: Seq<StoryRankingSort>)
    ensures
        forall|k: int| 0 <= k < sort_items(keys).len() ==> dollar_free(#[trigger] sort_items(keys)[k]),
    decreases keys.len(),
{
    if keys.len() > 0 {
        let before = sort_items(keys.drop_last());
        lemma_sort_items_are_dollar_free(keys.drop_last());
        lemma_column_names();
        lemma_sort_words();
        if is_sortable(keys.last().sort@) {
            assert(dollar_free(sort_text(keys.last())));
            assert(sort_items(keys) == before.push(sort_text(keys.last())));
        } else {
            assert(sort_items(keys) == before);
        }
        assert forall|k: int| 0 <= k < sort_items(keys).len() implies dollar_free(
            #[trigger] sort_items(keys)[k],
        ) by {
            if k < before.len() {
                assert(sort_items(keys)[k] == before[k]);
            }
        }
    }
}

/// The `order by` clause has no placeholder.
pub proof fn lemma_sort_clause_placeholders(filter: StoryRankingFilter)
    ensures
        placeholders(sort_clause(filter)) == Seq::<nat>::empty(),
{
    lemma_separators();
    lemma_sort_words();
    let order = order_items(filter.sort);
    let page = page_items(filter.page_size, filter.page_number);
    let items = order + page;
    match filter.sort {
        Some(keys) => lemma_sort_items_are_dollar_free(keys@),
        None => {},
    }
    let size = effective_page_size(filter.page_size);
    let number = effective_page_number(filter.page_number);
    lemma_decimal_reads_back(size as nat);
    lemma_decimal_reads_back((number * size) as nat);
    assert(dollar_free(page[0]));
    assert(dollar_free(page[1]));
    assert forall|k: int| 0 <= k < items.len() implies dollar_free(#[trigger] items[k]) by {
        if k < order.len() {
            assert(items[k] == order[k]);
        } else {
            assert(items[k] == page[k - order.len()]);
        }
    }
    lemma_placeholders_of_all_none(items);
    let body = joined(items, " "@);
    lemma_placeholders_of_joined(items, " "@);
    assert(sort_clause(filter) =~= "order by "@ + (body + " "@));
    lemma_placeholders_skip("order by "@, body + " "@);
    lemma_placeholders_split(body, " "@);
    lemma_dollar_free_has_none(" "@);
}

/// The base projection refers to the second value, the start of the
/// statistics window, and then to the first, the user.
pub proof fn lemma_base_projection_placeholders()
    ensures
        placeholders(BASE_PROJECTION@) == seq![2nat, 1nat],
{
    let text = BASE_PROJECTION@;
    reveal_strlit(
        "
        with stats as (
            select avg(score) mean_score, stddev(score) stddev_score
            from hnstar.story
            where timestamp > $2
        ), scored_stories as (
            select * from hnstar.story, stats
        )
        select s.story_id, s.score, s.timestamp, s.title, s.url
            , s.status, s.descendants, r.stars, r.flags
            , cast(count(*) over() as integer) as full_count
        from scored_stories s
        left join hnstar.story_user_rank r
            on r.story_id = s.story_id and r.user_main_id = $1
    ",
    );
    reveal_with_fuel(placeholders_from, 50);
    reveal_with_fuel(number_from, 3);
    assert(placeholders_from(text, 520) =~= seq![1nat]);
    assert(placeholders_from(text, 480) =~= seq![1nat]);
    assert(placeholders_from(text, 440) =~= seq![1nat]);
    assert(placeholders_from(text, 400) =~= seq![1nat]);
    assert(placeholders_from(text, 360) =~= seq![1nat]);
    assert(placeholders_from(text, 320) =~= seq![1nat]);
    assert(placeholders_from(text, 280) =~= seq![1nat]);
    assert(placeholders_from(text, 240) =~= seq![1nat]);
    assert(placeholders_from(text, 200) =~= seq![1nat]);
    assert(placeholders_from(text, 160) =~= seq![1nat]);
    assert(placeholders_from(text, 120) =~= seq![2nat, 1nat]);
    assert(placeholders_from(text, 80) =~= seq![2nat, 1nat]);
    assert(placeholders_from(text, 40) =~= seq![2nat, 1nat]);
    assert(placeholders_from(text, 0) =~= seq![2nat, 1nat]);
}

/// Read back from the text of a query, the placeholders are those of the
/// base projection, `$2` and `$1`, and then, in the `where` clause, one for
/// each bound predicate, numbered 2, 3 and so on without a gap in the
/// order of the text; the `order by` clause has none. The query binds one
/// value more than it has predicates, so where the timestamp filter bounds
/// the scan, every placeholder numbers a value of the list, and every
/// value of the list is numbered by a placeholder.
pub proof fn law_placeholders_number_the_values(filter: StoryRankingFilter, user_id: int, now: int)
    ensures
        ({
            let window = effective_window(filter.timestamp, now);
            let found = placeholders(query_text(filter, now));
            let bound = query_values(filter, user_id, now);
            &&& bound.len() == query_bindings(filter, now).len() + 1
            &&& placeholders(where_clause(filter, window)) == counting(2, (bound.len() - 1) as nat)
            &&& found == seq![2nat, 1nat] + counting(2, (bound.len() - 1) as nat)
            &&& is_bounded(window) ==> forall|i: int|
                0 <= i < found.len() ==> 1 <= #[trigger] found[i] <= bound.len()
            &&& is_bounded(window) ==> forall|n: nat|
                1 <= n <= bound.len() ==> #[trigger] found.contains(n)
        }),
{
    lemma_separators();
    let window = effective_window(filter.timestamp, now);
    let base = BASE_PROJECTION@;
    let gap = " \n"@;
    let conditions = where_clause(filter, window);
    let order = sort_clause(filter);
    let text = query_text(filter, now);
    let found = placeholders(text);
    let bound = query_values(filter, user_id, now);
    let count = (bound.len() - 1) as nat;
    assert(query_bindings(filter, now).len() == window_bindings(window).len() + pattern_bindings(
        filter,
    ).len() + rest_bindings(filter).len());
    lemma_base_projection_placeholders();
    lemma_where_clause_placeholders(filter, window);
    lemma_sort_clause_placeholders(filter);
    assert(text =~= base + (gap + (conditions + (gap + order))));
    lemma_placeholders_split(base, gap + (conditions + (gap + order)));
    lemma_placeholders_skip(gap, conditions + (gap + order));
    lemma_placeholders_split(conditions, gap + order);
    lemma_placeholders_skip(gap, order);
    assert(found =~= seq![2nat, 1nat] + counting(2, count));
    if is_bounded(window) {
        assert(window_bindings(window).len() >= 1);
        assert forall|n: nat| 1 <= n <= bound.len() implies #[trigger] found.contains(n) by {
            if n == 1 {
                assert(found[1] == 1);
            } else {
                assert(found[n as int] == n);
            }
        }
    }
}

/// The predicates of a query as text, in the order in which they stand in
/// the `where` clause, the pattern group taken apart into its alternatives.
pub open spec fn predicate_texts(filter: StoryRankingFilter, window: BigIntFilter) -> Seq<Seq<char>> {
    let window_part = window_bindings(window);
    let patterns = pattern_bindings(filter);
    let rest = rest_bindings(filter);
    clause_texts(window_part, 2) + clause_texts(patterns, 2 + window_part.len()) + clause_texts(
        rest,
        2 + window_part.len() + patterns.len(),
    )
}

/// For every filter, whichever of its parts are present: the query binds
/// one value for the user and one for each predicate; the predicates
/// compare, in the order of the text, with the placeholders 2, 3 and so on
/// without a gap; and the value at index `n - 1` of the list is the one
/// that the predicate with placeholder `n` was given.
pub proof fn law_placeholders_match_values(filter: StoryRankingFilter, user_id: int, now: int)
    ensures
        ({
            let window = effective_window(filter.timestamp, now);
            let bs = query_bindings(filter, now);
            let vs = query_values(filter, user_id, now);
            let ps = predicate_texts(filter, window);
            &&& vs.len() == bs.len() + 1
            &&& ps.len() == bs.len()
            &&& vs[0] == SqlValue::Int(user_id)
            &&& forall|k: int|
                0 <= k < bs.len() ==> #[trigger] ps[k] == bs[k].predicate.subject()
                    + bs[k].predicate.operator() + "$"@ + decimal((k + 2) as nat)
            &&& forall|k: int| 0 <= k < bs.len() ==> #[trigger] vs[(k + 2) - 1] == bs[k].value
        }),
{
    let window = effective_window(filter.timestamp, now);
    let a = window_bindings(window);
    let b = pattern_bindings(filter);
    let c = rest_bindings(filter);
    let bs = query_bindings(filter, now);
    let ps = predicate_texts(filter, window);
    assert(bs =~= a + b + c);
    assert forall|k: int| 0 <= k < bs.len() implies #[trigger] ps[k] == bs[k].predicate.text(
        (k + 2) as nat,
    ) by {
        if k < a.len() {
            assert(ps[k] == clause_texts(a, 2)[k]);
        } else if k < a.len() + b.len() {
            assert(ps[k] == clause_texts(b, 2 + a.len())[k - a.len()]);
        } else {
            assert(ps[k] == clause_texts(c, 2 + a.len() + b.len())[k - a.len() - b.len()]);
        }
    }
}

/// The predicates of a list of bindings, without the values.
pub open spec fn predicates_of(bs: Seq<Binding>) -> Seq<Predicate> {
    Seq::new(bs.len(), |i: int| bs[i].predicate)
}

proof fn lemma_clause_texts_ignore_values(a: Seq<Binding>, b: Seq<Binding>, first: nat)
    requires
        predicates_of(a) == predicates_of(b),
    ensures
        clause_texts(a, first) == clause_texts(b, first),
{
    assert(a.len() == predicates_of(a).len());
    assert(b.len() == predicates_of(b).len());
    assert forall|i: int| 0 <= i < a.len() implies clause_texts(a, first)[i] == clause_texts(
        b,
        first,
    )[i] by {
        assert(predicates_of(a)[i] == a[i].predicate);
        assert(predicates_of(b)[i] == b[i].predicate);
    }
    assert(clause_texts(a, first) =~= clause_texts(b, first));
}

/// No bound value reaches the text. Two filters that bound the same
/// columns in the same way, whatever the bounds, the patterns and the
/// numbers they compare with, and that ask for the same sort keys and the
/// same page, compile to the same text.
pub proof fn law_values_never_reach_the_text(
    f: StoryRankingFilter,
    g: StoryRankingFilter,
    now_f: int,
    now_g: int,
)
    requires
        predicates_of(window_bindings(effective_window(f.timestamp, now_f))) == predicates_of(
            window_bindings(effective_window(g.timestamp, now_g)),
        ),
        predicates_of(pattern_bindings(f)) == predicates_of(pattern_bindings(g)),
        predicates_of(rest_bindings(f)) == predicates_of(rest_bindings(g)),
        order_items(f.sort) == order_items(g.sort),
        effective_page_size(f.page_size) == effective_page_size(g.page_size),
        effective_page_number(f.page_number) == effective_page_number(g.page_number),
    ensures
        query_text(f, now_f) == query_text(g, now_g),
{
    let wf = window_bindings(effective_window(f.timestamp, now_f));
    let wg = window_bindings(effective_window(g.timestamp, now_g));
    let pf = pattern_bindings(f);
    let pg = pattern_bindings(g);
    assert(wf.len() == predicates_of(wf).len());
    assert(wg.len() == predicates_of(wg).len());
    assert(pf.len() == predicates_of(pf).len());
    assert(pg.len() == predicates_of(pg).len());
    lemma_clause_texts_ignore_values(wf, wg, 2);
    lemma_clause_texts_ignore_values(pf, pg, 2 + wf.len());
    lemma_clause_texts_ignore_values(
        rest_bindings(f),
        rest_bindings(g),
        2 + wf.len() + pf.len(),
    );
}

/// Every sort key of a query names a field of the allow-list and a
/// direction, and nothing else.
pub proof fn law_sort_keys_come_from_the_allow_list(keys: Seq<StoryRankingSort>, k: int)
    requires
        0 <= k < sort_items(keys).len(),
    ensures
        exists|name: Seq<char>, asc: bool|
            is_sortable(name) && #[trigger] sort_text_of(name, asc) == sort_items(keys)[k],
    decreases keys.len(),
{
    if keys.len() > 0 {
        let before = sort_items(keys.drop_last());
        if is_sortable(keys.last().sort@) {
            assert(sort_items(keys) == before.push(sort_text(keys.last())));
            if k < before.len() {
                law_sort_keys_come_from_the_allow_list(keys.drop_last(), k);
                assert(sort_items(keys)[k] == before[k]);
            } else {
                assert(sort_text_of(keys.last().sort@, keys.last().asc) == sort_items(keys)[k]);
            }
        } else {
            law_sort_keys_come_from_the_allow_list(keys.drop_last(), k);
        }
    }
}

/// The text of a sort key with the given field name and direction.
pub open spec fn sort_text_of(name: Seq<char>, asc: bool) -> Seq<char> {
    name + (if asc {
        " asc"@
    } else {
        " desc"@
    })
}

} // verus!
