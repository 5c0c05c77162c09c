//! The query filter compiler: from the filters, sort keys and page of a request to
//! one parameterized query with numbered placeholders and the matching list
//! of bound values. Untrusted values are only ever bound, never written
//! into the query text.

use vstd::prelude::*;
use vstd::string::*;
use crate::clock::now_seconds;
use crate::error::{ErrorKind, WebError};
use crate::filter::{
    BigIntFilter, FloatFilter, IntFilter, PgRegex, SqlParameter, SqlValue, StoryRankingFilter,
    StoryRankingSort, values,
};
use crate::paging::{clamp, clamp_min, clamped, clamped_min};
use crate::filter::Float64;
use crate::text::{decimal, decimal_string, join, joined, same_text, texts};

verus! {

/// The direction of a strict bound.
#[derive(Clone, Copy, Debug, PartialEq, Eq, Structural)]
pub enum Comparison {
    GreaterThan,
    LessThan,
}

/// The columns that take a range filter.
#[derive(Clone, Copy, Debug, PartialEq, Eq, Structural)]
pub enum RangeColumn {
    Timestamp,
    Score,
    Stars,
}

/// The columns that take a pattern filter.
#[derive(Clone, Copy, Debug, PartialEq, Eq, Structural)]
pub enum TextColumn {
    Title,
    Comment,
    Url,
}

/// The columns that take an equality filter.
#[derive(Clone, Copy, Debug, PartialEq, Eq, Structural)]
pub enum EqualityColumn {
    Status,
    Flags,
}

/// One predicate of the `where` clause, without the value it compares with.
#[derive(Clone, Copy, Debug, PartialEq, Eq, Structural)]
pub enum Predicate {
    /// A strict bound on a numeric column.
    Range { column: RangeColumn, comparison: Comparison },
    /// A case-insensitive regular-expression match, or its negation.
    Pattern { text: TextColumn, negate: bool },
    /// A bound on the z-score of `score` within the statistics window. Both
    /// directions compile to `>=`.
    Statistical { comparison: Comparison },
    /// Equality with a numeric column.
    Equality { field: EqualityColumn },
}

/// A predicate together with the value it binds.
#[derive(Debug)]
pub struct Bound {
    pub predicate: Predicate,
    pub value: SqlParameter,
}

/// The mathematical content of a [`Bound`].
pub struct Binding {
    pub predicate: Predicate,
    pub value: SqlValue,
}

impl View for Bound {
    type V = Binding;

    open spec fn view(&self) -> Binding {
        Binding { predicate: self.predicate, value: self.value@ }
    }
}

/// A compiled query: its text and the values for its placeholders, the
/// value for `$n` at index `n - 1`.
#[derive(Debug)]
pub struct QueryParameters {
    pub query: String,
    pub parameters: Vec<SqlParameter>,
}

/// The projection, the statistics over the recency window and the join with
/// the user's rankings. It refers to `$1`, the user, and to `$2`, the first
/// bound of the window.
pub const BASE_PROJECTION: &'static str = "
        with stats as (
            select avg(score) mean_score, stddev(score) stddev_score
            from hnstar.story
            where timestamp > $2
        ), scored_stories as (
            select * from hnstar.story, stats
        )
        select s.story_id, s.score, s.timestamp, s.title, s.url
            , s.status, s.descendants, r.stars, r.flags
            , cast(count(*) over() as integer) as full_count
        from scored_stories s
        left join hnstar.story_user_rank r
            on r.story_id = s.story_id and r.user_main_id = $1
    ";

/// The length of the default recency window: ten days, in seconds.
pub const DEFAULT_WINDOW_SECONDS: i64 = 864000;

/// The page size where the request names none.
pub const DEFAULT_PAGE_SIZE: i32 = 100;

/// The largest page size.
pub const MAX_PAGE_SIZE: i32 = 500;

impl Predicate {
    /// What the predicate tests: a column or an expression.
    pub open spec fn subject(self) -> Seq<char> {
        match self {
            Predicate::Range { column: RangeColumn::Timestamp, .. } => "timestamp"@,
            Predicate::Range { column: RangeColumn::Score, .. } => "score"@,
            Predicate::Range { column: RangeColumn::Stars, .. } => "stars"@,
            Predicate::Pattern { text: TextColumn::Title, .. } => "title"@,
            Predicate::Pattern { text: TextColumn::Comment, .. } => "comment"@,
            Predicate::Pattern { text: TextColumn::Url, .. } => "url"@,
            Predicate::Statistical { .. } => "((cast(s.score as float) - s.mean_score) / s.stddev_score)"@,
            Predicate::Equality { field: EqualityColumn::Status } => "status"@,
            Predicate::Equality { field: EqualityColumn::Flags } => "flags"@,
        }
    }

    /// The operator, with the blanks around it.
    pub open spec fn operator(self) -> Seq<char> {
        match self {
            Predicate::Range { comparison: Comparison::GreaterThan, .. } => " > "@,
            Predicate::Range { comparison: Comparison::LessThan, .. } => " < "@,
            Predicate::Pattern { negate: true, .. } => " !~* "@,
            Predicate::Pattern { negate: false, .. } => " ~* "@,
            Predicate::Statistical { .. } => " >= "@,
            Predicate::Equality { .. } => " = "@,
        }
    }

    /// The predicate as query text, comparing with placeholder `placeholder`:
    /// a `$` and the decimal numeral of the number.
    pub open spec fn text(self, placeholder: nat) -> Seq<char> {
        self.subject() + self.operator() + "$"@ + decimal(placeholder)
    }

    fn subject_str(&self) -> (r: &'static str)
        ensures
            r@ == self.subject(),
    {
        match self {
            Predicate::Range { column: RangeColumn::Timestamp, .. } => "timestamp",
            Predicate::Range { column: RangeColumn::Score, .. } => "score",
            Predicate::Range { column: RangeColumn::Stars, .. } => "stars",
            Predicate::Pattern { text: TextColumn::Title, .. } => "title",
            Predicate::Pattern { text: TextColumn::Comment, .. } => "comment",
            Predicate::Pattern { text: TextColumn::Url, .. } => "url",
            Predicate::Statistical { .. } => "((cast(s.score as float) - s.mean_score) / s.stddev_score)",
            Predicate::Equality { field: EqualityColumn::Status } => "status",
            Predicate::Equality { field: EqualityColumn::Flags } => "flags",
        }
    }

    fn operator_str(&self) -> (r: &'static str)
        ensures
            r@ == self.operator(),
    {
        match self {
            Predicate::Range { comparison: Comparison::GreaterThan, .. } => " > ",
            Predicate::Range { comparison: Comparison::LessThan, .. } => " < ",
            Predicate::Pattern { negate: true, .. } => " !~* ",
            Predicate::Pattern { negate: false, .. } => " ~* ",
            Predicate::Statistical { .. } => " >= ",
            Predicate::Equality { .. } => " = ",
        }
    }

    /// Writes the predicate as query text, comparing with placeholder
    /// `placeholder`.
    pub fn render(&self, placeholder: usize) -> (r: String)
        ensures
            r@ == self.text(placeholder as nat),
    {
        let mut out = String::from_str(self.subject_str());
        out.append(self.operator_str());
        out.append("$");
        let number = decimal_string(placeholder as u64);
        out.append(number.as_str());
        out
    }
}

/// The contents of a list of bounds.
pub open spec fn bindings(bounds: Seq<Bound>) -> Seq<Binding> {
    Seq::new(bounds.len(), |i: int| bounds[i]@)
}

/// The values of a list of bindings, in order.
pub open spec fn bound_values(bs: Seq<Binding>) -> Seq<SqlValue> {
    Seq::new(bs.len(), |i: int| bs[i].value)
}

/// The predicates of `bs` as query text, numbered from `first` on: the
/// binding at index `i` compares with placeholder `first + i`.
pub open spec fn clause_texts(bs: Seq<Binding>, first: nat) -> Seq<Seq<char>> {
    Seq::new(bs.len(), |i: int| bs[i].predicate.text((first + i) as nat))
}

/// Appends the values of `bounds` to `parameters` and writes each predicate
/// with the placeholder that numbers the position its value took.
pub fn number_clauses(bounds: &Vec<Bound>, parameters: &mut Vec<SqlParameter>) -> (clauses: Vec<String>)
    ensures
        values(final(parameters)@) == values(old(parameters)@) + bound_values(bindings(bounds@)),
        texts(clauses@) == clause_texts(bindings(bounds@), (old(parameters).len() + 1) as nat),
{
    let mut clauses: Vec<String> = Vec::new();
    let ghost start = parameters@;
    let mut i: usize = 0;
    while i < bounds.len()
        invariant
            i <= bounds.len(),
            parameters.len() == start.len() + i,
            clauses.len() == i,
            values(parameters@) == values(start) + bound_values(bindings(bounds@).take(i as int)),
            texts(clauses@) == clause_texts(bindings(bounds@).take(i as int), (start.len() + 1) as nat),
        decreases bounds.len() - i,
    {
        let ghost before = bindings(bounds@).take(i as int);
        let ghost after = bindings(bounds@).take(i + 1);
        let ghost held = parameters@;
        let ghost written = clauses@;
        parameters.push(bounds[i].value.duplicate());
        let clause = bounds[i].predicate.render(parameters.len());
        clauses.push(clause);
        proof {
            let first = (start.len() + 1) as nat;
            assert forall|k: int| 0 <= k < parameters@.len() implies values(parameters@)[k] == (
            values(start) + bound_values(after))[k] by {
                if k < held.len() {
                    assert(values(held)[k] == (values(start) + bound_values(before))[k]);
                }
            }
            assert(values(parameters@) =~= values(start) + bound_values(after));
            assert forall|k: int| 0 <= k < clauses@.len() implies texts(clauses@)[k]
                == clause_texts(after, first)[k] by {
                if k < written.len() {
                    assert(texts(written)[k] == clause_texts(before, first)[k]);
                }
            }
            assert(texts(clauses@) =~= clause_texts(after, first));
        }
        i = i + 1;
    }
    assert(bindings(bounds@).take(bounds.len() as int) =~= bindings(bounds@));
    clauses
}

/// The content of an optional bound value.
pub open spec fn value_of(value: Option<SqlParameter>) -> Option<SqlValue> {
    match value {
        Some(v) => Some(v@),
        None => None,
    }
}

/// A 32-bit number as a bound value, where there is one.
pub open spec fn int_value(v: Option<i32>) -> Option<SqlValue> {
    match v {
        Some(i) => Some(SqlValue::Int(i as int)),
        None => None,
    }
}

/// A 64-bit number as a bound value, where there is one.
pub open spec fn bigint_value(v: Option<i64>) -> Option<SqlValue> {
    match v {
        Some(i) => Some(SqlValue::BigInt(i as int)),
        None => None,
    }
}

/// A double as a bound value, where there is one.
pub open spec fn float_value(v: Option<Float64>) -> Option<SqlValue> {
    match v {
        Some(f) => Some(SqlValue::Float(f)),
        None => None,
    }
}

/// The one binding of `predicate` with `value`, or none where the value is
/// absent.
pub open spec fn optional(predicate: Predicate, value: Option<SqlValue>) -> Seq<Binding> {
    match value {
        Some(v) => seq![Binding { predicate, value: v }],
        None => Seq::empty(),
    }
}

/// The bindings of a pair of strict bounds on `column`: the lower bound
/// first.
pub open spec fn range_bindings(column: RangeColumn, gt: Option<SqlValue>, lt: Option<SqlValue>) -> Seq<
    Binding,
> {
    optional(Predicate::Range { column, comparison: Comparison::GreaterThan }, gt) + optional(
        Predicate::Range { column, comparison: Comparison::LessThan },
        lt,
    )
}

/// The bindings of an optional range filter on a 32-bit column.
pub open spec fn int_range_bindings(column: RangeColumn, filter: Option<IntFilter>) -> Seq<Binding> {
    match filter {
        Some(f) => range_bindings(column, int_value(f.gt), int_value(f.lt)),
        None => Seq::empty(),
    }
}

/// The bindings of an optional z-score filter: the `gt` bound first.
pub open spec fn statistical_bindings(filter: Option<FloatFilter>) -> Seq<Binding> {
    match filter {
        Some(f) => optional(
            Predicate::Statistical { comparison: Comparison::GreaterThan },
            float_value(f.gt),
        ) + optional(Predicate::Statistical { comparison: Comparison::LessThan }, float_value(f.lt)),
        None => Seq::empty(),
    }
}

/// The binding of an optional pattern filter on `column`.
pub open spec fn pattern_binding(column: TextColumn, filter: Option<PgRegex>) -> Seq<Binding> {
    match filter {
        Some(p) => seq![
            Binding {
                predicate: Predicate::Pattern { text: column, negate: p.not },
                value: SqlValue::Varchar(p.regex@),
            },
        ],
        None => Seq::empty(),
    }
}

/// The start of the default recency window: ten days before `now`, or the
/// least timestamp where that cannot be represented.
pub open spec fn default_window_start(now: int) -> int {
    if now - DEFAULT_WINDOW_SECONDS < i64::MIN {
        i64::MIN as int
    } else {
        now - DEFAULT_WINDOW_SECONDS
    }
}

/// The timestamp filter that a query is compiled with: the caller's, or the
/// last ten days where the caller names none.
pub open spec fn effective_window(timestamp: Option<BigIntFilter>, now: int) -> BigIntFilter {
    match timestamp {
        Some(w) => w,
        None => BigIntFilter { gt: Some(default_window_start(now) as i64), lt: None },
    }
}

/// Whether a timestamp filter bounds the scan on at least one side.
pub open spec fn is_bounded(window: BigIntFilter) -> bool {
    window.gt is Some || window.lt is Some
}

/// The bindings of the recency window.
pub open spec fn window_bindings(window: BigIntFilter) -> Seq<Binding> {
    range_bindings(RangeColumn::Timestamp, bigint_value(window.gt), bigint_value(window.lt))
}

/// The bindings of the pattern filters, which form one group of
/// alternatives: title, comment, url.
pub open spec fn pattern_bindings(filter: StoryRankingFilter) -> Seq<Binding> {
    pattern_binding(TextColumn::Title, filter.title) + pattern_binding(
        TextColumn::Comment,
        filter.comment,
    ) + pattern_binding(TextColumn::Url, filter.url)
}

/// The bindings of the remaining filters: score, z-score, stars, status,
/// flags.
pub open spec fn rest_bindings(filter: StoryRankingFilter) -> Seq<Binding> {
    int_range_bindings(RangeColumn::Score, filter.score) + statistical_bindings(filter.z_score)
        + int_range_bindings(RangeColumn::Stars, filter.stars) + optional(
        Predicate::Equality { field: EqualityColumn::Status },
        int_value(filter.status),
    ) + optional(Predicate::Equality { field: EqualityColumn::Flags }, int_value(filter.flags))
}

/// Every binding of a query, in the order in which the values are bound.
pub open spec fn query_bindings(filter: StoryRankingFilter, now: int) -> Seq<Binding> {
    window_bindings(effective_window(filter.timestamp, now)) + pattern_bindings(filter)
        + rest_bindings(filter)
}

/// The values of a query: the user, then the value of every binding.
pub open spec fn query_values(filter: StoryRankingFilter, user_id: int, now: int) -> Seq<SqlValue> {
    seq![SqlValue::Int(user_id)] + bound_values(query_bindings(filter, now))
}

/// The pattern predicates as one parenthesised group of alternatives, or
/// nothing where there is no pattern filter.
pub open spec fn pattern_group(patterns: Seq<Binding>, first: nat) -> Seq<Seq<char>> {
    if patterns.len() > 0 {
        seq!["("@ + joined(clause_texts(patterns, first), " or "@) + ")"@]
    } else {
        Seq::empty()
    }
}

/// The conjuncts of the `where` clause for the recency window `window`.
/// Placeholder 1 is the user's, so the first binding compares with
/// placeholder 2, and every further binding with the next number.
pub open spec fn where_items(filter: StoryRankingFilter, window: BigIntFilter) -> Seq<Seq<char>> {
    let window_part = window_bindings(window);
    let patterns = pattern_bindings(filter);
    let rest = rest_bindings(filter);
    clause_texts(window_part, 2) + pattern_group(patterns, 2 + window_part.len()) + clause_texts(
        rest,
        2 + window_part.len() + patterns.len(),
    )
}

/// The `where` clause for the recency window `window`.
pub open spec fn where_clause(filter: StoryRankingFilter, window: BigIntFilter) -> Seq<char> {
    "where "@ + joined(where_items(filter, window), " and "@) + " "@
}

/// Whether `name` is a field that rows may be sorted by.
pub open spec fn is_sortable(name: Seq<char>) -> bool {
    name == "timestamp"@ || name == "score"@ || name == "stars"@
}

/// A sort key as query text.
pub open spec fn sort_text(key: StoryRankingSort) -> Seq<char> {
    key.sort@ + (if key.asc {
        " asc"@
    } else {
        " desc"@
    })
}

/// The sort keys as query text, in order, without those that name a field
/// outside the allow-list.
pub open spec fn sort_items(keys: Seq<StoryRankingSort>) -> Seq<Seq<char>>
    decreases keys.len(),
{
    if keys.len() == 0 {
        Seq::empty()
    } else if is_sortable(keys.last().sort@) {
        sort_items(keys.drop_last()).push(sort_text(keys.last()))
    } else {
        sort_items(keys.drop_last())
    }
}

/// The sort keys that a query is ordered by: the caller's sortable keys, or
/// `timestamp desc` where none is left.
pub open spec fn order_items(sort: Option<Vec<StoryRankingSort>>) -> Seq<Seq<char>> {
    let keys = match sort {
        Some(v) => sort_items(v@),
        None => Seq::empty(),
    };
    if keys.len() == 0 {
        seq!["timestamp desc"@]
    } else {
        keys
    }
}

/// The page size that a query is compiled with: the caller's, limited to
/// `[1, 500]`, or 100.
pub open spec fn effective_page_size(page_size: Option<i32>) -> int {
    clamped(
        match page_size {
            Some(v) => v as int,
            None => DEFAULT_PAGE_SIZE as int,
        },
        1,
        MAX_PAGE_SIZE as int,
    )
}

/// The page number that a query is compiled with: the caller's, raised to 0
/// where negative, or 0.
pub open spec fn effective_page_number(page_number: Option<i32>) -> int {
    clamped_min(
        match page_number {
            Some(v) => v as int,
            None => 0,
        },
        0,
    )
}

/// The `limit` and `offset` of a page.
pub open spec fn page_items(page_size: Option<i32>, page_number: Option<i32>) -> Seq<Seq<char>> {
    let size = effective_page_size(page_size);
    let number = effective_page_number(page_number);
    seq!["limit "@ + decimal(size as nat), "offset "@ + decimal((number * size) as nat)]
}

/// The `order by` clause with the page. Its items are separated by one
/// space.
pub open spec fn sort_clause(filter: StoryRankingFilter) -> Seq<char> {
    "order by "@ + joined(
        order_items(filter.sort) + page_items(filter.page_size, filter.page_number),
        " "@,
    ) + " "@
}

/// The text of the query for `filter` at time `now`.
pub open spec fn query_text(filter: StoryRankingFilter, now: int) -> Seq<char> {
    BASE_PROJECTION@ + " \n"@ + where_clause(filter, effective_window(filter.timestamp, now))
        + " \n"@ + sort_clause(filter)
}

fn push_optional(bounds: &mut Vec<Bound>, predicate: Predicate, value: Option<SqlParameter>)
    ensures
        bindings(final(bounds)@) == bindings(old(bounds)@) + optional(predicate, value_of(value)),
{
    match value {
        Some(v) => {
            bounds.push(Bound { predicate, value: v });
            assert(bindings(bounds@) =~= bindings(old(bounds)@) + optional(
                predicate,
                value_of(value),
            ));
        },
        None => {
            assert(bindings(bounds@) =~= bindings(old(bounds)@) + optional(
                predicate,
                value_of(value),
            ));
        },
    }
}

fn int_parameter(v: Option<i32>) -> (r: Option<SqlParameter>)
    ensures
        value_of(r) == int_value(v),
{
    match v {
        Some(i) => Some(SqlParameter::Int(i)),
        None => None,
    }
}

fn bigint_parameter(v: Option<i64>) -> (r: Option<SqlParameter>)
    ensures
        value_of(r) == bigint_value(v),
{
    match v {
        Some(i) => Some(SqlParameter::BigInt(i)),
        None => None,
    }
}

fn float_parameter(v: Option<Float64>) -> (r: Option<SqlParameter>)
    ensures
        value_of(r) == float_value(v),
{
    match v {
        Some(f) => Some(SqlParameter::Float(f)),
        None => None,
    }
}

fn push_range(bounds: &mut Vec<Bound>, column: RangeColumn, gt: Option<SqlParameter>, lt: Option<SqlParameter>)
    ensures
        bindings(final(bounds)@) == bindings(old(bounds)@) + range_bindings(
            column,
            value_of(gt),
            value_of(lt),
        ),
{
    push_optional(bounds, Predicate::Range { column, comparison: Comparison::GreaterThan }, gt);
    push_optional(bounds, Predicate::Range { column, comparison: Comparison::LessThan }, lt);
    assert(bindings(bounds@) =~= bindings(old(bounds)@) + range_bindings(
        column,
        value_of(gt),
        value_of(lt),
    ));
}

fn push_pattern(bounds: &mut Vec<Bound>, column: TextColumn, filter: &Option<PgRegex>)
    ensures
        bindings(final(bounds)@) == bindings(old(bounds)@) + pattern_binding(column, *filter),
{
    match filter {
        Some(p) => {
            bounds.push(
                Bound {
                    predicate: Predicate::Pattern { text: column, negate: p.not },
                    value: SqlParameter::Varchar(p.regex.clone()),
                },
            );
        },
        None => {},
    }
    assert(bindings(bounds@) =~= bindings(old(bounds)@) + pattern_binding(column, *filter));
}

/// Collects the bindings of the recency window.
pub fn window_bounds(window: &BigIntFilter) -> (bounds: Vec<Bound>)
    ensures
        bindings(bounds@) == window_bindings(*window),
{
    let mut bounds: Vec<Bound> = Vec::new();
    push_range(
        &mut bounds,
        RangeColumn::Timestamp,
        bigint_parameter(window.gt),
        bigint_parameter(window.lt),
    );
    assert(bindings(bounds@) =~= window_bindings(*window));
    bounds
}

/// Collects the bindings of the pattern filters.
pub fn pattern_bounds(filter: &StoryRankingFilter) -> (bounds: Vec<Bound>)
    ensures
        bindings(bounds@) == pattern_bindings(*filter),
{
    let mut bounds: Vec<Bound> = Vec::new();
    push_pattern(&mut bounds, TextColumn::Title, &filter.title);
    push_pattern(&mut bounds, TextColumn::Comment, &filter.comment);
    push_pattern(&mut bounds, TextColumn::Url, &filter.url);
    assert(bindings(bounds@) =~= pattern_bindings(*filter));
    bounds
}

/// Collects the bindings of the score, z-score, stars, status and flags
/// filters.
pub fn rest_bounds(filter: &StoryRankingFilter) -> (bounds: Vec<Bound>)
    ensures
        bindings(bounds@) == rest_bindings(*filter),
{
    let mut bounds: Vec<Bound> = Vec::new();
    match filter.score {
        Some(f) => push_range(&mut bounds, RangeColumn::Score, int_parameter(f.gt), int_parameter(f.lt)),
        None => {},
    }
    assert(bindings(bounds@) =~= int_range_bindings(RangeColumn::Score, filter.score));
    let ghost after_score = bindings(bounds@);
    match filter.z_score {
        Some(f) => {
            push_optional(
                &mut bounds,
                Predicate::Statistical { comparison: Comparison::GreaterThan },
                float_parameter(f.gt),
            );
            push_optional(
                &mut bounds,
                Predicate::Statistical { comparison: Comparison::LessThan },
                float_parameter(f.lt),
            );
        },
        None => {},
    }
    assert(bindings(bounds@) =~= after_score + statistical_bindings(filter.z_score));
    let ghost after_z = bindings(bounds@);
    match filter.stars {
        Some(f) => push_range(&mut bounds, RangeColumn::Stars, int_parameter(f.gt), int_parameter(f.lt)),
        None => {},
    }
    assert(bindings(bounds@) =~= after_z + int_range_bindings(RangeColumn::Stars, filter.stars));
    push_optional(
        &mut bounds,
        Predicate::Equality { field: EqualityColumn::Status },
        int_parameter(filter.status),
    );
    push_optional(
        &mut bounds,
        Predicate::Equality { field: EqualityColumn::Flags },
        int_parameter(filter.flags),
    );
    assert(bindings(bounds@) =~= rest_bindings(*filter));
    bounds
}

fn is_sortable_name(name: &str) -> (b: bool)
    ensures
        b == is_sortable(name@),
{
    same_text(name, "timestamp") || same_text(name, "score") || same_text(name, "stars")
}

/// Writes the sortable keys of `keys` as query text.
pub fn sort_keys(keys: &Vec<StoryRankingSort>) -> (items: Vec<String>)
    ensures
        texts(items@) == sort_items(keys@),
{
    let mut items: Vec<String> = Vec::new();
    let mut i: usize = 0;
    while i < keys.len()
        invariant
            i <= keys.len(),
            texts(items@) == sort_items(keys@.take(i as int)),
        decreases keys.len() - i,
    {
        let ghost before = keys@.take(i as int);
        let ghost after = keys@.take(i + 1);
        assert(after.drop_last() =~= before);
        assert(after.last() == keys@[i as int]);
        let key = &keys[i];
        if is_sortable_name(key.sort.as_str()) {
            let mut item = key.sort.clone();
            if key.asc {
                item.append(" asc");
            } else {
                item.append(" desc");
            }
            let ghost written = items@;
            items.push(item);
            assert(texts(items@) =~= texts(written).push(sort_text(keys@[i as int])));
        }
        i = i + 1;
    }
    assert(keys@.take(keys.len() as int) =~= keys@);
    items
}

fn default_window(now: i64) -> (window: BigIntFilter)
    ensures
        window == effective_window(None, now as int),
{
    let start = if now < i64::MIN + DEFAULT_WINDOW_SECONDS {
        i64::MIN
    } else {
        now - DEFAULT_WINDOW_SECONDS
    };
    BigIntFilter { gt: Some(start), lt: None }
}

fn write_pattern_group(filter: &StoryRankingFilter, parameters: &mut Vec<SqlParameter>) -> (group: Vec<
    String,
>)
    ensures
        values(final(parameters)@) == values(old(parameters)@) + bound_values(
            pattern_bindings(*filter),
        ),
        texts(group@) == pattern_group(
            pattern_bindings(*filter),
            (old(parameters).len() + 1) as nat,
        ),
{
    let mut group: Vec<String> = Vec::new();
    let patterns = pattern_bounds(filter);
    if patterns.len() > 0 {
        let alternatives = number_clauses(&patterns, parameters);
        let mut text = String::from_str("(");
        let inner = join(&alternatives, " or ");
        text.append(inner.as_str());
        text.append(")");
        group.push(text);
        assert(texts(group@) =~= pattern_group(
            pattern_bindings(*filter),
            (old(parameters).len() + 1) as nat,
        ));
    } else {
        assert(values(parameters@) =~= values(old(parameters)@) + bound_values(
            pattern_bindings(*filter),
        ));
        assert(texts(group@) =~= pattern_group(
            pattern_bindings(*filter),
            (old(parameters).len() + 1) as nat,
        ));
    }
    group
}

proof fn lemma_texts_concat(a: Seq<String>, b: Seq<String>)
    ensures
        texts(a + b) == texts(a) + texts(b),
{
    assert(texts(a + b) =~= texts(a) + texts(b));
}

fn write_where_items(filter: &StoryRankingFilter, window: &BigIntFilter, parameters: &mut Vec<SqlParameter>) -> (items: Vec<String>)
    requires
        old(parameters).len() == 1,
    ensures
        values(final(parameters)@) == values(old(parameters)@) + bound_values(
            window_bindings(*window) + pattern_bindings(*filter) + rest_bindings(*filter),
        ),
        texts(items@) == where_items(*filter, *window),
{
    let ghost held = values(parameters@);
    let window_part = window_bounds(window);
    let mut items = number_clauses(&window_part, parameters);
    let ghost first = items@;
    assert(parameters.len() == 1 + window_bindings(*window).len()) by {
        assert(values(parameters@).len() == parameters.len());
    }
    let mut group = write_pattern_group(filter, parameters);
    let ghost second = group@;
    assert(parameters.len() == 1 + window_bindings(*window).len() + pattern_bindings(
        *filter,
    ).len()) by {
        assert(values(parameters@).len() == parameters.len());
    }
    items.append(&mut group);
    let rest_part = rest_bounds(filter);
    let mut tail = number_clauses(&rest_part, parameters);
    let ghost third = tail@;
    items.append(&mut tail);
    proof {
        assert(items@ =~= (first + second) + third);
        lemma_texts_concat(first + second, third);
        lemma_texts_concat(first, second);
        assert(values(parameters@) =~= held + bound_values(
            window_bindings(*window) + pattern_bindings(*filter) + rest_bindings(*filter),
        ));
    }
    items
}

fn write_where_clause(filter: &StoryRankingFilter, window: &BigIntFilter, parameters: &mut Vec<SqlParameter>) -> (clause: String)
    requires
        old(parameters).len() == 1,
    ensures
        values(final(parameters)@) == values(old(parameters)@) + bound_values(
            window_bindings(*window) + pattern_bindings(*filter) + rest_bindings(*filter),
        ),
        clause@ == where_clause(*filter, *window),
{
    let items = write_where_items(filter, window, parameters);
    let mut clause = String::from_str("where ");
    let body = join(&items, " and ");
    clause.append(body.as_str());
    clause.append(" ");
    clause
}

fn write_sort_clause(filter: &StoryRankingFilter) -> (clause: String)
    ensures
        clause@ == sort_clause(*filter),
{
    let mut items = match &filter.sort {
        Some(keys) => sort_keys(keys),
        None => Vec::new(),
    };
    if items.len() == 0 {
        items.push(String::from_str("timestamp desc"));
    }
    assert(texts(items@) =~= order_items(filter.sort));
    let ghost ordered = texts(items@);
    let requested_size = match filter.page_size {
        Some(v) => v,
        None => DEFAULT_PAGE_SIZE,
    };
    let page_size = clamp(requested_size, 1, MAX_PAGE_SIZE);
    let requested_number = match filter.page_number {
        Some(v) => v,
        None => 0,
    };
    let page_number = clamp_min(requested_number, 0);
    let size = page_size as u64;
    let number = page_number as u64;
    assert(number * size <= 0x7fff_ffff * 500) by (nonlinear_arith)
        requires
            number <= 0x7fff_ffff,
            size <= 500,
    ;
    let offset = number * size;
    let mut limit_item = String::from_str("limit ");
    limit_item.append(decimal_string(size).as_str());
    let mut offset_item = String::from_str("offset ");
    offset_item.append(decimal_string(offset).as_str());
    items.push(limit_item);
    items.push(offset_item);
    assert(texts(items@) =~= ordered + page_items(filter.page_size, filter.page_number));
    let mut clause = String::from_str("order by ");
    let body = join(&items, " ");
    clause.append(body.as_str());
    clause.append(" ");
    clause
}

/// Whether `r` is what compiling `filter` for user `user_id` at time `now`
/// gives: the query text with its values where the timestamp filter bounds
/// the scan, and a validation error where it does not.
pub open spec fn compiles_to(
    r: Result<QueryParameters, WebError>,
    filter: StoryRankingFilter,
    user_id: int,
    now: int,
) -> bool {
    match r {
        Ok(q) => {
            &&& is_bounded(effective_window(filter.timestamp, now))
            &&& q.query@ == query_text(filter, now)
            &&& values(q.parameters@) == query_values(filter, user_id, now)
        },
        Err(e) => {
            &&& !is_bounded(effective_window(filter.timestamp, now))
            &&& e@ == (ErrorKind::Validation, "must specify timestamp filter"@)
        },
    }
}

/// Compiles `model` for user `user_id`, with `now` as the present for the
/// default recency window.
pub fn get_query_at(model: &StoryRankingFilter, user_id: i32, now: i64) -> (r: Result<
    QueryParameters,
    WebError,
>)
    ensures
        compiles_to(r, *model, user_id as int, now as int),
{
    let window = match model.timestamp {
        Some(w) => w,
        None => default_window(now),
    };
    if window.gt.is_none() && window.lt.is_none() {
        return Err(WebError::Validation(String::from_str("must specify timestamp filter")));
    }
    let mut parameters: Vec<SqlParameter> = Vec::new();
    parameters.push(SqlParameter::Int(user_id));
    assert(values(parameters@) =~= seq![SqlValue::Int(user_id as int)]);
    let where_part = write_where_clause(model, &window, &mut parameters);
    let sort_part = write_sort_clause(model);
    let mut query = String::from_str(BASE_PROJECTION);
    query.append(" \n");
    query.append(where_part.as_str());
    query.append(" \n");
    query.append(sort_part.as_str());
    Ok(QueryParameters { query, parameters })
}

/// Compiles `model` for user `user_id`. The clock is read for the default
/// recency window; a filter that names its own window compiles to the same
/// query at every time.
pub fn get_query(model: &StoryRankingFilter, user_id: i32) -> (r: Result<QueryParameters, WebError>)
    ensures
        exists|now: i64| compiles_to(r, *model, user_id as int, now as int),
        model.timestamp is Some ==> compiles_to(r, *model, user_id as int, 0),
{
    let now = now_seconds();
    let r = get_query_at(model, user_id, now);
    proof {
        if model.timestamp is Some {
            lemma_named_window_ignores_clock(*model, now as int, 0);
        }
    }
    r
}

/// A filter that names its own timestamp window compiles to the same text
/// and values at every time.
pub proof fn lemma_named_window_ignores_clock(filter: StoryRankingFilter, now: int, other: int)
    requires
        filter.timestamp is Some,
    ensures
        query_text(filter, now) == query_text(filter, other),
        forall|user_id: int| query_values(filter, user_id, now) == query_values(filter, user_id, other),
        is_bounded(effective_window(filter.timestamp, now)) == is_bounded(
            effective_window(filter.timestamp, other),
        ),
{
}

} // verus!
