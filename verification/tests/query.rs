use hnstar::error::ErrorKind;
use hnstar::filter::{
    BigIntFilter, Float64, FloatFilter, IntFilter, PgRegex, SqlParameter, StoryRankingFilter,
    StoryRankingSort,
};
use hnstar::query::{get_query, get_query_at, BASE_PROJECTION};

fn empty_filter() -> StoryRankingFilter {
    StoryRankingFilter {
        timestamp: None,
        page_size: None,
        page_number: None,
        title: None,
        url: None,
        score: None,
        z_score: None,
        status: None,
        flags: None,
        stars: None,
        comment: None,
        sort: None,
    }
}

fn describe(p: &SqlParameter) -> String {
    match p {
        SqlParameter::Int(i) => format!("int:{}", i),
        SqlParameter::BigInt(i) => format!("bigint:{}", i),
        SqlParameter::Float(f) => format!("float:{}", f64::from_bits(f.bits)),
        SqlParameter::Varchar(s) => format!("varchar:{}", s),
    }
}

fn described(ps: &Vec<SqlParameter>) -> Vec<String> {
    ps.iter().map(describe).collect()
}

#[test]
fn default_window_is_ten_days() {
    let q = get_query_at(&empty_filter(), 7, 1_000_000).unwrap();
    assert_eq!(described(&q.parameters), vec!["int:7", "bigint:136000"]);
    let expected = format!(
        "{} \nwhere timestamp > $2  \norder by timestamp desc limit 100 offset 0 ",
        BASE_PROJECTION
    );
    assert_eq!(q.query, expected);
}

#[test]
fn unbounded_window_is_rejected() {
    let mut f = empty_filter();
    f.timestamp = Some(BigIntFilter { gt: None, lt: None });
    let e = get_query_at(&f, 1, 0).unwrap_err();
    assert_eq!(e.kind(), ErrorKind::Validation);
    assert_eq!(e.message(), "must specify timestamp filter");
}

#[test]
fn every_filter_compiles_in_order() {
    let f = StoryRankingFilter {
        timestamp: Some(BigIntFilter { gt: Some(10), lt: Some(20) }),
        page_size: Some(25),
        page_number: Some(3),
        title: Some(PgRegex { regex: String::from("rust"), not: false }),
        url: Some(PgRegex { regex: String::from("github"), not: true }),
        score: Some(IntFilter { gt: Some(5), lt: Some(500) }),
        z_score: Some(FloatFilter {
            gt: Some(Float64 { bits: 1.5f64.to_bits() }),
            lt: Some(Float64 { bits: 3.0f64.to_bits() }),
        }),
        status: Some(1),
        flags: Some(0),
        stars: Some(IntFilter { gt: Some(2), lt: Some(9) }),
        comment: Some(PgRegex { regex: String::from("later"), not: false }),
        sort: Some(vec![
            StoryRankingSort { sort: String::from("score"), asc: true },
            StoryRankingSort { sort: String::from("title; drop table"), asc: true },
            StoryRankingSort { sort: String::from("stars"), asc: false },
        ]),
    };
    let q = get_query_at(&f, 42, 0).unwrap();
    assert_eq!(
        described(&q.parameters),
        vec![
            "int:42",
            "bigint:10",
            "bigint:20",
            "varchar:rust",
            "varchar:later",
            "varchar:github",
            "int:5",
            "int:500",
            "float:1.5",
            "float:3",
            "int:2",
            "int:9",
            "int:1",
            "int:0",
        ]
    );
    let expected_where = "where timestamp > $2 and timestamp < $3 and \
        (title ~* $4 or comment ~* $5 or url !~* $6) and score > $7 and score < $8 and \
        ((cast(s.score as float) - s.mean_score) / s.stddev_score) >= $9 and \
        ((cast(s.score as float) - s.mean_score) / s.stddev_score) >= $10 and \
        stars > $11 and stars < $12 and status = $13 and flags = $14 ";
    let expected_sort = "order by score asc stars desc limit 25 offset 75 ";
    let expected = format!("{} \n{} \n{}", BASE_PROJECTION, expected_where, expected_sort);
    assert_eq!(q.query, expected);
}

#[test]
fn page_sizes_are_clamped() {
    for (requested, effective) in [(0, 1), (-5, 1), (10000, 500)] {
        let mut f = empty_filter();
        f.timestamp = Some(BigIntFilter { gt: Some(0), lt: None });
        f.page_size = Some(requested);
        let q = get_query_at(&f, 1, 0).unwrap();
        assert!(q.query.ends_with(&format!("limit {} offset 0 ", effective)));
    }
}

#[test]
fn negative_page_number_is_page_zero() {
    let mut f = empty_filter();
    f.timestamp = Some(BigIntFilter { gt: Some(0), lt: None });
    f.page_number = Some(-3);
    let q = get_query_at(&f, 1, 0).unwrap();
    assert!(q.query.ends_with("limit 100 offset 0 "));
}

#[test]
fn largest_page_offset_does_not_wrap() {
    let mut f = empty_filter();
    f.timestamp = Some(BigIntFilter { gt: Some(0), lt: None });
    f.page_number = Some(i32::MAX);
    f.page_size = Some(500);
    let q = get_query_at(&f, 1, 0).unwrap();
    assert!(q.query.ends_with("limit 500 offset 1073741823500 "));
}

#[test]
fn unknown_sort_keys_fall_back_to_timestamp() {
    let mut f = empty_filter();
    f.timestamp = Some(BigIntFilter { gt: None, lt: Some(99) });
    f.sort = Some(vec![StoryRankingSort { sort: String::from("by"), asc: true }]);
    let q = get_query_at(&f, 1, 0).unwrap();
    assert!(q.query.ends_with("\nwhere timestamp < $2  \norder by timestamp desc limit 100 offset 0 "));
    assert_eq!(described(&q.parameters), vec!["int:1", "bigint:99"]);
}

#[test]
fn named_window_does_not_read_the_clock() {
    let mut f = empty_filter();
    f.timestamp = Some(BigIntFilter { gt: Some(5), lt: None });
    let a = get_query(&f, 3).unwrap();
    let b = get_query_at(&f, 3, 123456).unwrap();
    assert_eq!(a.query, b.query);
    assert_eq!(described(&a.parameters), described(&b.parameters));
}

fn read_placeholders(text: &str) -> Vec<usize> {
    let chars: Vec<char> = text.chars().collect();
    let mut found = Vec::new();
    let mut i = 0;
    while i < chars.len() {
        if chars[i] == '$' {
            let mut n = 0;
            let mut j = i + 1;
            while j < chars.len() && chars[j].is_ascii_digit() {
                n = n * 10 + chars[j].to_digit(10).unwrap() as usize;
                j += 1;
            }
            found.push(n);
        }
        i += 1;
    }
    found
}

#[test]
fn placeholders_number_the_values_for_every_subset_of_filters() {
    for subset in 0u32..256 {
        let on = |bit: u32| subset & (1 << bit) != 0;
        let pattern = |text: &str| PgRegex { regex: String::from(text), not: subset % 3 == 0 };
        let mut f = empty_filter();
        f.timestamp = Some(BigIntFilter { gt: Some(1), lt: if subset % 2 == 0 { Some(9) } else { None } });
        if on(0) {
            f.title = Some(pattern("t$9"));
        }
        if on(1) {
            f.url = Some(pattern("u"));
        }
        if on(2) {
            f.comment = Some(pattern("c"));
        }
        if on(3) {
            f.score = Some(IntFilter { gt: Some(1), lt: if subset % 5 == 0 { Some(2) } else { None } });
        }
        if on(4) {
            f.z_score = Some(FloatFilter {
                gt: if subset % 7 == 0 { None } else { Some(Float64 { bits: 0 }) },
                lt: Some(Float64 { bits: 1 }),
            });
        }
        if on(5) {
            f.stars = Some(IntFilter { gt: None, lt: Some(3) });
        }
        if on(6) {
            f.status = Some(1);
        }
        if on(7) {
            f.flags = Some(0);
        }
        let q = get_query_at(&f, 1, 0).unwrap();
        let n = q.parameters.len();
        let found = read_placeholders(&q.query);
        let mut expected = vec![2, 1];
        expected.extend(2..=n);
        assert_eq!(found, expected, "subset {}", subset);
        let in_where = &found[2..];
        assert_eq!(in_where.len(), n - 1);
        for (k, number) in in_where.iter().enumerate() {
            assert_eq!(*number, k + 2);
        }
    }
}
