//! Rankings: a user's stars, flags and comment on a story. Requests are
//! checked before anything is written, a batch as a whole, and a request
//! changes only the fields it names.

use vstd::prelude::*;
use vstd::string::*;
use crate::codec::{plain_text, plain_title};
use crate::error::{ErrorKind, WebError};

verus! {

/// The greatest number of stars.
pub const MAX_STARS: i32 = 10;

/// A request to set parts of the ranking of one story.
#[derive(Debug)]
pub struct SetStory {
    pub story_id: i64,
    pub stars: Option<i32>,
    pub flags: Option<i32>,
    pub comment: Option<String>,
}

/// A stored ranking, keyed by user and story.
#[derive(Debug)]
pub struct Ranking {
    pub user_id: i32,
    pub story_id: i64,
    pub stars: i32,
    pub flags: i32,
    pub comment: String,
    pub created_at: i64,
    pub updated_at: i64,
}

/// The mathematical content of a [`Ranking`].
pub struct RankingView {
    pub user_id: int,
    pub story_id: int,
    pub stars: int,
    pub flags: int,
    pub comment: Seq<char>,
    pub created_at: int,
    pub updated_at: int,
}

/// The mathematical content of a [`SetStory`].
pub struct SetStoryView {
    pub story_id: int,
    pub stars: Option<int>,
    pub flags: Option<int>,
    pub comment: Option<Seq<char>>,
}

impl View for Ranking {
    type V = RankingView;

    open spec fn view(&self) -> RankingView {
        RankingView {
            user_id: self.user_id as int,
            story_id: self.story_id as int,
            stars: self.stars as int,
            flags: self.flags as int,
            comment: self.comment@,
            created_at: self.created_at as int,
            updated_at: self.updated_at as int,
        }
    }
}

impl View for SetStory {
    type V = SetStoryView;

    open spec fn view(&self) -> SetStoryView {
        SetStoryView {
            story_id: self.story_id as int,
            stars: match self.stars {
                Some(v) => Some(v as int),
                None => None,
            },
            flags: match self.flags {
                Some(v) => Some(v as int),
                None => None,
            },
            comment: match self.comment {
                Some(c) => Some(c@),
                None => None,
            },
        }
    }
}

impl RankingView {
    /// The stars of a stored ranking lie in `[0, 10]`, and its flags are
    /// not negative.
    pub open spec fn well_formed(self) -> bool {
        0 <= self.stars <= MAX_STARS && self.flags >= 0
    }
}

impl SetStoryView {
    /// What is wrong with the request: the story first, then the stars,
    /// which lie in `[0, 10]`, then the flags, which are not negative.
    pub open spec fn problem(self) -> Option<Seq<char>> {
        if self.story_id <= 0 {
            Some("Invalid story_id"@)
        } else if self.stars matches Some(v) && (v < 0 || v > MAX_STARS) {
            Some("Invalid star count"@)
        } else if self.flags matches Some(f) && f < 0 {
            Some("Invalid flags"@)
        } else {
            None
        }
    }
}

impl SetStory {
    /// Checks the request.
    pub fn is_valid(&self) -> (r: Result<(), String>)
        ensures
            match r {
                Ok(_) => self@.problem() is None,
                Err(message) => self@.problem() == Some(message@),
            },
    {
        let invalid_stars = match self.stars {
            Some(v) => v < 0 || v > MAX_STARS,
            None => false,
        };
        let invalid_flags = match self.flags {
            Some(f) => f < 0,
            None => false,
        };
        if self.story_id <= 0 {
            Err(String::from_str("Invalid story_id"))
        } else if invalid_stars {
            Err(String::from_str("Invalid star count"))
        } else if invalid_flags {
            Err(String::from_str("Invalid flags"))
        } else {
            Ok(())
        }
    }
}

/// The contents of a batch of requests.
pub open spec fn requests(batch: Seq<SetStory>) -> Seq<SetStoryView> {
    Seq::new(batch.len(), |i: int| batch[i]@)
}

/// Whether every request of a batch is valid.
pub open spec fn all_valid(batch: Seq<SetStoryView>) -> bool {
    forall|i: int| 0 <= i < batch.len() ==> (#[trigger] batch[i]).problem() is None
}

/// Whether `message` is what is wrong with the first invalid request of
/// the batch.
pub open spec fn first_problem_is(batch: Seq<SetStoryView>, message: Seq<char>) -> bool {
    exists|i: int|
        0 <= i < batch.len() && (#[trigger] batch[i]).problem() == Some(message) && all_valid(
            batch.take(i),
        )
}

/// Checks a batch as a whole: it is accepted only where every request is
/// valid, and refused with what is wrong with the first invalid one. A
/// refused batch is to be written in no part.
pub fn validate_batch(batch: &Vec<SetStory>) -> (r: Result<(), WebError>)
    ensures
        match r {
            Ok(_) => all_valid(requests(batch@)),
            Err(e) => e@.0 == ErrorKind::Validation && first_problem_is(requests(batch@), e@.1),
        },
        r is Ok <==> all_valid(requests(batch@)),
{
    let mut i: usize = 0;
    while i < batch.len()
        invariant
            i <= batch.len(),
            all_valid(requests(batch@).take(i as int)),
        decreases batch.len() - i,
    {
        match batch[i].is_valid() {
            Ok(_) => {},
            Err(message) => {
                assert(requests(batch@)[i as int].problem() == Some(message@));
                return Err(WebError::Validation(message));
            },
        }
        assert forall|k: int| 0 <= k < i + 1 implies (#[trigger] requests(batch@).take(
            i + 1,
        )[k]).problem() is None by {
            if k < i {
                assert(requests(batch@).take(i as int)[k].problem() is None);
            }
        }
        i = i + 1;
    }
    assert(requests(batch@).take(batch.len() as int) =~= requests(batch@));
    Ok(())
}

/// The ranking that `existing` is the previous state of, if it is keyed by
/// this user and story; a row of another key counts as absent.
pub open spec fn previous(existing: Option<RankingView>, user_id: int, story_id: int) -> Option<
    RankingView,
> {
    match existing {
        Some(row) => if row.user_id == user_id && row.story_id == story_id {
            Some(row)
        } else {
            None
        },
        None => None,
    }
}

/// The ranking after `request` was applied for `user_id` at `now`. A field
/// that the request names takes the request's value; one that it leaves
/// out keeps the previous value, or starts at zero or the empty comment
/// where there is no previous row.
pub open spec fn upserted(existing: Option<RankingView>, user_id: int, request: SetStoryView, now: int) -> RankingView {
    let before = previous(existing, user_id, request.story_id);
    RankingView {
        user_id,
        story_id: request.story_id,
        stars: match request.stars {
            Some(v) => v,
            None => match before {
                Some(row) => row.stars,
                None => 0,
            },
        },
        flags: match request.flags {
            Some(v) => v,
            None => match before {
                Some(row) => row.flags,
                None => 0,
            },
        },
        comment: match request.comment {
            Some(c) => c,
            None => match before {
                Some(row) => row.comment,
                None => Seq::empty(),
            },
        },
        created_at: match before {
            Some(row) => row.created_at,
            None => now,
        },
        updated_at: now,
    }
}

/// The content of an optional ranking.
pub open spec fn ranking_view(existing: Option<Ranking>) -> Option<RankingView> {
    match existing {
        Some(row) => Some(row@),
        None => None,
    }
}

/// Applies `request` for `user_id` at `now` to the ranking that the store
/// holds for this user and story, and gives the row to store. A request
/// that is not valid gives no row.
pub fn upsert(existing: Option<Ranking>, user_id: i32, request: &SetStory, now: i64) -> (r: Result<
    Ranking,
    WebError,
>)
    ensures
        match r {
            Ok(row) => request@.problem() is None && row@ == upserted(
                ranking_view(existing),
                user_id as int,
                request@,
                now as int,
            ),
            Err(e) => e@.0 == ErrorKind::Validation && request@.problem() == Some(e@.1),
        },
{
    match request.is_valid() {
        Ok(_) => {},
        Err(message) => {
            return Err(WebError::Validation(message));
        },
    }
    let before = match existing {
        Some(found) => if found.user_id == user_id && found.story_id == request.story_id {
            Some(found)
        } else {
            None
        },
        None => None,
    };
    assert(ranking_view(before) == previous(
        ranking_view(existing),
        user_id as int,
        request.story_id as int,
    ));
    let row = match before {
        Some(found) => Ranking {
            user_id,
            story_id: request.story_id,
            stars: match request.stars {
                Some(v) => v,
                None => found.stars,
            },
            flags: match request.flags {
                Some(v) => v,
                None => found.flags,
            },
            comment: match &request.comment {
                Some(c) => c.clone(),
                None => found.comment,
            },
            created_at: found.created_at,
            updated_at: now,
        },
        None => Ranking {
            user_id,
            story_id: request.story_id,
            stars: match request.stars {
                Some(v) => v,
                None => 0,
            },
            flags: match request.flags {
                Some(v) => v,
                None => 0,
            },
            comment: match &request.comment {
                Some(c) => c.clone(),
                None => String::new(),
            },
            created_at: now,
            updated_at: now,
        },
    };
    Ok(row)
}

/// Stars and flags stay in range: a valid request applied to no row, or to
/// a row that is in range, leaves a row that is in range.
pub proof fn law_upsert_keeps_rankings_in_range(
    existing: Option<RankingView>,
    user_id: int,
    request: SetStoryView,
    now: int,
)
    requires
        request.problem() is None,
        existing matches Some(row) ==> row.well_formed(),
    ensures
        upserted(existing, user_id, request, now).well_formed(),
{
}

/// A partial update never clobbers a field it does not name: after a
/// request is applied to a row of the same user and story, every field
/// that the request leaves out is what it was, and so is the time of
/// creation.
pub proof fn law_upsert_keeps_untouched_fields(row: RankingView, request: SetStoryView, now: int)
    requires
        row.story_id == request.story_id,
    ensures
        ({
            let after = upserted(Some(row), row.user_id, request, now);
            &&& request.stars is None ==> after.stars == row.stars
            &&& request.flags is None ==> after.flags == row.flags
            &&& request.comment is None ==> after.comment == row.comment
            &&& request.stars matches Some(v) ==> after.stars == v
            &&& request.flags matches Some(v) ==> after.flags == v
            &&& request.comment matches Some(c) ==> after.comment == c
            &&& after.created_at == row.created_at
            &&& after.updated_at == now
        }),
{
}

/// Two requests in a row, the first naming only the stars and the second
/// only the comment, leave a row with both.
pub proof fn law_upserts_accumulate(
    user_id: int,
    story_id: int,
    stars: int,
    comment: Seq<char>,
    first: int,
    second: int,
)
    ensures
        ({
            let one = SetStoryView { story_id, stars: Some(stars), flags: None, comment: None };
            let two = SetStoryView { story_id, stars: None, flags: None, comment: Some(comment) };
            let after = upserted(Some(upserted(None, user_id, one, first)), user_id, two, second);
            &&& after.stars == stars
            &&& after.comment == comment
            &&& after.flags == 0
            &&& after.created_at == first
            &&& after.updated_at == second
        }),
{
}

/// A row of a ranking query as the store gives it: the story, the user's
/// ranking of it if there is one, and the number of rows that match.
#[derive(Debug)]
pub struct StoryRow {
    pub story_id: i64,
    pub score: i32,
    pub timestamp: i64,
    pub title: String,
    pub url: String,
    pub status: i32,
    pub descendants: i32,
    pub stars: Option<i32>,
    pub flags: Option<i32>,
    pub full_count: i32,
}

/// A row of a ranking query as the client gets it: the title in plain
/// text.
#[derive(Debug)]
pub struct GetStory {
    pub story_id: i64,
    pub score: i32,
    pub timestamp: i64,
    pub title: String,
    pub url: String,
    pub status: i32,
    pub descendants: i32,
    pub stars: Option<i32>,
    pub flags: Option<i32>,
    pub full_count: i32,
}

impl GetStory {
    /// Shapes a row for the client: the HTML entities of the title are
    /// decoded, and everything else is handed on.
    pub fn from_row(row: StoryRow) -> (story: GetStory)
        ensures
            story.title@ == plain_text(row.title@),
            story.story_id == row.story_id,
            story.score == row.score,
            story.timestamp == row.timestamp,
            story.url@ == row.url@,
            story.status == row.status,
            story.descendants == row.descendants,
            story.stars == row.stars,
            story.flags == row.flags,
            story.full_count == row.full_count,
    {
        let title = plain_title(row.title.as_str());
        GetStory {
            story_id: row.story_id,
            score: row.score,
            timestamp: row.timestamp,
            title,
            url: row.url,
            status: row.status,
            descendants: row.descendants,
            stars: row.stars,
            flags: row.flags,
            full_count: row.full_count,
        }
    }
}

} // verus!
