//! The storage port of the world domain, as far as the views over atlases
//! and timelines read it, and the batch reads built on it.

use vstd::prelude::*;
use crate::world::era::{Era, EraId};
use crate::world::event::{Event, EventId};
use crate::world::group::WorldError;
use crate::world::place::{Place, PlaceId};
use crate::world::timeline::{era_id_views, event_id_views};

verus! {

/// Read access to stored world aggregates, implemented by a storage adapter.
/// A missing id is `Ok(None)`; `Err` is a storage failure.
///
/// An implementation names, for each id, the answer its store gives
/// (`place_answer`, `era_answer`, `event_answer`); a read returns that
/// answer. The reads take `&self`, so within one use of a repository the
/// same id gets the same answer.
pub trait WorldRepository {
    /// The store's answer for the place with the id `id`.
    spec fn place_answer(&self, id: Seq<char>) -> Result<Option<Place>, WorldError>;

    /// The store's answer for the era with the id `id`.
    spec fn era_answer(&self, id: Seq<char>) -> Result<Option<Era>, WorldError>;

    /// The store's answer for the event with the id `id`.
    spec fn event_answer(&self, id: Seq<char>) -> Result<Option<Event>, WorldError>;

    fn get_place(&self, id: &PlaceId) -> (r: Result<Option<Place>, WorldError>)
        ensures
            r == self.place_answer(id@),
    ;

    fn get_era(&self, id: &EraId) -> (r: Result<Option<Era>, WorldError>)
        ensures
            r == self.era_answer(id@),
    ;

    fn get_event(&self, id: &EventId) -> (r: Result<Option<Event>, WorldError>)
        ensures
            r == self.event_answer(id@),
    ;
}

/// Reading a batch of answers in order: the first failure, or else the
/// values present, in order (missing ids left out).
pub open spec fn read_all<T>(answers: Seq<Result<Option<T>, WorldError>>) -> Result<Seq<T>, WorldError>
    decreases answers.len(),
{
    if answers.len() == 0 {
        Ok(Seq::empty())
    } else {
        match read_all(answers.drop_last()) {
            Err(e) => Err(e),
            Ok(s) => match answers.last() {
                Err(e) => Err(e),
                Ok(Some(x)) => Ok(s.push(x)),
                Ok(None) => Ok(s),
            },
        }
    }
}

/// `r` is the outcome `expected`: the same error, or `Ok` with the same
/// values.
pub open spec fn reads_as<T>(r: Result<Vec<T>, WorldError>, expected: Result<Seq<T>, WorldError>) -> bool {
    match expected {
        Ok(s) => r matches Ok(v) && v@ == s,
        Err(e) => r == Err::<Vec<T>, WorldError>(e),
    }
}

/// The store's answers for the places `ids`, in order.
pub open spec fn place_reads<R: WorldRepository>(repo: &R, ids: Seq<Seq<char>>) -> Seq<Result<Option<Place>, WorldError>> {
    ids.map_values(|id: Seq<char>| repo.place_answer(id))
}

/// The store's answers for the eras `ids`, in order.
pub open spec fn era_reads<R: WorldRepository>(repo: &R, ids: Seq<Seq<char>>) -> Seq<Result<Option<Era>, WorldError>> {
    ids.map_values(|id: Seq<char>| repo.era_answer(id))
}

/// The store's answers for the events `ids`, in order.
pub open spec fn event_reads<R: WorldRepository>(repo: &R, ids: Seq<Seq<char>>) -> Seq<Result<Option<Event>, WorldError>> {
    ids.map_values(|id: Seq<char>| repo.event_answer(id))
}

/// Once a prefix of a batch fails, the batch fails with the same error.
pub proof fn lemma_read_all_fails_early<T>(answers: Seq<Result<Option<T>, WorldError>>, k: int)
    requires
        0 <= k <= answers.len(),
        read_all(answers.take(k)) is Err,
    ensures
        read_all(answers) == read_all(answers.take(k)),
    decreases answers.len() - k,
{
    if k < answers.len() {
        assert(answers.drop_last().take(k) =~= answers.take(k));
        lemma_read_all_fails_early(answers.drop_last(), k);
    } else {
        assert(answers.take(k) =~= answers);
    }
}

/// Reading one more answer of a batch.
pub proof fn lemma_read_all_step<T>(answers: Seq<Result<Option<T>, WorldError>>, i: int)
    requires
        0 <= i < answers.len(),
    ensures
        read_all(answers.take(i + 1)) == (match read_all(answers.take(i)) {
            Err(e) => Err(e),
            Ok(s) => match answers[i] {
                Err(e) => Err(e),
                Ok(Some(x)) => Ok(s.push(x)),
                Ok(None) => Ok(s),
            },
        }),
{
    assert(answers.take(i + 1).drop_last() =~= answers.take(i));
    assert(answers.take(i + 1).last() == answers[i]);
}

/// Reads the eras `ids` in order, leaving out the ids the store does not
/// have; the first storage failure is returned.
pub fn get_eras_batch<R: WorldRepository>(repo: &R, ids: &[EraId]) -> (r: Result<Vec<Era>, WorldError>)
    ensures
        reads_as(r, read_all(era_reads(repo, era_id_views(ids@)))),
{
    let ghost answers = era_reads(repo, era_id_views(ids@));
    let mut out: Vec<Era> = Vec::new();
    let n = ids.len();
    let mut i: usize = 0;
    assert(answers.take(0) =~= Seq::<Result<Option<Era>, WorldError>>::empty());
    while i < n
        invariant
            n == ids@.len(),
            answers == era_reads(repo, era_id_views(ids@)),
            i <= n,
            read_all(answers.take(i as int)) == Ok::<Seq<Era>, WorldError>(out@),
        decreases n - i,
    {
        let a = repo.get_era(&ids[i]);
        proof {
            lemma_read_all_step(answers, i as int);
            assert(answers[i as int] == a);
        }
        match a {
            Ok(Some(x)) => out.push(x),
            Ok(None) => {},
            Err(err) => {
                proof {
                    lemma_read_all_fails_early(answers, i + 1);
                }
                return Err(err);
            },
        }
        i = i + 1;
    }
    assert(answers.take(n as int) =~= answers);
    Ok(out)
}

/// Reads the events `ids` in order, leaving out the ids the store does not
/// have; the first storage failure is returned.
pub fn get_events_batch<R: WorldRepository>(repo: &R, ids: &[EventId]) -> (r: Result<Vec<Event>, WorldError>)
    ensures
        reads_as(r, read_all(event_reads(repo, event_id_views(ids@)))),
{
    let ghost answers = event_reads(repo, event_id_views(ids@));
    let mut out: Vec<Event> = Vec::new();
    let n = ids.len();
    let mut i: usize = 0;
    assert(answers.take(0) =~= Seq::<Result<Option<Event>, WorldError>>::empty());
    while i < n
        invariant
            n == ids@.len(),
            answers == event_reads(repo, event_id_views(ids@)),
            i <= n,
            read_all(answers.take(i as int)) == Ok::<Seq<Event>, WorldError>(out@),
        decreases n - i,
    {
        let a = repo.get_event(&ids[i]);
        proof {
            lemma_read_all_step(answers, i as int);
            assert(answers[i as int] == a);
        }
        match a {
            Ok(Some(x)) => out.push(x),
            Ok(None) => {},
            Err(err) => {
                proof {
                    lemma_read_all_fails_early(answers, i + 1);
                }
                return Err(err);
            },
        }
        i = i + 1;
    }
    assert(answers.take(n as int) =~= answers);
    Ok(out)
}

} // verus!
