//! One query across places, accommodations and restaurants.

use vstd::prelude::*;
use vstd::string::StringExecFns;
use crate::db::{AppState, AppStateView};
use crate::entity::{kind_tag, EntityKind, EntityRecord, EntityView};
use crate::error::PlannerError;
use crate::storage::Queried;
use crate::text::opt_text;

verus! {

/// What to search for.
#[derive(Debug, PartialEq, Eq)]
pub struct SearchParams {
    pub q: String,
}

impl View for SearchParams {
    type V = Seq<char>;

    open spec fn view(&self) -> Seq<char> {
        self.q@
    }
}

/// One hit of a search: a leaf record together with the kind of table it
/// came from.
#[derive(Debug, PartialEq, Eq)]
pub struct SearchResultItem {
    pub id: i64,
    pub name: String,
    pub entity_type: String,
    pub description: Option<String>,
    pub location: Option<String>,
}

/// A search hit as a value.
pub struct SearchResultView {
    pub id: i64,
    pub name: Seq<char>,
    pub entity_type: Seq<char>,
    pub description: Option<Seq<char>>,
    pub location: Option<Seq<char>>,
}

impl DeepView for SearchResultItem {
    type V = SearchResultView;

    open spec fn deep_view(&self) -> SearchResultView {
        SearchResultView {
            id: self.id,
            name: self.name@,
            entity_type: self.entity_type@,
            description: opt_text(self.description),
            location: opt_text(self.location),
        }
    }
}

impl View for SearchResultItem {
    type V = SearchResultView;

    open spec fn view(&self) -> SearchResultView {
        self.deep_view()
    }
}

/// The pattern that asks a storage engine for the texts in which `query`
/// stands somewhere: the query between two wildcards.
pub open spec fn like_pattern(query: Seq<char>) -> Seq<char> {
    seq!['%'] + query + seq!['%']
}

/// The hit that a stored record of `kind` makes.
pub open spec fn hit(kind: EntityKind, record: EntityView) -> SearchResultView {
    SearchResultView {
        id: record.id->0,
        name: record.name,
        entity_type: kind_tag(kind),
        description: record.description,
        location: record.location,
    }
}

/// The hits that the records `rows` of `kind` make, in the same order.
pub open spec fn tagged(kind: EntityKind, rows: Seq<EntityView>) -> Seq<SearchResultView> {
    Seq::new(rows.len(), |i: int| hit(kind, rows[i]))
}

/// The kind whose table a search walks after that of `kind`, if any.
pub open spec fn kind_after(kind: EntityKind) -> Option<EntityKind> {
    match kind {
        EntityKind::Place => Some(EntityKind::Accommodation),
        EntityKind::Accommodation => Some(EntityKind::Restaurant),
        EntityKind::Restaurant => None,
    }
}

/// What a search for `query` finds in the stored data: the places that
/// mention it, then the accommodations, then the restaurants, each group
/// in insertion order and each hit tagged with its kind.
pub open spec fn search_hits(data: AppStateView, query: Seq<char>) -> Seq<SearchResultView> {
    tagged(EntityKind::Place, data.places.matching(query)) + tagged(
        EntityKind::Accommodation,
        data.accommodations.matching(query),
    ) + tagged(EntityKind::Restaurant, data.restaurants.matching(query))
}

/// The hits that a search for `query` has gathered when it is about to
/// walk the table of `kind`.
pub open spec fn hits_before(data: AppStateView, query: Seq<char>, kind: EntityKind) -> Seq<
    SearchResultView,
> {
    match kind {
        EntityKind::Place => Seq::empty(),
        EntityKind::Accommodation => tagged(EntityKind::Place, data.places.matching(query)),
        EntityKind::Restaurant => tagged(EntityKind::Place, data.places.matching(query)) + tagged(
            EntityKind::Accommodation,
            data.accommodations.matching(query),
        ),
    }
}

/// The pattern to hand to a storage engine that matches with wildcards. The
/// query goes into the pattern as it is: a wildcard that stands in the
/// query is a wildcard to the engine.
pub fn search_pattern(query: &str) -> (pattern: String)
    ensures
        pattern@ == like_pattern(query@),
{
    proof {
        reveal_strlit("%");
    }
    let mut pattern = "%".to_owned();
    pattern.append(query);
    pattern.append("%");
    pattern
}

/// Tags the records `rows` as hits of `kind` and puts them behind `hits`.
fn add_hits(hits: &mut Vec<SearchResultItem>, kind: EntityKind, rows: Vec<EntityRecord>)
    ensures
        final(hits).deep_view() == old(hits).deep_view() + tagged(kind, rows.deep_view()),
{
    let ghost before = hits.deep_view();
    let ghost all = rows@;
    for record in it: rows
        invariant
            it.seq() == all,
            hits.len() == before.len() + it.index(),
            forall|k: int| 0 <= k < before.len() ==> (#[trigger] hits[k])@ == before[k],
            forall|k: int|
                before.len() <= k < hits.len() ==> (#[trigger] hits[k])@ == hit(
                    kind,
                    all[k - before.len()]@,
                ),
    {
        hits.push(
            SearchResultItem {
                id: record.id,
                name: record.name,
                entity_type: kind.tag(),
                description: record.description,
                location: record.location,
            },
        );
    }
}

/// A search under way: the hits gathered so far and the kind whose table
/// is to be walked next. Whoever holds the storage runs the query for
/// `awaited` and hands the outcome to `absorb`, until that says the
/// search is done.
pub struct SearchRun {
    pattern: String,
    awaited: EntityKind,
    hits: Vec<SearchResultItem>,
}

/// A search under way as a value.
pub struct SearchRunView {
    pub pattern: Seq<char>,
    pub awaited: EntityKind,
    pub hits: Seq<SearchResultView>,
}

/// Where a search stands after one more table was walked.
pub enum SearchStep {
    /// Another table is to be walked.
    Next(SearchRun),
    /// The search is over, with all its hits or with the failure that
    /// ended it.
    Done(Result<Vec<SearchResultItem>, PlannerError>),
}

impl View for SearchRun {
    type V = SearchRunView;

    closed spec fn view(&self) -> SearchRunView {
        SearchRunView {
            pattern: self.pattern@,
            awaited: self.awaited,
            hits: self.hits.deep_view(),
        }
    }
}

impl SearchRun {
    /// A search for `params.q` that has not walked any table yet. It starts
    /// with the places.
    pub fn start(params: &SearchParams) -> (run: SearchRun)
        ensures
            run@ == (SearchRunView {
                pattern: like_pattern(params@),
                awaited: EntityKind::Place,
                hits: Seq::empty(),
            }),
    {
        let run = SearchRun {
            pattern: search_pattern(params.q.as_str()),
            awaited: EntityKind::Place,
            hits: Vec::new(),
        };
        assert(run.hits.deep_view() =~= Seq::<SearchResultView>::empty());
        run
    }

    /// The kind whose table is to be walked next.
    pub fn awaited(&self) -> (kind: EntityKind)
        ensures
            kind == self@.awaited,
    {
        self.awaited
    }

    /// The pattern for a storage engine that matches with wildcards.
    pub fn pattern(&self) -> (pattern: &String)
        ensures
            pattern@ == self@.pattern,
    {
        &self.pattern
    }

    /// Takes in the outcome of walking the table of the awaited kind. Rows
    /// become hits of that kind, behind the hits gathered so far, and the
    /// search moves on to the next kind or, after the restaurants, is done.
    /// A failed walk ends the search at once: no partial result is given.
    pub fn absorb(self, outcome: Queried<EntityRecord>) -> (step: SearchStep)
        ensures
            match outcome {
                Queried::Rows(rows) => match kind_after(self@.awaited) {
                    Some(kind) => step matches SearchStep::Next(run) && run@ == (SearchRunView {
                        pattern: self@.pattern,
                        awaited: kind,
                        hits: self@.hits + tagged(self@.awaited, rows.deep_view()),
                    }),
                    None => step matches SearchStep::Done(Ok(hits)) && hits.deep_view()
                        == self@.hits + tagged(self@.awaited, rows.deep_view()),
                },
                Queried::Failed => step matches SearchStep::Done(Err(e)) && e
                    == PlannerError::PersistenceError,
            },
    {
        let rows = match outcome {
            Queried::Rows(rows) => rows,
            Queried::Failed => {
                return SearchStep::Done(Err(PlannerError::PersistenceError));
            },
        };
        let mut hits = self.hits;
        add_hits(&mut hits, self.awaited, rows);
        match self.awaited {
            EntityKind::Place => SearchStep::Next(
                SearchRun { pattern: self.pattern, awaited: EntityKind::Accommodation, hits },
            ),
            EntityKind::Accommodation => SearchStep::Next(
                SearchRun { pattern: self.pattern, awaited: EntityKind::Restaurant, hits },
            ),
            EntityKind::Restaurant => SearchStep::Done(Ok(hits)),
        }
    }
}

/// How many tables a search still has to walk when it awaits `kind`.
pub open spec fn tables_left(kind: EntityKind) -> nat {
    match kind {
        EntityKind::Place => 3,
        EntityKind::Accommodation => 2,
        EntityKind::Restaurant => 1,
    }
}

/// Searches the stored places, accommodations and restaurants for the
/// records whose name or description holds `params.q`, character for
/// character; the empty query finds every record. The hits come in one
/// list: places first, then accommodations, then restaurants.
pub fn search_entities(data: &AppState, params: &SearchParams) -> (r: Result<
    Vec<SearchResultItem>,
    PlannerError,
>)
    ensures
        r matches Ok(hits) && hits.deep_view() == search_hits(data@, params@),
{
    let mut run = SearchRun::start(params);
    loop
        invariant
            run@.hits == hits_before(data@, params@, run@.awaited),
        decreases tables_left(run@.awaited),
    {
        let rows = data.table(run.awaited()).search(params.q.as_str());
        match run.absorb(Queried::Rows(rows)) {
            SearchStep::Next(next) => {
                run = next;
            },
            SearchStep::Done(result) => {
                return result;
            },
        }
    }
}

} // verus!
