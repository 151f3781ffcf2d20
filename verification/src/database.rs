//! The client side of the store facade: what a query asks for, what a query
//! returns once the store has answered, and what a write asks for.
//!
//! The store narrows a query to the entities of one type that match the
//! filters. [`find`] takes what the store answered and keeps, in the order the
//! store returned them, the entities that the caller's predicate accepts.

use crate::schema::Entity;
use crate::schema::EntityView;
use crate::schema::Field;
use crate::schema::FieldView;
use crate::schema::ValueView;
use vstd::prelude::*;

verus! {

/// What the store is asked to return: the entities of one type that match
/// every filter. No filters means no narrowing beyond the type.
#[derive(Debug, Clone, PartialEq, Eq)]
pub struct Query {
    pub entity_type: String,
    pub filters: Vec<String>,
}

/// What the caller of a write wants done when the store refuses it.
#[derive(Debug, Clone, Copy, PartialEq, Eq, Structural)]
pub enum FailurePolicy {
    /// Hand the error to whoever asked for the work.
    Propagate,
    /// Report the error to the logger and go on.
    LogAndContinue,
    /// Drop the error: the write is best-effort and is retried by recurrence.
    Discard,
}

/// What becomes of the outcome of a write under a policy.
#[derive(Debug, Clone, Copy, PartialEq, Eq)]
pub enum Resolution<E> {
    /// The write is settled; the work goes on.
    Settled,
    /// The error is to be reported to the logger; the work goes on.
    Logged(E),
    /// The work ends with this error.
    Failed(E),
}

impl FailurePolicy {
    /// What becomes of `outcome` under this policy.
    pub open spec fn resolved<E>(self, outcome: Result<(), E>) -> Resolution<E> {
        match outcome {
            Ok(_) => Resolution::Settled,
            Err(error) => match self {
                FailurePolicy::Propagate => Resolution::Failed(error),
                FailurePolicy::LogAndContinue => Resolution::Logged(error),
                FailurePolicy::Discard => Resolution::Settled,
            },
        }
    }

    /// Decides what becomes of the outcome of a write: a success settles it
    /// under every policy, and an error is handed on, logged or dropped as the
    /// policy says. Nothing is retried.
    pub fn resolve<E>(self, outcome: Result<(), E>) -> (resolution: Resolution<E>)
        ensures
            resolution == self.resolved(outcome),
    {
        match outcome {
            Ok(_) => Resolution::Settled,
            Err(error) => match self {
                FailurePolicy::Propagate => Resolution::Failed(error),
                FailurePolicy::LogAndContinue => Resolution::Logged(error),
                FailurePolicy::Discard => Resolution::Settled,
            },
        }
    }
}

/// Field writes that the store applies as one logical operation.
#[derive(Debug, Clone, PartialEq, Eq)]
pub struct WriteBatch {
    pub fields: Vec<Field>,
    pub on_failure: FailurePolicy,
}

/// A [`WriteBatch`] as a mathematical value.
pub struct WriteBatchView {
    pub fields: Seq<FieldView>,
    pub on_failure: FailurePolicy,
}

impl View for WriteBatch {
    type V = WriteBatchView;

    open spec fn view(&self) -> WriteBatchView {
        WriteBatchView {
            fields: Seq::new(self.fields@.len(), |i: int| self.fields@[i]@),
            on_failure: self.on_failure,
        }
    }
}

/// What a store holds after it applied `fields` to `store`, one write after
/// the other: under the write key of each field, the content written last.
/// A store is taken as the contents of its fields by write key, the pair of
/// entity identifier and field name.
pub open spec fn written(
    store: Map<(Seq<char>, Seq<char>), ValueView>,
    fields: Seq<FieldView>,
) -> Map<(Seq<char>, Seq<char>), ValueView>
    decreases fields.len(),
{
    if fields.len() == 0 {
        store
    } else {
        written(store, fields.drop_last()).insert(fields.last().key(), fields.last().value)
    }
}

/// The items whose verdict is `true`, in the order in which they stand.
pub open spec fn selected<T>(items: Seq<T>, verdicts: Seq<bool>) -> Seq<T>
    recommends
        items.len() == verdicts.len(),
    decreases items.len(),
{
    if items.len() == 0 {
        Seq::empty()
    } else {
        let earlier = selected(items.drop_last(), verdicts.drop_last());
        if verdicts.last() {
            earlier.push(items.last())
        } else {
            earlier
        }
    }
}

/// `verdicts` holds, for each candidate in turn, an answer that `predicate`
/// can give for it.
pub open spec fn judged<P: Fn(&Entity) -> bool>(
    predicate: P,
    candidates: Seq<Entity>,
    verdicts: Seq<bool>,
) -> bool {
    &&& verdicts.len() == candidates.len()
    &&& forall|i: int|
        0 <= i < candidates.len() ==> call_ensures(
            predicate,
            (&candidates[i],),
            #[trigger] verdicts[i],
        )
}

/// Completes a query with the store's answer `fetched`.
///
/// An error of the store is passed on as it is. Of the candidates that the
/// store returned, those that `predicate` accepts are kept, in the order in
/// which the store returned them.
pub fn find<P, E>(fetched: Result<Vec<Entity>, E>, predicate: P) -> (found: Result<Vec<Entity>, E>)
    where P: Fn(&Entity) -> bool
    requires
        fetched matches Ok(candidates) ==> forall|i: int|
            0 <= i < candidates@.len() ==> call_requires(predicate, (&#[trigger] candidates@[i],)),
    ensures
        match fetched {
            Err(error) => found == Err::<Vec<Entity>, E>(error),
            Ok(candidates) => found matches Ok(kept) && exists|verdicts: Seq<bool>|
                judged(predicate, candidates@, verdicts) && kept@ == selected(
                    candidates@,
                    verdicts,
                ),
        },
{
    match fetched {
        Err(error) => Err(error),
        Ok(candidates) => {
            let ghost all = candidates@;
            let ghost verdicts: Seq<bool> = Seq::empty();
            let mut kept: Vec<Entity> = Vec::new();
            for entity in entities: candidates
                invariant
                    entities.seq() == all,
                    forall|i: int|
                        0 <= i < all.len() ==> call_requires(predicate, (&#[trigger] all[i],)),
                    judged(predicate, all.take(entities.index() as int), verdicts),
                    kept@ == selected(all.take(entities.index() as int), verdicts),
            {
                let ghost seen = entities.index() as int;
                let verdict = predicate(&entity);
                proof {
                    assert(all.take(seen + 1).drop_last() =~= all.take(seen));
                    assert(verdicts.push(verdict).drop_last() =~= verdicts);
                    verdicts = verdicts.push(verdict);
                }
                if verdict {
                    kept.push(entity);
                }
            }
            proof {
                assert(all.take(all.len() as int) =~= all);
            }
            Ok(kept)
        },
    }
}

/// Find/filter composition. Where the predicate's answers are those of
/// `accepts`, the entities found are exactly the candidates that `accepts`
/// holds of, in the order of the candidates.
pub proof fn lemma_find_composition(
    candidates: Seq<Entity>,
    verdicts: Seq<bool>,
    accepts: spec_fn(Entity) -> bool,
)
    requires
        verdicts.len() == candidates.len(),
        forall|i: int| 0 <= i < candidates.len() ==> verdicts[i] == accepts(candidates[i]),
    ensures
        selected(candidates, verdicts) == candidates.filter(accepts),
    decreases candidates.len(),
{
    reveal(Seq::filter);
    if candidates.len() > 0 {
        lemma_find_composition(candidates.drop_last(), verdicts.drop_last(), accepts);
    }
}

/// Where the predicate accepts every candidate, every candidate is found.
pub proof fn lemma_find_everything(candidates: Seq<Entity>, verdicts: Seq<bool>)
    requires
        verdicts.len() == candidates.len(),
        forall|i: int| 0 <= i < verdicts.len() ==> verdicts[i],
    ensures
        selected(candidates, verdicts) == candidates,
    decreases candidates.len(),
{
    if candidates.len() > 0 {
        lemma_find_everything(candidates.drop_last(), verdicts.drop_last());
    }
}

/// A write reaches its own field only. After the field `name` of a found
/// entity was given a value and written, a store that applies writes by their
/// key holds that value under the identifier of that entity and that name, and
/// holds under every other key what it held before.
pub proof fn lemma_write_changes_its_field_only(
    store: Map<(Seq<char>, Seq<char>), ValueView>,
    entity: EntityView,
    name: Seq<char>,
    value: ValueView,
    other: (Seq<char>, Seq<char>),
)
    ensures
        ({
            let after = written(store, seq![entity.field(name).with_value(value)]);
            &&& after.contains_key((entity.id, name))
            &&& after[(entity.id, name)] == value
            &&& other != (entity.id, name) ==> after.contains_key(other) == store.contains_key(
                other,
            ) && after[other] == store[other]
        }),
{
    let batch = seq![entity.field(name).with_value(value)];
    assert(written(store, batch.drop_last()) == store);
}

} // verus!
