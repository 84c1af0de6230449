//! The registry of models this provider serves.

use dashmap::DashMap;
use vstd::prelude::*;

use crate::types::{Model, ModelDetails, ModelDetailsView, ModelId, ModelView};

verus! {

/// `dashmap::DashMap`, taken as it is: nothing of its inside is known here.
#[verifier::external_type_specification]
#[verifier::external_body]
#[verifier::reject_recursive_types(K)]
#[verifier::reject_recursive_types(V)]
#[verifier::reject_recursive_types(S)]
pub struct ExDashMap<K, V, S>(DashMap<K, V, S>);

/// The map behind the registry: model id to price and server address.
pub type ModelDb = DashMap<String, (u128, String)>;

/// The mathematical map that stands for a [`ModelDb`].
pub type ModelDbView = Map<Seq<char>, (u128, Seq<char>)>;

/// What a map from model id to price and server address holds.
pub uninterp spec fn entries(db: ModelDb) -> ModelDbView;

/// `DashMap::new`: the fresh map holds nothing.
#[verifier::external_body]
fn db_new() -> (db: ModelDb)
    ensures
        entries(db) == ModelDbView::empty(),
{
    DashMap::new()
}

/// `DashMap::insert`: afterwards `key` is bound to the given pair and every
/// other binding is as before.
#[verifier::external_body]
fn db_insert(db: &mut ModelDb, key: String, price: u128, url: String)
    ensures
        entries(*final(db)) == entries(*old(db)).insert(key@, (price, url@)),
{
    db.insert(key, (price, url));
}

/// `DashMap::remove`: afterwards `key` is unbound and every other binding is
/// as before.
#[verifier::external_body]
fn db_remove(db: &mut ModelDb, key: &String)
    ensures
        entries(*final(db)) == entries(*old(db)).remove(key@),
{
    db.remove(key);
}

/// `DashMap::contains_key`: whether `key` is bound.
#[verifier::external_body]
fn db_contains(db: &ModelDb, key: &String) -> (found: bool)
    ensures
        found == entries(*db).dom().contains(key@),
{
    db.contains_key(key)
}

/// `DashMap::get`: a copy of what `key` is bound to, if it is bound.
#[verifier::external_body]
fn db_get(db: &ModelDb, key: &String) -> (found: Option<(u128, String)>)
    ensures
        found.is_some() == entries(*db).dom().contains(key@),
        found.is_some() ==> (found.unwrap().0, found.unwrap().1@) == entries(*db)[key@],
{
    db.get(key).map(|kv| kv.value().clone())
}

/// `DashMap::iter`, each entry copied out: every binding of the map occurs
/// exactly once among the triples, in an order that is not fixed.
#[verifier::external_body]
fn db_list(db: &ModelDb) -> (all: Vec<(String, u128, String)>)
    ensures
        forall|i: int|
            0 <= i < all@.len() ==> #[trigger] entries(*db).dom().contains(all@[i].0@)
                && entries(*db)[all@[i].0@] == (all@[i].1, all@[i].2@),
        forall|k: Seq<char>|
            entries(*db).dom().contains(k) ==> exists|i: int|
                0 <= i < all@.len() && (#[trigger] all@[i]).0@ == k,
        forall|i: int, j: int|
            0 <= i < j < all@.len() ==> (#[trigger] all@[i]).0@ != (#[trigger] all@[j]).0@,
{
    db.iter().map(|kv| (kv.key().clone(), kv.value().0, kv.value().1.clone())).collect()
}

/// The details that a stored pair stands for.
pub open spec fn details_of(pair: (u128, Seq<char>)) -> ModelDetailsView {
    ModelDetailsView { price_per_request: pair.0, url: pair.1 }
}

/// Whether `models` lists exactly the bindings of `served`, each once.
pub open spec fn lists_exactly(models: Seq<Model>, served: Map<Seq<char>, ModelDetailsView>) -> bool {
    &&& forall|i: int|
        0 <= i < models.len() ==> served.dom().contains(#[trigger] models[i]@.id)
            && served[models[i]@.id] == models[i]@.details
    &&& forall|id: Seq<char>|
        served.dom().contains(id) ==> exists|i: int|
            0 <= i < models.len() && (#[trigger] models[i])@.id == id
    &&& forall|i: int, j: int|
        0 <= i < j < models.len() ==> (#[trigger] models[i])@.id != (#[trigger] models[j])@.id
}

/// A registry of served models, keyed by model id.
pub trait ModelRepo {
    /// The served models: id to details.
    spec fn served(&self) -> Map<Seq<char>, ModelDetailsView>;

    /// Every served model, once each, in no particular order.
    fn list(&self) -> (models: Vec<Model>)
        ensures
            lists_exactly(models@, self.served()),
    ;

    /// Whether a model is served under `id`.
    fn contains(&self, id: &ModelId) -> (found: bool)
        ensures
            found == self.served().dom().contains(id@),
    ;

    /// The model served under `id`, if there is one.
    fn get_by_model_id(&self, id: &ModelId) -> (found: Option<Model>)
        ensures
            found.is_some() == self.served().dom().contains(id@),
            found.is_some() ==> found.unwrap()@ == (ModelView {
                id: id@,
                details: self.served()[id@],
            }),
    ;

    /// Serves `model` from now on, replacing what was served under its id.
    fn save(&mut self, model: Model)
        ensures
            final(self).served() == old(self).served().insert(model.id@, model.details@),
    ;

    /// Stops serving whatever is served under `id`.
    fn remove(&mut self, id: &ModelId)
        ensures
            final(self).served() == old(self).served().remove(id@),
    ;
}

/// Stops serving whatever is served under `id`, and tells whether anything
/// was.
pub fn delete_model<R: ModelRepo>(repo: &mut R, id: &ModelId) -> (deleted: bool)
    ensures
        deleted == old(repo).served().dom().contains(id@),
        final(repo).served() == old(repo).served().remove(id@),
{
    if repo.contains(id) {
        repo.remove(id);
        true
    } else {
        assert(repo.served().remove(id@) =~= repo.served());
        false
    }
}

/// The registry kept in memory.
pub struct InMemoryModelRepo {
    db: ModelDb,
}

impl ModelRepo for InMemoryModelRepo {
    closed spec fn served(&self) -> Map<Seq<char>, ModelDetailsView> {
        entries(self.db).map_values(|pair: (u128, Seq<char>)| details_of(pair))
    }

    fn list(&self) -> (models: Vec<Model>) {
        let all = db_list(&self.db);
        let mut models: Vec<Model> = Vec::new();
        let mut i: usize = 0;
        while i < all.len()
            invariant
                i <= all@.len(),
                models@.len() == i,
                forall|j: int|
                    0 <= j < i ==> (#[trigger] models@[j])@.id == all@[j].0@
                        && models@[j]@.details == details_of((all@[j].1, all@[j].2@)),
            decreases all@.len() - i,
        {
            let details = ModelDetails { price_per_request: all[i].1, url: all[i].2.clone() };
            models.push(Model::new(all[i].0.clone(), details));
            i += 1;
        }
        proof {
            let served = self.served();
            assert forall|id: Seq<char>| served.dom().contains(id) implies exists|j: int|
                0 <= j < models@.len() && (#[trigger] models@[j])@.id == id by {
                let j = choose|j: int| 0 <= j < all@.len() && (#[trigger] all@[j]).0@ == id;
                assert(models@[j]@.id == id);
            }
        }
        models
    }

    fn contains(&self, id: &ModelId) -> (found: bool) {
        db_contains(&self.db, id)
    }

    fn get_by_model_id(&self, id: &ModelId) -> (found: Option<Model>) {
        match db_get(&self.db, id) {
            Some((price_per_request, url)) => {
                Some(Model::new(id.clone(), ModelDetails { price_per_request, url }))
            },
            None => None,
        }
    }

    fn save(&mut self, model: Model) {
        let Model { id, details } = model;
        db_insert(&mut self.db, id, details.price_per_request, details.url);
        assert(self.served() =~= old(self).served().insert(model.id@, model.details@));
    }

    fn remove(&mut self, id: &ModelId) {
        db_remove(&mut self.db, id);
        assert(self.served() =~= old(self).served().remove(id@));
    }
}

/// Makes registries.
pub struct ModelRepoFac;

impl ModelRepoFac {
    /// A registry in memory that serves nothing yet.
    pub fn in_memory() -> (repo: InMemoryModelRepo)
        ensures
            repo.served() == Map::<Seq<char>, ModelDetailsView>::empty(),
    {
        let repo = InMemoryModelRepo { db: db_new() };
        assert(repo.served() =~= Map::<Seq<char>, ModelDetailsView>::empty());
        repo
    }
}

} // verus!
