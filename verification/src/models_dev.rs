//! The public catalogue of models, and the choice of the newest Haiku model
//! in it. Prices are no part of the choice and are not held here.

use crate::seqs::{first_index, lemma_first_index_is};
use crate::text::{comes_before, contains, lowercase, occurs_in, precedes, same, to_lowercase};
use vstd::prelude::*;

verus! {

/// The limits of a model, in tokens.
#[derive(Debug, Clone, Copy, PartialEq, Eq, Structural)]
pub struct ModelLimit {
    pub context: u64,
    pub output: u64,
}

/// A model of the catalogue.
#[derive(Debug, Clone, PartialEq, Eq)]
pub struct ModelsDevModel {
    pub id: String,
    pub name: String,
    pub family: Option<String>,
    pub attachment: bool,
    pub reasoning: bool,
    pub tool_call: bool,
    pub temperature: bool,
    /// The day of release, as year, month and day with hyphens between.
    pub release_date: Option<String>,
    pub limit: Option<ModelLimit>,
}

/// A provider of the catalogue, with its models by their keys. The list of
/// models stands for a map: see [`distinct_model_keys`].
#[derive(Debug, Clone, PartialEq, Eq)]
pub struct ModelsDevProvider {
    pub id: String,
    pub name: String,
    pub env: Vec<String>,
    pub npm: Option<String>,
    pub api: Option<String>,
    pub models: Vec<(String, ModelsDevModel)>,
}

/// What the choice reads of a model: its key, its name and its release.
pub struct Candidate {
    pub key: Seq<char>,
    pub name: Seq<char>,
    pub release_date: Option<Seq<char>>,
}

/// What the choice reads of an entry of the catalogue.
pub open spec fn candidate_of(entry: (String, ModelsDevModel)) -> Candidate {
    Candidate { key: entry.0@, name: entry.1.name@, release_date: entry.1.release_date.deep_view() }
}

/// What the choice reads of the models of a provider.
pub open spec fn candidates_of(models: Seq<(String, ModelsDevModel)>) -> Seq<Candidate> {
    models.map_values(|entry: (String, ModelsDevModel)| candidate_of(entry))
}

/// What the models of a provider have from the map that they stand for: no
/// two models share a key.
pub open spec fn distinct_model_keys(cs: Seq<Candidate>) -> bool {
    forall|i: int, j: int| 0 <= i < j < cs.len() ==> (#[trigger] cs[i]).key != (#[trigger] cs[j]).key
}

/// What the catalogue has from the map that it stands for: no two providers
/// share a key, and no two models of a provider do.
pub open spec fn is_catalogue(providers: Seq<(String, ModelsDevProvider)>) -> bool {
    &&& forall|i: int, j: int|
        0 <= i < j < providers.len() ==> key_of_provider(#[trigger] providers[i])
            != key_of_provider(#[trigger] providers[j])
    &&& forall|i: int|
        0 <= i < providers.len() ==> distinct_model_keys(
            candidates_of(models_of(#[trigger] providers[i])),
        )
}

/// The key of a provider of the catalogue.
pub open spec fn key_of_provider(entry: (String, ModelsDevProvider)) -> Seq<char> {
    entry.0@
}

/// The models of a provider of the catalogue.
pub open spec fn models_of(entry: (String, ModelsDevProvider)) -> Seq<(String, ModelsDevModel)> {
    entry.1.models@
}

/// Whether no two Haiku models were released on the same day.
pub open spec fn distinct_release_dates(cs: Seq<Candidate>) -> bool {
    forall|i: int, j: int|
        0 <= i < j < cs.len() && is_haiku(#[trigger] cs[i]) && is_haiku(#[trigger] cs[j])
            && cs[i].release_date is Some && cs[j].release_date is Some ==> cs[i].release_date
            != cs[j].release_date
}

/// Whether a model is a Haiku model: "haiku" stands in its key or its name,
/// in whatever case.
pub open spec fn is_haiku(c: Candidate) -> bool {
    occurs_in(lowercase(c.key), "haiku"@) || occurs_in(lowercase(c.name), "haiku"@)
}

/// Whether a key says that the model is the latest of its line.
pub open spec fn is_latest(key: Seq<char>) -> bool {
    occurs_in(key, "latest"@)
}

/// Whether `a` is to be preferred to `b`: a model with a release date to one
/// without, of two with dates the later one; of two without dates the one
/// whose key says "latest", and else the one with the greater key.
pub open spec fn preferred(a: Candidate, b: Candidate) -> bool {
    match (a.release_date, b.release_date) {
        (Some(date_a), Some(date_b)) => precedes(date_b, date_a),
        (Some(_), None) => true,
        (None, Some(_)) => false,
        (None, None) => if is_latest(a.key) != is_latest(b.key) {
            is_latest(a.key)
        } else {
            precedes(b.key, a.key)
        },
    }
}

/// Whether the entry `i` is a best Haiku model: it is one, and no Haiku
/// model of the provider is to be preferred to it.
pub open spec fn is_best_haiku(cs: Seq<Candidate>, i: int) -> bool {
    &&& 0 <= i < cs.len()
    &&& is_haiku(cs[i])
    &&& forall|j: int| 0 <= j < cs.len() && is_haiku(#[trigger] cs[j]) ==> !preferred(cs[j], cs[i])
}

/// No text comes before itself.
pub proof fn lemma_precedes_irreflexive(a: Seq<char>)
    ensures
        !precedes(a, a),
    decreases a.len(),
{
    if a.len() > 0 {
        lemma_precedes_irreflexive(a.drop_first());
    }
}

/// The order of texts is transitive.
pub proof fn lemma_precedes_transitive(a: Seq<char>, b: Seq<char>, c: Seq<char>)
    requires
        precedes(a, b),
        precedes(b, c),
    ensures
        precedes(a, c),
    decreases a.len(),
{
    if a.len() > 0 && b.len() > 0 && c.len() > 0 {
        if a[0] == b[0] && b[0] == c[0] {
            lemma_precedes_transitive(a.drop_first(), b.drop_first(), c.drop_first());
        }
    }
}

/// Of two different texts one comes before the other.
pub proof fn lemma_precedes_total(a: Seq<char>, b: Seq<char>)
    requires
        a != b,
    ensures
        precedes(a, b) || precedes(b, a),
    decreases a.len(),
{
    if a.len() > 0 && b.len() > 0 {
        if a[0] == b[0] {
            if a.drop_first() == b.drop_first() {
                assert(a =~= seq![a[0]] + a.drop_first());
                assert(b =~= seq![b[0]] + b.drop_first());
            }
            lemma_precedes_total(a.drop_first(), b.drop_first());
        } else {
            assert((a[0] as int) != (b[0] as int));
        }
    } else if a.len() == 0 && b.len() == 0 {
        assert(a =~= b);
    }
}

/// Of two models with different keys, released on different days where both
/// have a day of release, one is preferred to the other.
pub proof fn lemma_preferred_total(a: Candidate, b: Candidate)
    requires
        a.key != b.key,
        a.release_date is Some && b.release_date is Some ==> a.release_date != b.release_date,
    ensures
        preferred(a, b) || preferred(b, a),
{
    if a.release_date is Some && b.release_date is Some {
        lemma_precedes_total(a.release_date->0, b.release_date->0);
    }
    if a.release_date is None && b.release_date is None {
        lemma_precedes_total(a.key, b.key);
    }
}

/// Where the models are a map by their keys and no two Haiku models were
/// released on the same day, there is one best Haiku model at most: the
/// choice does not depend on the order in which the models are listed.
pub proof fn law_best_haiku_is_unique(cs: Seq<Candidate>, i: int, j: int)
    requires
        distinct_model_keys(cs),
        distinct_release_dates(cs),
        is_best_haiku(cs, i),
        is_best_haiku(cs, j),
    ensures
        i == j,
{
    if i != j {
        if i < j {
            assert(cs[i].key != cs[j].key);
        } else {
            assert(cs[j].key != cs[i].key);
        }
        lemma_preferred_total(cs[i], cs[j]);
    }
}

/// No model is preferred to itself.
pub proof fn lemma_preferred_irreflexive(a: Candidate)
    ensures
        !preferred(a, a),
{
    lemma_precedes_irreflexive(a.key);
    if a.release_date is Some {
        lemma_precedes_irreflexive(a.release_date->0);
    }
}

/// Preference is transitive.
pub proof fn lemma_preferred_transitive(a: Candidate, b: Candidate, c: Candidate)
    requires
        preferred(a, b),
        preferred(b, c),
    ensures
        preferred(a, c),
{
    if a.release_date is Some && b.release_date is Some && c.release_date is Some {
        lemma_precedes_transitive(c.release_date->0, b.release_date->0, a.release_date->0);
    }
    if a.release_date is None && b.release_date is None && c.release_date is None {
        if is_latest(a.key) == is_latest(b.key) && is_latest(b.key) == is_latest(c.key) {
            lemma_precedes_transitive(c.key, b.key, a.key);
        }
    }
}

/// Whether a model is a Haiku model.
pub fn haiku(key: &str, name: &str) -> (r: bool)
    ensures
        r == is_haiku(Candidate { key: key@, name: name@, release_date: None }),
{
    contains(to_lowercase(key).as_str(), "haiku") || contains(to_lowercase(name).as_str(), "haiku")
}

/// Whether the first of two models is to be preferred to the second.
pub fn prefer(a: &(String, ModelsDevModel), b: &(String, ModelsDevModel)) -> (r: bool)
    ensures
        r == preferred(candidate_of(*a), candidate_of(*b)),
{
    match (&a.1.release_date, &b.1.release_date) {
        (Some(date_a), Some(date_b)) => comes_before(date_b.as_str(), date_a.as_str()),
        (Some(_), None) => true,
        (None, Some(_)) => false,
        (None, None) => {
            let latest_a = contains(a.0.as_str(), "latest");
            let latest_b = contains(b.0.as_str(), "latest");
            if latest_a != latest_b {
                latest_a
            } else {
                comes_before(b.0.as_str(), a.0.as_str())
            }
        },
    }
}

/// The index of a best Haiku model among the models, or the number of
/// models where none is a Haiku model.
pub fn best_haiku(models: &Vec<(String, ModelsDevModel)>) -> (r: usize)
    ensures
        r <= models.len(),
        r < models.len() ==> is_best_haiku(candidates_of(models@), r as int),
        r == models.len() ==> forall|j: int|
            0 <= j < models.len() ==> !is_haiku(#[trigger] candidates_of(models@)[j]),
{
    let ghost cs = candidates_of(models@);
    let n = models.len();
    let mut best: usize = n;
    let mut i: usize = 0;
    while i < n
        invariant
            0 <= i <= n,
            n == models.len(),
            cs == candidates_of(models@),
            best == n || best < i,
            best == n ==> forall|j: int| 0 <= j < i ==> !is_haiku(#[trigger] cs[j]),
            best < n ==> is_haiku(cs[best as int]) && forall|j: int|
                0 <= j < i && is_haiku(#[trigger] cs[j]) ==> !preferred(cs[j], cs[best as int]),
        decreases n - i,
    {
        assert(cs[i as int] == candidate_of(models@[i as int]));
        if haiku(models[i].0.as_str(), models[i].1.name.as_str()) {
            if best == n {
                proof {
                    lemma_preferred_irreflexive(cs[i as int]);
                }
                best = i;
            } else if prefer(&models[i], &models[best]) {
                proof {
                    assert(cs[best as int] == candidate_of(models@[best as int]));
                    lemma_preferred_irreflexive(cs[i as int]);
                    assert forall|j: int| 0 <= j < i + 1 && is_haiku(
                        #[trigger] cs[j],
                    ) implies !preferred(cs[j], cs[i as int]) by {
                        if j < i && preferred(cs[j], cs[i as int]) {
                            lemma_preferred_transitive(cs[j], cs[i as int], cs[best as int]);
                        }
                    }
                }
                best = i;
            } else {
                assert(cs[best as int] == candidate_of(models@[best as int]));
            }
        }
        i = i + 1;
    }
    best
}

/// The condition "this entry of the catalogue stands under the key `key`".
pub open spec fn is_under(key: Seq<char>) -> spec_fn((String, ModelsDevProvider)) -> bool {
    |entry: (String, ModelsDevProvider)| entry.0@ == key
}

/// The index of the first provider under the key `key`, or the number of
/// providers.
pub fn find_provider(providers: &Vec<(String, ModelsDevProvider)>, key: &str) -> (r: usize)
    ensures
        r == first_index(providers@, is_under(key@)),
        r <= providers.len(),
{
    let ghost p = is_under(key@);
    let mut i: usize = 0;
    while i < providers.len()
        invariant
            0 <= i <= providers.len(),
            p == is_under(key@),
            forall|j: int| 0 <= j < i ==> !p(#[trigger] providers@[j]),
        decreases providers.len() - i,
    {
        if same(providers[i].0.as_str(), key) {
            proof {
                assert(p(providers@[i as int]));
                lemma_first_index_is(providers@, p, i as int);
            }
            return i;
        }
        assert(!p(providers@[i as int]));
        i = i + 1;
    }
    proof {
        lemma_first_index_is(providers@, p, i as int);
    }
    i
}

/// Finds the newest Haiku model of Anthropic in the catalogue, as provider
/// and model key. `None` where the catalogue has no provider under
/// "anthropic" or that provider has no Haiku model. What is returned is a best
/// Haiku model: no Haiku model of the provider is to be preferred to it.
/// Where the models are a map by their keys and no two Haiku models were
/// released on the same day, it is the one best Haiku model, in whatever
/// order the models are listed.
pub fn find_latest_haiku(providers: &Vec<(String, ModelsDevProvider)>) -> (r: Option<
    (String, String),
>)
    ensures
        ({
            let at = first_index(providers@, is_under("anthropic"@));
            if at < providers.len() {
                let cs = candidates_of(providers@[at].1.models@);
                match r {
                    Some((provider, key)) => {
                        &&& provider@ == "anthropic"@
                        &&& exists|i: int| is_best_haiku(cs, i) && #[trigger] cs[i].key == key@
                        &&& distinct_model_keys(cs) && distinct_release_dates(cs) ==> forall|
                            i: int,
                        | is_best_haiku(cs, i) ==> #[trigger] cs[i].key == key@
                    },
                    None => forall|j: int| 0 <= j < cs.len() ==> !is_haiku(#[trigger] cs[j]),
                }
            } else {
                r is None
            }
        }),
{
    let at = find_provider(providers, "anthropic");
    if at == providers.len() {
        return None;
    }
    let models = &providers[at].1.models;
    let best = best_haiku(models);
    if best == models.len() {
        return None;
    }
    proof {
        let cs = candidates_of(models@);
        assert(is_best_haiku(cs, best as int));
        assert(cs[best as int].key == models@[best as int].0@);
        if distinct_model_keys(cs) && distinct_release_dates(cs) {
            assert forall|i: int| is_best_haiku(cs, i) implies #[trigger] cs[i].key
                == cs[best as int].key by {
                law_best_haiku_is_unique(cs, i, best as int);
            }
        }
    }
    Some(("anthropic".to_string(), models[best].0.clone()))
}

} // verus!
