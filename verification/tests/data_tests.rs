use airo_wingman::data::{ModelRepo, ModelRepoFac};
use airo_wingman::types::{Model, ModelDetails};

fn model(id: &str, price: u128, url: &str) -> Model {
    Model::new(id.to_string(), ModelDetails { price_per_request: price, url: url.to_string() })
}

#[test]
fn fresh_registry_serves_nothing() {
    let repo = ModelRepoFac::in_memory();
    assert!(repo.list().is_empty());
    assert!(!repo.contains(&"resnet".to_string()));
    assert!(repo.get_by_model_id(&"resnet".to_string()).is_none());
}

#[test]
fn saved_model_is_found_with_its_details() {
    let mut repo = ModelRepoFac::in_memory();
    repo.save(model("resnet", 42, "http://localhost:5000"));
    assert!(repo.contains(&"resnet".to_string()));
    let found = repo.get_by_model_id(&"resnet".to_string()).unwrap();
    assert_eq!(found.id, "resnet");
    assert_eq!(found.details.price_per_request, 42);
    assert_eq!(found.details.url, "http://localhost:5000");
    assert!(!repo.contains(&"other".to_string()));
}

#[test]
fn saving_again_replaces_the_details() {
    let mut repo = ModelRepoFac::in_memory();
    repo.save(model("resnet", 42, "http://a"));
    repo.save(model("resnet", 43, "http://b"));
    let all = repo.list();
    assert_eq!(all.len(), 1);
    assert_eq!(all[0].id, "resnet");
    assert_eq!(all[0].details.price_per_request, 43);
    assert_eq!(all[0].details.url, "http://b");
}

#[test]
fn removed_model_is_gone_and_others_stay() {
    let mut repo = ModelRepoFac::in_memory();
    repo.save(model("a", 1, "http://a"));
    repo.save(model("b", 2, "http://b"));
    repo.remove(&"a".to_string());
    assert!(!repo.contains(&"a".to_string()));
    assert!(repo.contains(&"b".to_string()));
    repo.remove(&"missing".to_string());
    assert_eq!(repo.list().len(), 1);
}

#[test]
fn list_holds_every_model_once() {
    let mut repo = ModelRepoFac::in_memory();
    for i in 0..20u128 {
        repo.save(model(&format!("m{}", i), i, &format!("http://host/{}", i)));
    }
    let mut ids: Vec<String> = repo.list().into_iter().map(|m| m.id).collect();
    ids.sort();
    let mut expected: Vec<String> = (0..20).map(|i| format!("m{}", i)).collect();
    expected.sort();
    assert_eq!(ids, expected);
    for m in repo.list() {
        assert_eq!(m.details.url, format!("http://host/{}", m.details.price_per_request));
        assert_eq!(m.id, format!("m{}", m.details.price_per_request));
    }
}

#[test]
fn model_new_keeps_id_and_details() {
    let m = model("resnet", u128::MAX, "http://x");
    assert_eq!(m.id, "resnet");
    assert_eq!(m.details.price_per_request, u128::MAX);
    assert_eq!(m.details.url, "http://x");
    let copy = m.clone();
    assert_eq!(copy.id, m.id);
    assert_eq!(copy.details.url, m.details.url);
}
