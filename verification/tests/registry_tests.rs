use vision_match::models::ModelInfo;
use vision_match::registry::ModelRegistry;

#[test]
fn a_fresh_registry_has_the_builtin_models_and_an_active_one() {
    let reg = ModelRegistry::new();
    let models = reg.get_models();
    assert_eq!(models.len(), 2);
    let active = reg.get_active_model().expect("the fresh registry has an active model");
    assert_eq!(active.name, "Medicinal herb recognition");
    assert_eq!(active.path, "resources/models/medicine_model.pth");
    assert_eq!(active.script_path, "resources/scripts/medicine_val.py");
    assert_eq!(active.model_type, "MobileNetV3-Small");
    assert_eq!(active.num_classes, 163);
    assert_eq!(active.id.len(), 36);
    assert!(models.iter().any(|m| m.name == "CIFAR-10 object recognition"));
}

#[test]
fn available_models_reports_the_active_id() {
    let reg = ModelRegistry::new();
    let available = reg.get_available_models();
    assert_eq!(available.models.len(), 2);
    let active = reg.get_active_model().unwrap();
    assert_eq!(available.active_model_id, active.id);
}

#[test]
fn set_active_model_rejects_an_unknown_id() {
    let mut reg = ModelRegistry::new();
    let before = reg.get_active_model().unwrap().id;
    let err = reg.set_active_model("nope").unwrap_err();
    assert_eq!(err, "unknown model id: nope");
    assert_eq!(reg.get_active_model().unwrap().id, before);
}

#[test]
fn set_active_model_moves_the_flag() {
    let mut reg = ModelRegistry::new();
    let cifar_id = reg
        .get_models()
        .into_iter()
        .find(|m| m.name == "CIFAR-10 object recognition")
        .unwrap()
        .id;
    let chosen = reg.set_active_model(&cifar_id).unwrap();
    assert_eq!(chosen.id, cifar_id);
    assert!(chosen.is_active);
    for m in reg.get_models() {
        assert_eq!(m.is_active, m.id == cifar_id);
    }
    assert_eq!(reg.get_active_model().unwrap().id, cifar_id);
}

#[test]
fn add_model_returns_a_fresh_identifier() {
    let mut reg = ModelRegistry::new();
    let id = reg
        .add_model(ModelInfo {
            id: String::new(),
            name: "extra".to_string(),
            description: "an extra model".to_string(),
            path: "models/extra.pth".to_string(),
            model_type: "ResNet18".to_string(),
            num_classes: 2,
            script_path: "scripts/extra.py".to_string(),
            is_active: false,
        })
        .unwrap();
    assert_eq!(id.len(), 36);
    let models = reg.get_models();
    assert_eq!(models.len(), 3);
    let stored = models.iter().find(|m| m.id == id).unwrap();
    assert_eq!(stored.name, "extra");
}

#[test]
fn remove_model_rejects_an_unknown_id() {
    let mut reg = ModelRegistry::new();
    let err = reg.remove_model("missing").unwrap_err();
    assert_eq!(err, "unknown model id: missing");
    assert_eq!(reg.get_models().len(), 2);
}

#[test]
fn removing_the_active_model_promotes_another() {
    let mut reg = ModelRegistry::new();
    let active_id = reg.get_active_model().unwrap().id;
    reg.remove_model(&active_id).unwrap();
    let models = reg.get_models();
    assert_eq!(models.len(), 1);
    let promoted = reg.get_active_model().expect("a remaining model becomes active");
    assert_eq!(promoted.id, models[0].id);
    assert!(promoted.is_active);
}

#[test]
fn removing_an_inactive_model_keeps_the_active_one() {
    let mut reg = ModelRegistry::new();
    let active_id = reg.get_active_model().unwrap().id;
    let other_id = reg.get_models().into_iter().find(|m| m.id != active_id).unwrap().id;
    reg.remove_model(&other_id).unwrap();
    assert_eq!(reg.get_models().len(), 1);
    assert_eq!(reg.get_active_model().unwrap().id, active_id);
}

#[test]
fn removing_the_last_model_leaves_no_active_one() {
    let mut reg = ModelRegistry::new();
    let ids: Vec<String> = reg.get_models().into_iter().map(|m| m.id).collect();
    for id in ids {
        reg.remove_model(&id).unwrap();
    }
    assert_eq!(reg.get_models().len(), 0);
    assert!(reg.get_active_model().is_none());
}
