use schulte::ui_host_provider_plugin::{BuiltInUiLayer, UiLayerKey, UiLayerNode, UiRootRes};

#[test]
fn built_in_layers_in_order() {
    assert_eq!(
        BuiltInUiLayer::all(),
        vec![BuiltInUiLayer::Background, BuiltInUiLayer::Main, BuiltInUiLayer::Debug]
    );
}

#[test]
fn layer_names() {
    assert_eq!(BuiltInUiLayer::Background.as_str(), "Background");
    assert_eq!(BuiltInUiLayer::Main.as_str(), "Main");
    assert_eq!(BuiltInUiLayer::Debug.as_str(), "Debug");
    assert_eq!(BuiltInUiLayer::Main.layer_node_name(), "UiRootRes::Layer::Main");
    assert_eq!(UiLayerKey::custom("Overlay").as_str(), "Overlay");
    assert_eq!(UiLayerKey::from(BuiltInUiLayer::Debug).as_str(), "Debug");
}

#[test]
fn custom_key() {
    assert_eq!(UiLayerKey::custom("Popup"), UiLayerKey::Custom("Popup".to_string()));
    assert_eq!(UiLayerKey::from(BuiltInUiLayer::Main), UiLayerKey::BuiltIn(BuiltInUiLayer::Main));
    let node = UiLayerNode(UiLayerKey::custom("Popup"));
    assert_eq!(node.0, UiLayerKey::custom("Popup"));
}

#[test]
fn keys_compare_by_kind_and_name() {
    let main = UiLayerKey::BuiltIn(BuiltInUiLayer::Main);
    assert!(main.same_key(&UiLayerKey::from(BuiltInUiLayer::Main)));
    assert!(!main.same_key(&UiLayerKey::custom("Main")));
    assert!(UiLayerKey::custom("A").same_key(&UiLayerKey::custom("A")));
    assert!(!UiLayerKey::custom("A").same_key(&UiLayerKey::custom("B")));
}

#[test]
fn registered_layer_reads_back() {
    let mut res = UiRootRes::new(1);
    assert_eq!(res.ui_root(), 1);
    assert_eq!(res.try_get_layer_node(&UiLayerKey::from(BuiltInUiLayer::Main)), None);
    assert!(!res.pre_build_layer_node(BuiltInUiLayer::Main, 10));
    assert_eq!(res.get_built_in_layer_node(BuiltInUiLayer::Main), 10);
    assert_eq!(res.get_layer_node(&UiLayerKey::from(BuiltInUiLayer::Main)), 10);
    assert_eq!(res.try_get_layer_node(&UiLayerKey::custom("Main")), None);
    assert_eq!(res.try_get_layer_node(&UiLayerKey::from(BuiltInUiLayer::Debug)), None);
}

#[test]
fn registering_again_replaces_and_reports() {
    let mut res = UiRootRes::new(1);
    assert!(!res.pre_build_layer_node(BuiltInUiLayer::Debug, 10));
    assert!(!res.pre_build_layer_node(BuiltInUiLayer::Main, 11));
    assert!(res.pre_build_layer_node(BuiltInUiLayer::Debug, 12));
    assert_eq!(res.get_built_in_layer_node(BuiltInUiLayer::Debug), 12);
    assert_eq!(res.get_built_in_layer_node(BuiltInUiLayer::Main), 11);
}

#[test]
fn bootstrap_registers_every_built_in_layer() {
    let res = UiRootRes::bootstrap(5, &vec![20, 21, 22]);
    assert_eq!(res.ui_root(), 5);
    assert_eq!(res.get_built_in_layer_node(BuiltInUiLayer::Background), 20);
    assert_eq!(res.get_built_in_layer_node(BuiltInUiLayer::Main), 21);
    assert_eq!(res.get_built_in_layer_node(BuiltInUiLayer::Debug), 22);
    assert_eq!(res.try_get_layer_node(&UiLayerKey::custom("Background")), None);
}
