use keyecho::autostart::{launch_agent_path, set_attribution, ASSOCIATED_BUNDLE_IDENTIFIERS, NOT_A_DICTIONARY};

#[test]
fn attribution_uses_the_configured_bundle_id_and_is_idempotent() {
    let mut launch_agent = plist::Value::Dictionary(plist::Dictionary::new());

    assert_eq!(set_attribution(&mut launch_agent, "app.keyecho.test"), Ok(true));
    assert_eq!(set_attribution(&mut launch_agent, "app.keyecho.test"), Ok(false));
    assert_eq!(
        launch_agent.as_dictionary().and_then(|dictionary| dictionary.get("AssociatedBundleIdentifiers")),
        Some(&plist::Value::Array(vec![plist::Value::String("app.keyecho.test".into())]))
    );
}

#[test]
fn attribution_replaces_another_bundle_and_keeps_other_entries() {
    let mut dictionary = plist::Dictionary::new();
    dictionary.insert("Label".into(), plist::Value::String("KeyEcho".into()));
    dictionary.insert(
        ASSOCIATED_BUNDLE_IDENTIFIERS.into(),
        plist::Value::Array(vec![plist::Value::String("other.bundle".into())]),
    );
    let mut launch_agent = plist::Value::Dictionary(dictionary);

    assert_eq!(set_attribution(&mut launch_agent, "app.keyecho.test"), Ok(true));
    let dictionary = launch_agent.as_dictionary().expect("still a dictionary");
    assert_eq!(dictionary.get("Label"), Some(&plist::Value::String("KeyEcho".into())));
    assert_eq!(
        dictionary.get(ASSOCIATED_BUNDLE_IDENTIFIERS),
        Some(&plist::Value::Array(vec![plist::Value::String("app.keyecho.test".into())]))
    );
}

#[test]
fn attribution_refuses_a_launch_agent_that_is_not_a_dictionary() {
    let mut launch_agent = plist::Value::Array(Vec::new());

    assert_eq!(set_attribution(&mut launch_agent, "app.keyecho.test"), Err(NOT_A_DICTIONARY.to_string()));
    assert_eq!(launch_agent, plist::Value::Array(Vec::new()));
}

#[test]
fn launch_agent_lives_in_the_user_launch_agents_directory() {
    assert_eq!(launch_agent_path("/Users/me", "KeyEcho"), "/Users/me/Library/LaunchAgents/KeyEcho.plist");
}
