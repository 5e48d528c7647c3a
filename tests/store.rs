use aicli::credential::{all_credentials, namespace, Credential};
use aicli::store::{
    begin_provision, finish_provision, lookup_outcome, removal_line, removal_outcome, Provision,
    Removal, StoreError,
};

#[test]
fn credential_table() {
    assert_eq!(namespace(), "actionitems");
    let all = all_credentials();
    assert_eq!(all, vec![Credential::ApiKey, Credential::Endpoint, Credential::Deployment]);
    assert_eq!(Credential::ApiKey.store_id(), "azure_openai");
    assert_eq!(Credential::Endpoint.store_id(), "azure_openai_endpoint");
    assert_eq!(Credential::Deployment.store_id(), "azure_openai_deployment");
    assert!(Credential::ApiKey.masked());
    assert!(!Credential::Endpoint.masked());
    assert!(!Credential::Deployment.masked());
}

#[test]
fn stored_value_is_trimmed() {
    assert_eq!(lookup_outcome(Ok("  sk-123 \n".to_string())).unwrap(), Some("sk-123".to_string()));
}

#[test]
fn missing_entry_on_read_is_no_value() {
    assert_eq!(lookup_outcome(Err(StoreError::NotFound)).unwrap(), None);
}

#[test]
fn other_read_failures_stand() {
    let e = keyring::Error::Invalid("service".to_string(), "empty".to_string());
    assert!(matches!(lookup_outcome(Err(StoreError::Failed(e))), Err(StoreError::Failed(_))));
}

#[test]
fn missing_entry_on_delete_is_reported_not_failed() {
    assert_eq!(removal_outcome(Err(StoreError::NotFound)).unwrap(), Removal::NotStored);
    assert_eq!(removal_outcome(Ok(())).unwrap(), Removal::Deleted);
}

#[test]
fn other_store_failures_stand() {
    let e = keyring::Error::TooLong("user".to_string(), 8);
    assert!(matches!(removal_outcome(Err(StoreError::Failed(e))), Err(StoreError::Failed(_))));
}

#[test]
fn nothing_stored_lines() {
    assert_eq!(removal_line(Credential::ApiKey, Removal::NotStored), "No API key was stored.");
    assert_eq!(removal_line(Credential::Endpoint, Removal::NotStored), "No Endpoint was stored.");
    assert_eq!(removal_line(Credential::Deployment, Removal::NotStored), "No Deployment was stored.");
    assert_eq!(removal_line(Credential::ApiKey, Removal::Deleted), "API key deleted from secure storage.");
}

#[test]
fn missing_credential_is_asked_for() {
    match begin_provision(Credential::ApiKey, None) {
        Provision::Ask { notice, prompt, masked } => {
            assert_eq!(notice, "api_key not found in secure storage.");
            assert_eq!(prompt, "Please enter your API key (input will be hidden): ");
            assert!(masked);
        }
        other => panic!("unexpected {:?}", other),
    }
    match begin_provision(Credential::Endpoint, None) {
        Provision::Ask { prompt, masked, .. } => {
            assert_eq!(prompt, "Please enter your endpoint (e.g., https://your-resource.openai.azure.com): ");
            assert!(!masked);
        }
        other => panic!("unexpected {:?}", other),
    }
}

#[test]
fn stored_credential_is_used() {
    match begin_provision(Credential::Deployment, Some("gpt4o".to_string())) {
        Provision::Ready(v) => assert_eq!(v, "gpt4o"),
        other => panic!("unexpected {:?}", other),
    }
}

#[test]
fn entered_credential_is_trimmed() {
    let (v, note) = finish_provision(Credential::Endpoint, " https://x.example \n");
    assert_eq!(v, "https://x.example");
    assert_eq!(note, "endpoint securely stored for future use.");
}
