use vstd::prelude::*;

verus! {

/// The three secrets the tool needs to reach the chat-completion service.
#[derive(Clone, Copy, Debug, PartialEq, Eq, Structural)]
pub enum Credential {
    ApiKey,
    Endpoint,
    Deployment,
}

/// The namespace under which every credential lives in the platform store.
pub open spec fn spec_namespace() -> Seq<char> {
    "actionitems"@
}

/// The namespace under which every credential lives in the platform store.
pub fn namespace() -> (r: &'static str)
    ensures
        r@ == spec_namespace(),
{
    "actionitems"
}

/// Every credential, in the order in which they are provisioned and deleted.
pub open spec fn spec_all_credentials() -> Seq<Credential> {
    seq![Credential::ApiKey, Credential::Endpoint, Credential::Deployment]
}

/// Every credential, in the order in which they are provisioned and deleted.
pub fn all_credentials() -> (r: Vec<Credential>)
    ensures
        r@ == spec_all_credentials(),
{
    let r = vec![Credential::ApiKey, Credential::Endpoint, Credential::Deployment];
    assert(r@ =~= spec_all_credentials());
    r
}

impl Credential {
    /// The identifier of the credential's entry in the store.
    pub open spec fn spec_store_id(self) -> Seq<char> {
        match self {
            Credential::ApiKey => "azure_openai"@,
            Credential::Endpoint => "azure_openai_endpoint"@,
            Credential::Deployment => "azure_openai_deployment"@,
        }
    }

    /// The short name used in provisioning notices.
    pub open spec fn spec_label(self) -> Seq<char> {
        match self {
            Credential::ApiKey => "api_key"@,
            Credential::Endpoint => "endpoint"@,
            Credential::Deployment => "deployment"@,
        }
    }

    /// The display name used when reporting deletions.
    pub open spec fn spec_title(self) -> Seq<char> {
        match self {
            Credential::ApiKey => "API key"@,
            Credential::Endpoint => "Endpoint"@,
            Credential::Deployment => "Deployment"@,
        }
    }

    /// The text shown when asking the user for the credential.
    pub open spec fn spec_prompt(self) -> Seq<char> {
        match self {
            Credential::ApiKey => "Please enter your API key (input will be hidden): "@,
            Credential::Endpoint =>
                "Please enter your endpoint (e.g., https://your-resource.openai.azure.com): "@,
            Credential::Deployment => "Please enter your deployment name: "@,
        }
    }

    /// Whether the credential is typed without echo.
    pub open spec fn spec_masked(self) -> bool {
        self == Credential::ApiKey
    }

    pub fn store_id(&self) -> (r: &'static str)
        ensures
            r@ == self.spec_store_id(),
    {
        match self {
            Credential::ApiKey => "azure_openai",
            Credential::Endpoint => "azure_openai_endpoint",
            Credential::Deployment => "azure_openai_deployment",
        }
    }

    pub fn label(&self) -> (r: &'static str)
        ensures
            r@ == self.spec_label(),
    {
        match self {
            Credential::ApiKey => "api_key",
            Credential::Endpoint => "endpoint",
            Credential::Deployment => "deployment",
        }
    }

    pub fn title(&self) -> (r: &'static str)
        ensures
            r@ == self.spec_title(),
    {
        match self {
            Credential::ApiKey => "API key",
            Credential::Endpoint => "Endpoint",
            Credential::Deployment => "Deployment",
        }
    }

    pub fn prompt(&self) -> (r: &'static str)
        ensures
            r@ == self.spec_prompt(),
    {
        match self {
            Credential::ApiKey => "Please enter your API key (input will be hidden): ",
            Credential::Endpoint =>
                "Please enter your endpoint (e.g., https://your-resource.openai.azure.com): ",
            Credential::Deployment => "Please enter your deployment name: ",
        }
    }

    pub fn masked(&self) -> (r: bool)
        ensures
            r == self.spec_masked(),
    {
        match self {
            Credential::ApiKey => true,
            _ => false,
        }
    }
}

/// Distinct credentials are kept under distinct store entries, so clearing one
/// never touches another.
pub proof fn lemma_store_ids_distinct(a: Credential, b: Credential)
    requires
        a != b,
    ensures
        a.spec_store_id() != b.spec_store_id(),
{
    reveal_strlit("azure_openai");
    reveal_strlit("azure_openai_endpoint");
    reveal_strlit("azure_openai_deployment");
    assert("azure_openai"@.len() != "azure_openai_endpoint"@.len());
    assert("azure_openai"@.len() != "azure_openai_deployment"@.len());
    assert("azure_openai_endpoint"@[13] != "azure_openai_deployment"@[13]);
}

} // verus!
