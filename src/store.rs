use vstd::prelude::*;
use crate::credential::{Credential, all_credentials, namespace, spec_all_credentials};
use crate::text::{join2, join3, trim_of, trim_str};

verus! {

#[verifier::external_type_specification]
#[verifier::external_body]
pub struct ExEntry(keyring::Entry);

#[verifier::external_type_specification]
#[verifier::external_body]
pub struct ExKeyringError(keyring::Error);

/// Relies on `keyring::Entry::new`: builds the handle of entry `user` under
/// `service` with the platform's default store.
pub assume_specification[ keyring::Entry::new ](service: &str, user: &str) -> Result<
    keyring::Entry,
    keyring::Error,
>;

/// Relies on `keyring::Entry::get_password`: reads the stored secret.
pub assume_specification[ keyring::Entry::get_password ](entry: &keyring::Entry) -> Result<
    String,
    keyring::Error,
>;

/// Relies on `keyring::Entry::set_password`: writes the secret.
pub assume_specification[ keyring::Entry::set_password ](
    entry: &keyring::Entry,
    password: &str,
) -> Result<(), keyring::Error>;

/// Relies on `keyring::Entry::delete_password`: removes the secret, failing
/// with `keyring::Error::NoEntry` when there is none.
pub assume_specification[ keyring::Entry::delete_password ](entry: &keyring::Entry) -> Result<
    (),
    keyring::Error,
>;

/// A failure of the credential store.
#[derive(Debug)]
pub enum StoreError {
    /// The store holds no such entry.
    NotFound,
    /// Any other failure, as the store reported it.
    Failed(keyring::Error),
}

/// Relies on the variants of `keyring::Error`: `NoEntry` is the store's report
/// that the entry does not exist; every other variant is passed on.
#[verifier::external_body]
fn store_error(e: keyring::Error) -> (r: StoreError) {
    match e {
        keyring::Error::NoEntry => StoreError::NotFound,
        other => StoreError::Failed(other),
    }
}

fn store_result<T>(r: Result<T, keyring::Error>) -> (s: Result<T, StoreError>)
    ensures
        r is Ok <==> s is Ok,
        r is Ok ==> s == Ok::<T, StoreError>(r->Ok_0),
{
    match r {
        Ok(v) => Ok(v),
        Err(e) => Err(store_error(e)),
    }
}

fn open_entry(c: Credential) -> Result<keyring::Entry, StoreError> {
    store_result(keyring::Entry::new(namespace(), c.store_id()))
}

/// The value a lookup yields: the stored text with surrounding whitespace
/// removed, nothing when the store holds no such entry, or the store's
/// failure for any other error.
pub open spec fn looked_up(got: Result<String, StoreError>) -> Result<Option<Seq<char>>, StoreError> {
    match got {
        Ok(s) => Ok(Some(trim_of(s@))),
        Err(StoreError::NotFound) => Ok(None),
        Err(e) => Err(e),
    }
}

/// Interprets the result of reading a credential from the store: a missing
/// entry is `Ok(None)`, any other failure is passed on.
pub fn lookup_outcome(got: Result<String, StoreError>) -> (r: Result<Option<String>, StoreError>)
    ensures
        r matches Ok(Some(v)) ==> looked_up(got) == Ok::<Option<Seq<char>>, StoreError>(
            Some(v@),
        ),
        r matches Ok(None) ==> looked_up(got) == Ok::<Option<Seq<char>>, StoreError>(None),
        r is Err ==> looked_up(got) == Err::<Option<Seq<char>>, StoreError>(r->Err_0),
        got == Err::<String, StoreError>(StoreError::NotFound) ==> r matches Ok(None),
        got matches Err(StoreError::Failed(_)) ==> r is Err,
{
    match got {
        Ok(s) => Ok(Some(trim_str(s.as_str()))),
        Err(StoreError::NotFound) => Ok(None),
        Err(e) => Err(e),
    }
}

/// Reads a credential from the store: the stored text, trimmed, or `Ok(None)`
/// when there is no such entry. Any other failure is passed on.
pub fn fetch(c: Credential) -> (r: Result<Option<String>, StoreError>)
    ensures
        r matches Ok(Some(s)) ==> exists|t: Seq<char>| s@ == #[trigger] trim_of(t),
{
    let entry = open_entry(c)?;
    let got = store_result(entry.get_password());
    let r = lookup_outcome(got);
    if let Ok(Some(s)) = &r {
        assert(s@ == trim_of(got->Ok_0@));
    }
    r
}

/// Writes a credential to the store.
pub fn save(c: Credential, value: &str) -> (r: Result<(), StoreError>) {
    let entry = open_entry(c)?;
    store_result(entry.set_password(value))
}

/// Removes a credential from the store; a missing entry is an error here.
pub fn remove(c: Credential) -> (r: Result<(), StoreError>) {
    let entry = open_entry(c)?;
    store_result(entry.delete_password())
}

/// What deleting one credential came to.
#[derive(Clone, Copy, Debug, PartialEq, Eq, Structural)]
pub enum Removal {
    Deleted,
    NotStored,
}

/// Interprets the result of deleting a credential: a missing entry is
/// reported, not failed on; any other failure stands.
pub fn removal_outcome(res: Result<(), StoreError>) -> (r: Result<Removal, StoreError>)
    ensures
        res is Ok ==> r == Ok::<Removal, StoreError>(Removal::Deleted),
        res == Err::<(), StoreError>(StoreError::NotFound) ==> r == Ok::<Removal, StoreError>(
            Removal::NotStored,
        ),
        res is Err && res->Err_0 is Failed ==> r == Err::<Removal, StoreError>(res->Err_0),
{
    match res {
        Ok(()) => Ok(Removal::Deleted),
        Err(StoreError::NotFound) => Ok(Removal::NotStored),
        Err(e) => Err(e),
    }
}

/// The line that reports the deletion of `c`.
pub open spec fn removal_line_spec(c: Credential, o: Removal) -> Seq<char> {
    match o {
        Removal::Deleted => c.spec_title() + " deleted from secure storage."@,
        Removal::NotStored => "No "@ + c.spec_title() + " was stored."@,
    }
}

/// The line that reports the deletion of `c`.
pub fn removal_line(c: Credential, o: Removal) -> (r: String)
    ensures
        r@ == removal_line_spec(c, o),
{
    match o {
        Removal::Deleted => join2(c.title(), " deleted from secure storage."),
        Removal::NotStored => join3("No ", c.title(), " was stored."),
    }
}

/// The line that closes a deletion in which nothing failed.
pub open spec fn all_deleted_line() -> Seq<char> {
    "All credentials deleted from secure storage."@
}

/// The record of a run of the delete-all command.
#[derive(Debug)]
pub struct Deletion {
    /// What happened to each credential that was dealt with, in order.
    pub reports: Vec<(Credential, Removal)>,
    /// The lines for standard output, in order.
    pub lines: Vec<String>,
    /// The failure that stopped the run, if one did.
    pub failure: Option<StoreError>,
}

/// Whether `d` is well formed: the credentials dealt with are a prefix of all
/// of them, one line each, and either a failure other than a missing entry
/// stopped the run or every credential was dealt with and the closing line
/// follows.
pub open spec fn deletion_wf(d: Deletion) -> bool {
    let n = d.reports@.len();
    &&& n <= 3
    &&& forall|i: int| 0 <= i < n ==> #[trigger] d.reports@[i].0 == spec_all_credentials()[i]
    &&& d.failure is None ==> n == 3 && d.lines@.len() == 4 && d.lines@[3]@
        == all_deleted_line()
    &&& d.failure is Some ==> d.lines@.len() == n
    &&& d.failure matches Some(e) ==> e is Failed
    &&& forall|i: int|
        0 <= i < n ==> #[trigger] d.lines@[i]@ == removal_line_spec(
            d.reports@[i].0,
            d.reports@[i].1,
        )
}

/// Deletes every credential from the store, stopping at the first failure
/// other than a missing entry.
pub fn delete_credentials() -> (r: Deletion)
    ensures
        deletion_wf(r),
{
    let creds = all_credentials();
    let mut reports: Vec<(Credential, Removal)> = Vec::new();
    let mut lines: Vec<String> = Vec::new();
    let mut i: usize = 0;
    while i < creds.len()
        invariant
            creds@ == spec_all_credentials(),
            i <= creds@.len(),
            reports@.len() == i,
            lines@.len() == i,
            forall|j: int| 0 <= j < i ==> #[trigger] reports@[j].0 == spec_all_credentials()[j],
            forall|j: int|
                0 <= j < i ==> #[trigger] lines@[j]@ == removal_line_spec(
                    reports@[j].0,
                    reports@[j].1,
                ),
        decreases creds@.len() - i,
    {
        let c = creds[i];
        match removal_outcome(remove(c)) {
            Ok(o) => {
                reports.push((c, o));
                lines.push(removal_line(c, o));
            },
            Err(e) => {
                return Deletion { reports, lines, failure: Some(e) };
            },
        }
        i = i + 1;
    }
    lines.push(String::from_str("All credentials deleted from secure storage."));
    Deletion { reports, lines, failure: None }
}

/// The first step of provisioning a credential.
#[derive(Debug)]
pub enum Provision {
    /// The store had it: use this value.
    Ready(String),
    /// It is missing: print `notice`, then ask with `prompt`, without echo
    /// when `masked`.
    Ask { notice: String, prompt: String, masked: bool },
}

/// The notice printed when `c` is missing from the store.
pub open spec fn missing_notice(c: Credential) -> Seq<char> {
    c.spec_label() + " not found in secure storage."@
}

/// The notice printed once an entered `c` has been stored.
pub open spec fn stored_notice(c: Credential) -> Seq<char> {
    c.spec_label() + " securely stored for future use."@
}

/// Decides, from what the store yielded for `c`, whether the user is asked.
pub fn begin_provision(c: Credential, found: Option<String>) -> (r: Provision)
    ensures
        found is None <==> r is Ask,
        found is Some ==> r == Provision::Ready(found.unwrap()),
        r matches Provision::Ask { notice, prompt, masked } ==> notice@ == missing_notice(c)
            && prompt@ == c.spec_prompt() && masked == c.spec_masked(),
{
    match found {
        Some(v) => Provision::Ready(v),
        None => Provision::Ask {
            notice: join2(c.label(), " not found in secure storage."),
            prompt: String::from_str(c.prompt()),
            masked: c.masked(),
        },
    }
}

/// Finishes provisioning `c` from what the user typed: the value to store
/// and use, and the notice printed once it is stored.
pub fn finish_provision(c: Credential, entered: &str) -> (r: (String, String))
    ensures
        r.0@ == trim_of(entered@),
        r.1@ == stored_notice(c),
{
    (trim_str(entered), join2(c.label(), " securely stored for future use."))
}

/// A delete-all run that met no failure dealt with every credential.
pub proof fn lemma_completed_deletion_covers_every_credential(d: Deletion, c: Credential)
    requires
        deletion_wf(d),
        d.failure is None,
    ensures
        exists|i: int| 0 <= i < d.reports@.len() && #[trigger] d.reports@[i].0 == c,
{
    let i: int = match c {
        Credential::ApiKey => 0,
        Credential::Endpoint => 1,
        Credential::Deployment => 2,
    };
    assert(d.reports@[i].0 == spec_all_credentials()[i]);
}

} // verus!
