use vstd::prelude::*;
use std::collections::HashMap;
use rand::Rng;
use crate::oauth::AuthResponse;

verus! {

broadcast use vstd::std_specs::hash::group_hash_axioms;

/// The characters the credential generator draws from.
pub open spec fn is_alphanumeric_char(c: char) -> bool {
    ('a' <= c && c <= 'z') || ('A' <= c && c <= 'Z') || ('0' <= c && c <= '9')
}

pub open spec fn all_alphanumeric(s: Seq<char>) -> bool {
    forall|i: int| 0 <= i < s.len() ==> is_alphanumeric_char(s[i])
}

/// Relies on rand's `Alphanumeric` distribution: every sample is one of the
/// 62 ASCII letters and digits, and `take(len)` collects exactly `len` of
/// them. The concrete characters depend on the thread's generator, so
/// nothing else is promised.
#[verifier::external_body]
fn random_alphanumeric(len: usize) -> (r: String)
    ensures
        r@.len() == len as nat,
        all_alphanumeric(r@),
{
    rand::thread_rng()
        .sample_iter(&rand::distributions::Alphanumeric)
        .take(len)
        .map(char::from)
        .collect()
}

/// A durable API credential record: the provider account id it belongs to
/// and the issued client id / client secret pair.
#[derive(Debug, PartialEq, Eq)]
pub struct ClientCredentials {
    pub uuid: u64,
    pub client_id: String,
    pub client_secret: String,
}

impl Clone for ClientCredentials {
    fn clone(&self) -> (r: Self)
        ensures
            r == *self,
    {
        ClientCredentials {
            uuid: self.uuid,
            client_id: self.client_id.clone(),
            client_secret: self.client_secret.clone(),
        }
    }
}

/// What issuance guarantees of every record: a 16-character alphanumeric
/// client id and a 32-character alphanumeric client secret.
pub open spec fn credentials_well_formed(c: ClientCredentials) -> bool {
    &&& c.client_id@.len() == 16
    &&& all_alphanumeric(c.client_id@)
    &&& c.client_secret@.len() == 32
    &&& all_alphanumeric(c.client_secret@)
}

/// Issues a fresh credential pair for an identity: the record keeps the
/// profile's account id and draws a random 16-character client id and a
/// random 32-character client secret.
pub fn generate_client_id_and_secrets(resp: AuthResponse) -> (r: ClientCredentials)
    ensures
        r.uuid == resp.id,
        credentials_well_formed(r),
{
    let id = resp.id;
    let client_id = random_alphanumeric(16);
    let client_secret = random_alphanumeric(32);
    ClientCredentials { uuid: id, client_id, client_secret }
}

/// The key-value namespace of credential records, keyed by the provider
/// account id. A record is written under its own `uuid`, so each key maps
/// to a record that carries it.
pub struct CredentialStore {
    records: HashMap<u64, ClientCredentials>,
}

impl View for CredentialStore {
    type V = Map<u64, ClientCredentials>;

    closed spec fn view(&self) -> Map<u64, ClientCredentials> {
        self.records@
    }
}

/// Every stored record is keyed by its own account id.
pub open spec fn store_well_formed(m: Map<u64, ClientCredentials>) -> bool {
    forall|k: u64| m.contains_key(k) ==> (#[trigger] m[k]).uuid == k
}

impl CredentialStore {
    pub fn new() -> (r: Self)
        ensures
            r@ == Map::<u64, ClientCredentials>::empty(),
            store_well_formed(r@),
    {
        CredentialStore { records: HashMap::new() }
    }

    /// Looks a record up by account id.
    pub fn get(&self, user_id: u64) -> (r: Option<&ClientCredentials>)
        ensures
            match r {
                Some(c) => self@.contains_key(user_id) && *c == self@[user_id],
                None => !self@.contains_key(user_id),
            },
    {
        self.records.get(&user_id)
    }

    /// Writes a record under its own account id.
    pub fn put(&mut self, creds: ClientCredentials)
        ensures
            final(self)@ == old(self)@.insert(creds.uuid, creds),
            store_well_formed(old(self)@) ==> store_well_formed(final(self)@),
    {
        let ghost pre = self@;
        let uuid = creds.uuid;
        let ghost c = creds;
        self.records.insert(uuid, creds);
        proof {
            if store_well_formed(pre) {
                assert forall|k: u64| self@.contains_key(k) implies (#[trigger] self@[k]).uuid
                    == k by {
                    if k != c.uuid {
                        assert(pre.contains_key(k) && self@[k] == pre[k]);
                    }
                }
            }
        }
    }

    /// Create-if-absent resolution for a callback: an existing record is
    /// returned unchanged and the store is untouched; for a new identity a
    /// fresh record is issued, persisted under the profile's account id and
    /// returned. The caller sees the record only once it is in the store.
    pub fn get_or_create(&mut self, profile: &AuthResponse) -> (r: ClientCredentials)
        ensures
            old(self)@.contains_key(profile.id) ==> {
                &&& r == old(self)@[profile.id]
                &&& final(self)@ == old(self)@
            },
            !old(self)@.contains_key(profile.id) ==> {
                &&& r.uuid == profile.id
                &&& credentials_well_formed(r)
                &&& final(self)@ == old(self)@.insert(profile.id, r)
            },
            store_well_formed(old(self)@) ==> store_well_formed(final(self)@),
    {
        let existing = self.records.get(&profile.id);
        match existing {
            Some(c) => c.clone(),
            None => {
                let creds = generate_client_id_and_secrets(profile.clone());
                let r = creds.clone();
                self.put(creds);
                r
            },
        }
    }

    pub fn len(&self) -> (r: usize)
        ensures
            r == self@.len(),
    {
        self.records.len()
    }
}

/// Law: a callback for a new identity adds exactly one record, keyed by the
/// identity's account id and carrying it as `uuid`; every other key is
/// untouched.
pub proof fn lemma_new_identity_creates_single_record(
    pre: Map<u64, ClientCredentials>,
    post: Map<u64, ClientCredentials>,
    id: u64,
    r: ClientCredentials,
)
    requires
        pre.dom().finite(),
        !pre.contains_key(id),
        post == pre.insert(id, r),
        r.uuid == id,
    ensures
        post.contains_key(id),
        post[id] == r,
        post[id].uuid == id,
        post.len() == pre.len() + 1,
        forall|k: u64| k != id ==> (post.contains_key(k) <==> pre.contains_key(k)),
        forall|k: u64| k != id && pre.contains_key(k) ==> post[k] == pre[k],
{
    assert(post.dom() =~= pre.dom().insert(id));
    vstd::set::axiom_set_insert_len(pre.dom(), id);
}

/// Law: once an identity has a record, repeated callbacks return that very
/// record and leave the store as it was, so the client id and secret never
/// change.
pub proof fn lemma_repeated_callbacks_identical(
    m: Map<u64, ClientCredentials>,
    id: u64,
    first: ClientCredentials,
    second: ClientCredentials,
)
    requires
        m.contains_key(id),
        first == m[id],
        second == m[id],
    ensures
        first == second,
        first.client_id == second.client_id,
        first.client_secret == second.client_secret,
{
}

} // verus!
