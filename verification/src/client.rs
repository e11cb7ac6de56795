//! The credential store and its builder.
//!
//! A store holds five optional texts. An empty text never counts as a value:
//! wherever one is offered, the field is left unset instead.

use vstd::prelude::*;
use vstd::string::*;

verus! {

/// One of the five credential fields, in the order in which `build` checks them.
#[derive(Clone, Copy, PartialEq, Eq, Debug, Structural)]
pub enum Field {
    User,
    Password,
    Realm,
    BaseUrl,
    Port,
}

impl Field {
    /// The place of the field in the order of checking.
    pub open spec fn rank(self) -> nat {
        match self {
            Field::User => 0,
            Field::Password => 1,
            Field::Realm => 2,
            Field::BaseUrl => 3,
            Field::Port => 4,
        }
    }

    /// The message that reports the field as missing.
    pub open spec fn message(self) -> Seq<char> {
        match self {
            Field::User => "user should be set"@,
            Field::Password => "password should be set"@,
            Field::Realm => "user's realm should be set"@,
            Field::BaseUrl => "base_url should be set"@,
            Field::Port => "port should be set"@,
        }
    }

    /// The environment key under which the field is configured.
    pub open spec fn key(self) -> Seq<char> {
        match self {
            Field::User => "PROXMOX_USER"@,
            Field::Password => "PROXMOX_PASS"@,
            Field::Realm => "PROXMOX_REALM"@,
            Field::BaseUrl => "PROXMOX_BASEURL"@,
            Field::Port => "PROXMOX_PORT"@,
        }
    }

    /// Returns the message that reports the field as missing.
    pub fn error(self) -> (r: String)
        ensures
            r@ == self.message(),
    {
        match self {
            Field::User => String::from_str("user should be set"),
            Field::Password => String::from_str("password should be set"),
            Field::Realm => String::from_str("user's realm should be set"),
            Field::BaseUrl => String::from_str("base_url should be set"),
            Field::Port => String::from_str("port should be set"),
        }
    }

    /// Returns the environment key under which the field is configured.
    pub fn env_key(self) -> (r: &'static str)
        ensures
            r@ == self.key(),
    {
        match self {
            Field::User => "PROXMOX_USER",
            Field::Password => "PROXMOX_PASS",
            Field::Realm => "PROXMOX_REALM",
            Field::BaseUrl => "PROXMOX_BASEURL",
            Field::Port => "PROXMOX_PORT",
        }
    }
}

/// A text as a field holds it: unset where the text is empty.
pub open spec fn present(value: Seq<char>) -> Option<Seq<char>> {
    if value.len() == 0 {
        None
    } else {
        Some(value)
    }
}

/// An optional text as a field holds it: unset where it is absent or empty.
pub open spec fn normal(value: Option<Seq<char>>) -> Option<Seq<char>> {
    match value {
        Some(s) => present(s),
        None => None,
    }
}

/// The characters of an optional string.
pub open spec fn text(value: Option<String>) -> Option<Seq<char>> {
    match value {
        Some(s) => Some(s@),
        None => None,
    }
}

/// The five credential fields as plain text: the model of a store.
pub struct Credentials {
    pub user: Option<Seq<char>>,
    pub password: Option<Seq<char>>,
    pub realm: Option<Seq<char>>,
    pub base_url: Option<Seq<char>>,
    pub port: Option<Seq<char>>,
}

impl Credentials {
    /// The store with no field set.
    pub open spec fn unset() -> Credentials {
        Credentials { user: None, password: None, realm: None, base_url: None, port: None }
    }

    /// What `field` holds.
    pub open spec fn get(self, field: Field) -> Option<Seq<char>> {
        match field {
            Field::User => self.user,
            Field::Password => self.password,
            Field::Realm => self.realm,
            Field::BaseUrl => self.base_url,
            Field::Port => self.port,
        }
    }

    /// The store with `field` holding `value` and the other fields as they are.
    pub open spec fn put(self, field: Field, value: Option<Seq<char>>) -> Credentials {
        match field {
            Field::User => Credentials { user: value, ..self },
            Field::Password => Credentials { password: value, ..self },
            Field::Realm => Credentials { realm: value, ..self },
            Field::BaseUrl => Credentials { base_url: value, ..self },
            Field::Port => Credentials { port: value, ..self },
        }
    }

    /// The store after `value` was offered for `field`: an empty text clears it.
    pub open spec fn set(self, field: Field, value: Seq<char>) -> Credentials {
        self.put(field, present(value))
    }

    /// The store with every field taken through `normal`.
    pub open spec fn normal(self) -> Credentials {
        Credentials {
            user: normal(self.user),
            password: normal(self.password),
            realm: normal(self.realm),
            base_url: normal(self.base_url),
            port: normal(self.port),
        }
    }

    /// No field holds an empty text.
    pub open spec fn normalized(self) -> bool {
        forall|field: Field| #[trigger] self.get(field) != Some(Seq::<char>::empty())
    }

    /// All five fields are set.
    pub open spec fn complete(self) -> bool {
        forall|field: Field| #[trigger] self.get(field) is Some
    }

    /// The first unset field in the order user, password, realm, base_url, port.
    pub open spec fn first_missing(self) -> Option<Field> {
        if self.user is None {
            Some(Field::User)
        } else if self.password is None {
            Some(Field::Password)
        } else if self.realm is None {
            Some(Field::Realm)
        } else if self.base_url is None {
            Some(Field::BaseUrl)
        } else if self.port is None {
            Some(Field::Port)
        } else {
            None
        }
    }
}

/// The values found in the configuration, one per field, as they were read.
#[derive(Debug, PartialEq, Eq, Default)]
pub struct Config {
    pub user: Option<String>,
    pub password: Option<String>,
    pub realm: Option<String>,
    pub base_url: Option<String>,
    pub port: Option<String>,
}

impl View for Config {
    type V = Credentials;

    open spec fn view(&self) -> Credentials {
        Credentials {
            user: text(self.user),
            password: text(self.password),
            realm: text(self.realm),
            base_url: text(self.base_url),
            port: text(self.port),
        }
    }
}

/// Drops a value that is empty.
fn non_empty(value: Option<String>) -> (r: Option<String>)
    ensures
        text(r) == normal(text(value)),
{
    match value {
        Some(s) => if s.as_str().is_empty() {
            None
        } else {
            Some(s)
        },
        None => None,
    }
}

/// The field value that a caller's text stands for.
fn offered(value: &str) -> (r: Option<String>)
    ensures
        text(r) == present(value@),
{
    if value.is_empty() {
        None
    } else {
        Some(String::from_str(value))
    }
}

/// The credentials of one user on one Proxmox server.
pub struct ProxmoxClient {
    user: Option<String>,
    password: Option<String>,
    realm: Option<String>,
    base_url: Option<String>,
    port: Option<String>,
}

impl View for ProxmoxClient {
    type V = Credentials;

    closed spec fn view(&self) -> Credentials {
        Credentials {
            user: text(self.user),
            password: text(self.password),
            realm: text(self.realm),
            base_url: text(self.base_url),
            port: text(self.port),
        }
    }
}

impl ProxmoxClient {
    #[verifier::type_invariant]
    spec fn inv(self) -> bool {
        self@.normalized()
    }

    /// Makes a client from the configured values; an empty value is left unset.
    pub fn new(config: Config) -> (r: Self)
        ensures
            r@ == config@.normal(),
            r@.normalized(),
    {
        let r = Self {
            user: non_empty(config.user),
            password: non_empty(config.password),
            realm: non_empty(config.realm),
            base_url: non_empty(config.base_url),
            port: non_empty(config.port),
        };
        proof {
            lemma_normal_is_normalized(config@);
        }
        r
    }

    /// Makes a client with no field set.
    pub fn unset() -> (r: Self)
        ensures
            r@ == Credentials::unset(),
    {
        let r = Self { user: None, password: None, realm: None, base_url: None, port: None };
        assert(r@.normalized()) by {
            assert forall|field: Field| #[trigger] r@.get(field) is None by {}
        }
        r
    }

    /// What `field` holds.
    pub fn get(&self, field: Field) -> (r: &Option<String>)
        ensures
            text(*r) == self@.get(field),
            *r matches Some(s) ==> s@.len() > 0,
            self@.normalized(),
    {
        proof {
            use_type_invariant(self);
        }
        let r = match field {
            Field::User => &self.user,
            Field::Password => &self.password,
            Field::Realm => &self.realm,
            Field::BaseUrl => &self.base_url,
            Field::Port => &self.port,
        };
        assert(*r matches Some(s) ==> s@.len() > 0) by {
            if let Some(s) = *r {
                if s@.len() == 0 {
                    assert(s@ =~= Seq::<char>::empty());
                }
            }
        }
        r
    }

    /// The text of a field that is set.
    pub fn value(&self, field: Field) -> (r: &str)
        requires
            self@.get(field) is Some,
        ensures
            self@.get(field) == Some(r@),
            r@.len() > 0,
    {
        match self.get(field) {
            Some(s) => s.as_str(),
            None => vstd::pervasive::unreached(),
        }
    }

    /// The first field that is unset, in the order of `Field`; `None` when all are set.
    pub fn first_missing(&self) -> (r: Option<Field>)
        ensures
            r == self@.first_missing(),
            self@.normalized(),
    {
        proof {
            use_type_invariant(self);
        }
        if self.user.is_none() {
            Some(Field::User)
        } else if self.password.is_none() {
            Some(Field::Password)
        } else if self.realm.is_none() {
            Some(Field::Realm)
        } else if self.base_url.is_none() {
            Some(Field::BaseUrl)
        } else if self.port.is_none() {
            Some(Field::Port)
        } else {
            None
        }
    }

    /// Whether all five fields are set, so that a session can be established.
    pub fn is_complete(&self) -> (r: bool)
        ensures
            r == self@.complete(),
    {
        proof {
            lemma_first_missing(self@);
        }
        self.first_missing().is_none()
    }
}

/// Builds a `ProxmoxClient` field by field and checks that none is missing.
pub struct Builder {
    client: ProxmoxClient,
}

impl View for Builder {
    type V = Credentials;

    closed spec fn view(&self) -> Credentials {
        self.client@
    }
}

impl Builder {
    /// Makes a builder that starts from the configured values.
    pub fn new(config: Config) -> (r: Self)
        ensures
            r@ == config@.normal(),
            r@.normalized(),
    {
        Self { client: ProxmoxClient::new(config) }
    }

    /// The client as it has been set up so far.
    pub fn client(&self) -> (r: &ProxmoxClient)
        ensures
            r@ == self@,
            r@.normalized(),
    {
        proof {
            use_type_invariant(&self.client);
        }
        &self.client
    }

    /// Hands out the client if all five fields are set, and starts over with
    /// an unset one. Otherwise reports the first missing field and keeps what
    /// has been set.
    pub fn build(&mut self) -> (r: Result<ProxmoxClient, String>)
        ensures
            match old(self)@.first_missing() {
                Some(field) => {
                    &&& r is Err
                    &&& r->Err_0@ == field.message()
                    &&& final(self)@ == old(self)@
                },
                None => {
                    &&& r is Ok
                    &&& r->Ok_0@ == old(self)@
                    &&& r->Ok_0@.complete()
                    &&& final(self)@ == Credentials::unset()
                },
            },
    {
        proof {
            lemma_first_missing(self@);
        }
        match self.client.first_missing() {
            Some(field) => Err(field.error()),
            None => {
                let mut client = ProxmoxClient::unset();
                core::mem::swap(&mut self.client, &mut client);
                Ok(client)
            },
        }
    }

    /// Offers `value` for `field`: an empty text clears the field, any other
    /// text is stored. The other fields stay as they are.
    pub fn set(&mut self, field: Field, value: &str) -> (r: &mut Self)
        ensures
            r@ == old(self)@.set(field, value@),
            r@.normalized(),
            *final(self) == *final(r),
    {
        let value_or_unset = offered(value);
        proof {
            use_type_invariant(&self.client);
            lemma_set_keeps_normalized(self@, field, value@);
        }
        match field {
            Field::User => {
                self.client.user = value_or_unset;
            },
            Field::Password => {
                self.client.password = value_or_unset;
            },
            Field::Realm => {
                self.client.realm = value_or_unset;
            },
            Field::BaseUrl => {
                self.client.base_url = value_or_unset;
            },
            Field::Port => {
                self.client.port = value_or_unset;
            },
        }
        self
    }

    /// Sets the user; an empty text clears it.
    pub fn set_user(&mut self, user: &str) -> (r: &mut Self)
        ensures
            r@ == old(self)@.set(Field::User, user@),
            *final(self) == *final(r),
    {
        self.set(Field::User, user)
    }

    /// Sets the password; an empty text clears it.
    pub fn set_password(&mut self, password: &str) -> (r: &mut Self)
        ensures
            r@ == old(self)@.set(Field::Password, password@),
            *final(self) == *final(r),
    {
        self.set(Field::Password, password)
    }

    /// Sets the realm of the user; an empty text clears it.
    pub fn set_realm(&mut self, realm: &str) -> (r: &mut Self)
        ensures
            r@ == old(self)@.set(Field::Realm, realm@),
            *final(self) == *final(r),
    {
        self.set(Field::Realm, realm)
    }

    /// Sets the host of the server; an empty text clears it.
    pub fn set_base_url(&mut self, base_url: &str) -> (r: &mut Self)
        ensures
            r@ == old(self)@.set(Field::BaseUrl, base_url@),
            *final(self) == *final(r),
    {
        self.set(Field::BaseUrl, base_url)
    }

    /// Sets the port of the server; an empty text clears it.
    pub fn set_port(&mut self, port: &str) -> (r: &mut Self)
        ensures
            r@ == old(self)@.set(Field::Port, port@),
            *final(self) == *final(r),
    {
        self.set(Field::Port, port)
    }
}

/// Taking every field through `normal` leaves no empty text.
pub proof fn lemma_normal_is_normalized(c: Credentials)
    ensures
        c.normal().normalized(),
        c.normalized() ==> c.normal() == c,
{
    assert forall|field: Field| #[trigger] c.normal().get(field) != Some(Seq::<char>::empty()) by {
        let v = c.get(field);
        assert(c.normal().get(field) == normal(v));
    }
    if c.normalized() {
        assert forall|field: Field| #[trigger] c.normal().get(field) == c.get(field) by {
            let v = c.get(field);
            assert(c.normal().get(field) == normal(v));
            if let Some(s) = v {
                if s.len() == 0 {
                    assert(s =~= Seq::<char>::empty());
                }
            }
        }
        assert(c.normal().get(Field::User) == c.get(Field::User));
        assert(c.normal().get(Field::Password) == c.get(Field::Password));
        assert(c.normal().get(Field::Realm) == c.get(Field::Realm));
        assert(c.normal().get(Field::BaseUrl) == c.get(Field::BaseUrl));
        assert(c.normal().get(Field::Port) == c.get(Field::Port));
    }
}

/// Offering a text for a field leaves no empty text in a store that held none.
pub proof fn lemma_set_keeps_normalized(c: Credentials, field: Field, value: Seq<char>)
    requires
        c.normalized(),
    ensures
        c.set(field, value).normalized(),
{
    assert forall|other: Field| #[trigger] c.set(field, value).get(other) != Some(Seq::<char>::empty()) by {
        if other == field {
            assert(c.set(field, value).get(other) == present(value));
        } else {
            assert(c.set(field, value).get(other) == c.get(other));
        }
    }
}

/// The first missing field is unset and every field before it is set; there
/// is none exactly when the store is complete.
pub proof fn lemma_first_missing(c: Credentials)
    ensures
        c.first_missing() is None <==> c.complete(),
        c.first_missing() matches Some(field) ==> c.get(field) is None && forall|before: Field|
            before.rank() < field.rank() ==> #[trigger] c.get(before) is Some,
{
    if c.first_missing() is None {
        assert forall|field: Field| #[trigger] c.get(field) is Some by {}
    } else {
        let field = c.first_missing()->Some_0;
        assert(c.get(field) is None);
    }
}

/// Offering the empty text for a field leaves it unset whatever it held,
/// touches no other field, and changes nothing when done again.
pub proof fn law_empty_clears(c: Credentials, field: Field, value: Seq<char>)
    ensures
        c.set(field, value).set(field, Seq::empty()).get(field) is None,
        c.set(field, value).set(field, Seq::empty()) == c.set(field, Seq::empty()),
        c.set(field, Seq::empty()).set(field, Seq::empty()) == c.set(field, Seq::empty()),
        forall|other: Field|
            other != field ==> #[trigger] c.set(field, Seq::empty()).get(other) == c.get(other),
{
}

/// A text that is not empty is stored as it is, and no other field changes.
pub proof fn law_value_is_stored(c: Credentials, field: Field, value: Seq<char>)
    requires
        value.len() > 0,
    ensures
        c.set(field, value).get(field) == Some(value),
        forall|other: Field|
            other != field ==> #[trigger] c.set(field, value).get(other) == c.get(other),
{
}

/// Whatever a store held, once all five fields were given texts that are not
/// empty it is complete and holds exactly those texts, so that `build` hands
/// out a client with them.
pub proof fn law_all_set_is_complete(
    c: Credentials,
    user: Seq<char>,
    password: Seq<char>,
    realm: Seq<char>,
    base_url: Seq<char>,
    port: Seq<char>,
)
    requires
        user.len() > 0,
        password.len() > 0,
        realm.len() > 0,
        base_url.len() > 0,
        port.len() > 0,
    ensures
        ({
            let d = c.set(Field::User, user).set(Field::Password, password).set(
                Field::Realm,
                realm,
            ).set(Field::BaseUrl, base_url).set(Field::Port, port);
            &&& d.first_missing() is None
            &&& d.complete()
            &&& d == Credentials {
                user: Some(user),
                password: Some(password),
                realm: Some(realm),
                base_url: Some(base_url),
                port: Some(port),
            }
        }),
{
    let d = c.set(Field::User, user).set(Field::Password, password).set(Field::Realm, realm).set(
        Field::BaseUrl,
        base_url,
    ).set(Field::Port, port);
    lemma_first_missing(d);
}

} // verus!
