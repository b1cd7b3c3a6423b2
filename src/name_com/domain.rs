//! The domains of a Name.com account.
use vstd::prelude::*;
use super::client::NameDotCom;
use super::endpoints::{
    CORE_V1_ACTION_CHECK_AVAILABILITY, CORE_V1_ACTION_GET_AUTH_CODE, CORE_V1_ACTION_SET_NAMESERVERS,
    CORE_V1_DOMAINS_PREFIX,
};
use crate::text::{concat3, decimal, push_page_query};

verus! {

/// The domain part of the body that registers a domain.
#[derive(Debug, Clone)]
pub struct DomainCreatePayload<'a> {
    pub domain_name: &'a str,
}

/// The body that changes a domain's autorenew, lock or privacy setting;
/// what is `None` stays as it is.
#[derive(Debug, Clone, Default)]
pub struct UpdateDomainPayload {
    pub autorenew_enabled: Option<bool>,
    pub locked: Option<bool>,
    pub privacy_enabled: Option<bool>,
}

/// The answer that carries a domain's transfer authorization code.
#[derive(Debug, Clone)]
pub struct GetAuthCodeResponse {
    pub auth_code: String,
}

/// Owned copies of `names`, in order.
pub fn owned_names(names: &[&str]) -> (r: Vec<String>)
    ensures
        r@.len() == names@.len(),
        forall|i: int| 0 <= i < names@.len() ==> #[trigger] r@[i]@ == names@[i]@,
{
    let mut r: Vec<String> = Vec::new();
    let mut i: usize = 0;
    while i < names.len()
        invariant
            i <= names@.len(),
            r@.len() == i,
            forall|j: int| 0 <= j < i ==> #[trigger] r@[j]@ == names@[j]@,
        decreases names@.len() - i,
    {
        r.push(String::from_str(names[i]));
        i = i + 1;
    }
    r
}

/// Operations on the account's domains as a whole.
pub struct DomainsClient<'a> {
    client: &'a NameDotCom,
}

impl<'a> DomainsClient<'a> {
    pub(crate) fn new(client: &'a NameDotCom) -> (r: Self)
        ensures
            r.owner() == *client,
    {
        DomainsClient { client }
    }

    /// The client this operates through.
    pub closed spec fn owner(&self) -> NameDotCom {
        *self.client
    }

    /// The client this operates through.
    pub fn client(&self) -> (r: &'a NameDotCom)
        ensures
            *r == self.owner(),
    {
        self.client
    }

    /// The path of page `page` of the account's domains; the list is
    /// gathered by a next-page sweep.
    pub fn list_path(&self, page: u64) -> (r: String)
        ensures
            r@ == CORE_V1_DOMAINS_PREFIX@ + "?page="@ + decimal(page as nat),
    {
        let mut r = String::from_str(CORE_V1_DOMAINS_PREFIX);
        push_page_query(&mut r, page);
        r
    }

    /// The path that an availability check is posted to.
    pub fn check_availability_path(&self) -> (r: String)
        ensures
            r@ == CORE_V1_DOMAINS_PREFIX@ + CORE_V1_ACTION_CHECK_AVAILABILITY@,
    {
        let mut r = String::from_str(CORE_V1_DOMAINS_PREFIX);
        r.append(CORE_V1_ACTION_CHECK_AVAILABILITY);
        r
    }

    /// The path that a registration is posted to.
    pub fn create_path(&self) -> (r: String)
        ensures
            r@ == CORE_V1_DOMAINS_PREFIX@,
    {
        String::from_str(CORE_V1_DOMAINS_PREFIX)
    }

    /// Operations on the domain `domain_name`.
    pub fn domain(&self, domain_name: &'a str) -> (r: DomainClient<'a>)
        ensures
            r.owner() == self.owner(),
            r.domain() == domain_name@,
    {
        DomainClient::new(self.client, domain_name)
    }
}

/// Operations on one domain.
pub struct DomainClient<'a> {
    client: &'a NameDotCom,
    domain_name: &'a str,
}

impl<'a> DomainClient<'a> {
    pub(crate) fn new(client: &'a NameDotCom, domain_name: &'a str) -> (r: Self)
        ensures
            r.owner() == *client,
            r.domain() == domain_name@,
    {
        DomainClient { client, domain_name }
    }

    /// The client this operates through.
    pub closed spec fn owner(&self) -> NameDotCom {
        *self.client
    }

    /// The domain this operates on.
    pub closed spec fn domain(&self) -> Seq<char> {
        self.domain_name@
    }

    /// The client this operates through.
    pub fn client(&self) -> (r: &'a NameDotCom)
        ensures
            *r == self.owner(),
    {
        self.client
    }

    /// The path of the domain: read with GET, changed with PATCH.
    pub fn path(&self) -> (r: String)
        ensures
            r@ == CORE_V1_DOMAINS_PREFIX@ + self.domain(),
    {
        let mut r = String::from_str(CORE_V1_DOMAINS_PREFIX);
        r.append(self.domain_name);
        r
    }

    /// The path of the domain's transfer authorization code.
    pub fn get_auth_code_path(&self) -> (r: String)
        ensures
            r@ == CORE_V1_DOMAINS_PREFIX@ + self.domain() + CORE_V1_ACTION_GET_AUTH_CODE@,
    {
        concat3(CORE_V1_DOMAINS_PREFIX, self.domain_name, CORE_V1_ACTION_GET_AUTH_CODE)
    }

    /// The path that new nameservers are posted to.
    pub fn set_nameservers_path(&self) -> (r: String)
        ensures
            r@ == CORE_V1_DOMAINS_PREFIX@ + self.domain() + CORE_V1_ACTION_SET_NAMESERVERS@,
    {
        concat3(CORE_V1_DOMAINS_PREFIX, self.domain_name, CORE_V1_ACTION_SET_NAMESERVERS)
    }
}

} // verus!
