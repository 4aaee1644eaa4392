use vstd::prelude::*;

use crate::constants::{
    MAX_SERVICE_DETAILS_LEN, MAX_SERVICE_LOGO_URL_LEN, MAX_SERVICE_NAME_LEN, MAX_SERVICE_PROVIDER_LEN,
};
use crate::error::ErrorCode;
use crate::keys::Pubkey;

verus! {

/// Length in bytes of a text's UTF-8 encoding, as `str::len` reports it.
pub open spec fn byte_len(s: Seq<char>) -> int {
    (vstd::utf8::encode_utf8(s).len() as usize) as int
}

/// A subscribable service; immutable once listed.
#[derive(Clone, Debug)]
pub struct SubscriptionService {
    pub id: u64,
    pub creator: Pubkey,
    pub name: String,
    pub monthly_price_usdc: u64,
    pub details: String,
    pub logo_url: String,
    pub provider: String,
    pub created_at: i64,
}

/// Persisted size of a service without its texts.
pub const SERVICE_FIXED_SIZE: usize = 8 + 32 + 8 + 8;

/// Persisted size of the catalog without its services.
pub const REGISTRY_BASE_SIZE: usize = 8 + 8 + 4 + 1;

pub open spec fn service_space(name_len: int, details_len: int, logo_url_len: int, provider_len: int) -> int {
    SERVICE_FIXED_SIZE + 4 + name_len + 4 + details_len + 4 + logo_url_len + 4 + provider_len
}

/// Whether the four texts of a service are within their bounds.
pub open spec fn lengths_ok(name_len: int, details_len: int, logo_len: int, provider_len: int) -> bool {
    &&& name_len <= MAX_SERVICE_NAME_LEN
    &&& details_len <= MAX_SERVICE_DETAILS_LEN
    &&& logo_len <= MAX_SERVICE_LOGO_URL_LEN
    &&& provider_len <= MAX_SERVICE_PROVIDER_LEN
}

impl SubscriptionService {
    /// Persisted size of a service with texts of the given byte lengths.
    pub fn space_from_lengths(name_len: usize, details_len: usize, logo_url_len: usize, provider_len: usize) -> (r: usize)
        requires
            service_space(name_len as int, details_len as int, logo_url_len as int, provider_len as int) <= usize::MAX,
        ensures
            r == service_space(name_len as int, details_len as int, logo_url_len as int, provider_len as int),
    {
        SERVICE_FIXED_SIZE + 4 + name_len + 4 + details_len + 4 + logo_url_len + 4 + provider_len
    }

    pub open spec fn space_spec(&self) -> int {
        service_space(byte_len(self.name@), byte_len(self.details@), byte_len(self.logo_url@), byte_len(self.provider@))
    }

    /// Persisted size of this service.
    pub fn space(&self) -> (r: usize)
        requires
            self.space_spec() <= usize::MAX,
        ensures
            r == self.space_spec(),
    {
        Self::space_from_lengths(
            self.name.as_str().len(),
            self.details.as_str().len(),
            self.logo_url.as_str().len(),
            self.provider.as_str().len(),
        )
    }
}

/// Sum of the persisted sizes of `s`.
pub open spec fn services_space(s: Seq<SubscriptionService>) -> int
    decreases s.len(),
{
    if s.len() == 0 {
        0
    } else {
        services_space(s.drop_last()) + s.last().space_spec()
    }
}

/// Index of the first service of `s` with the given id.
pub open spec fn first_with_id(s: Seq<SubscriptionService>, id: u64, k: int) -> bool {
    &&& 0 <= k < s.len()
    &&& s[k].id == id
    &&& forall|j: int| 0 <= j < k ==> #[trigger] s[j].id != id
}

/// The append-only catalog of services.
#[derive(Clone, Debug)]
pub struct SubscriptionRegistry {
    pub next_service_id: u64,
    pub services: Vec<SubscriptionService>,
    pub bump: u8,
}

impl SubscriptionRegistry {
    /// Ids grow strictly with position and stay below the next id.
    pub open spec fn wf(&self) -> bool {
        &&& forall|i: int, j: int| 0 <= i < j < self.services@.len()
            ==> #[trigger] self.services@[i].id < #[trigger] self.services@[j].id
        &&& forall|i: int| 0 <= i < self.services@.len() ==> #[trigger] self.services@[i].id < self.next_service_id
    }

    pub fn new(bump: u8) -> (r: SubscriptionRegistry)
        ensures
            r.next_service_id == 0,
            r.services@.len() == 0,
            r.bump == bump,
            r.wf(),
    {
        SubscriptionRegistry { next_service_id: 0, services: Vec::new(), bump }
    }

    /// Persisted size of the catalog.
    pub fn current_size(&self) -> (r: usize)
        requires
            REGISTRY_BASE_SIZE + services_space(self.services@) <= usize::MAX,
        ensures
            r == REGISTRY_BASE_SIZE + services_space(self.services@),
    {
        let n = self.services.len();
        let mut acc: usize = REGISTRY_BASE_SIZE;
        let mut i: usize = 0;
        while i < n
            invariant
                n == self.services@.len(),
                0 <= i <= n,
                REGISTRY_BASE_SIZE + services_space(self.services@) <= usize::MAX,
                acc == REGISTRY_BASE_SIZE + services_space(self.services@.take(i as int)),
            decreases n - i,
        {
            proof {
                assert(self.services@.take(i + 1).drop_last() =~= self.services@.take(i as int));
                lemma_services_space_prefix(self.services@, i + 1);
            }
            acc = acc + self.services[i].space();
            i = i + 1;
        }
        assert(self.services@.take(n as int) =~= self.services@);
        acc
    }

    /// Persisted size after listing one more service with texts of the
    /// given byte lengths.
    pub fn required_size_for_addition(&self, name_len: usize, details_len: usize, logo_len: usize, provider_len: usize) -> (r: usize)
        requires
            REGISTRY_BASE_SIZE + services_space(self.services@)
                + service_space(name_len as int, details_len as int, logo_len as int, provider_len as int) <= usize::MAX,
        ensures
            r == REGISTRY_BASE_SIZE + services_space(self.services@)
                + service_space(name_len as int, details_len as int, logo_len as int, provider_len as int),
    {
        self.current_size() + SubscriptionService::space_from_lengths(name_len, details_len, logo_len, provider_len)
    }

    /// Appends a service and advances the id counter; refused, with nothing
    /// changed, when the counter is exhausted.
    pub fn append_service(&mut self, service: SubscriptionService) -> (r: Result<(), ErrorCode>)
        ensures
            r is Err <==> old(self).next_service_id == u64::MAX,
            r matches Err(e) ==> e == ErrorCode::MathOverflow && *final(self) == *old(self),
            r is Ok ==> final(self).services@ == old(self).services@.push(service)
                && final(self).next_service_id == old(self).next_service_id + 1
                && final(self).bump == old(self).bump,
            old(self).wf() && service.id == old(self).next_service_id ==> final(self).wf(),
    {
        if self.next_service_id == u64::MAX {
            return Err(ErrorCode::MathOverflow);
        }
        self.services.push(service);
        self.next_service_id = self.next_service_id + 1;
        Ok(())
    }

    /// Refuses texts longer than their bounds with `StringTooLong`.
    pub fn validate_lengths(name_len: usize, details_len: usize, logo_len: usize, provider_len: usize) -> (r: Result<(), ErrorCode>)
        ensures
            r is Ok <==> lengths_ok(name_len as int, details_len as int, logo_len as int, provider_len as int),
            r matches Err(e) ==> e == ErrorCode::StringTooLong,
    {
        if name_len > MAX_SERVICE_NAME_LEN {
            return Err(ErrorCode::StringTooLong);
        }
        if details_len > MAX_SERVICE_DETAILS_LEN {
            return Err(ErrorCode::StringTooLong);
        }
        if logo_len > MAX_SERVICE_LOGO_URL_LEN {
            return Err(ErrorCode::StringTooLong);
        }
        if provider_len > MAX_SERVICE_PROVIDER_LEN {
            return Err(ErrorCode::StringTooLong);
        }
        Ok(())
    }

    /// Lists a new service under the next id; returns that id.
    pub fn register_service(
        &mut self,
        creator: Pubkey,
        name: String,
        monthly_price_usdc: u64,
        details: String,
        logo_url: String,
        provider: String,
        created_at: i64,
    ) -> (r: Result<u64, ErrorCode>)
        ensures
            !lengths_ok(byte_len(name@), byte_len(details@), byte_len(logo_url@), byte_len(provider@))
                ==> r == Err::<u64, ErrorCode>(ErrorCode::StringTooLong),
            lengths_ok(byte_len(name@), byte_len(details@), byte_len(logo_url@), byte_len(provider@))
                && old(self).next_service_id == u64::MAX ==> r == Err::<u64, ErrorCode>(ErrorCode::MathOverflow),
            lengths_ok(byte_len(name@), byte_len(details@), byte_len(logo_url@), byte_len(provider@))
                && old(self).next_service_id < u64::MAX ==> r is Ok,
            r is Err ==> *final(self) == *old(self),
            r matches Ok(id) ==> id == old(self).next_service_id
                && final(self).next_service_id == old(self).next_service_id + 1
                && final(self).services@ == old(self).services@.push(SubscriptionService {
                    id,
                    creator,
                    name,
                    monthly_price_usdc,
                    details,
                    logo_url,
                    provider,
                    created_at,
                }),
            old(self).wf() ==> final(self).wf(),
    {
        Self::validate_lengths(name.as_str().len(), details.as_str().len(), logo_url.as_str().len(), provider.as_str().len())?;
        let id = self.next_service_id;
        let service = SubscriptionService {
            id,
            creator,
            name,
            monthly_price_usdc,
            details,
            logo_url,
            provider,
            created_at,
        };
        self.append_service(service)?;
        Ok(id)
    }

    /// Position of the first service with the given id.
    pub fn find_service(&self, id: u64) -> (r: Option<usize>)
        ensures
            r matches Some(k) ==> first_with_id(self.services@, id, k as int),
            r is None ==> forall|j: int| 0 <= j < self.services@.len() ==> #[trigger] self.services@[j].id != id,
    {
        let n = self.services.len();
        let mut i: usize = 0;
        while i < n
            invariant
                n == self.services@.len(),
                0 <= i <= n,
                forall|j: int| 0 <= j < i ==> #[trigger] self.services@[j].id != id,
            decreases n - i,
        {
            if self.services[i].id == id {
                return Some(i);
            }
            i = i + 1;
        }
        None
    }
}

pub proof fn lemma_services_space_prefix(s: Seq<SubscriptionService>, k: int)
    requires
        0 < k <= s.len(),
    ensures
        services_space(s.take(k)) == services_space(s.take(k - 1)) + s[k - 1].space_spec(),
        services_space(s.take(k)) <= services_space(s),
        s[k - 1].space_spec() >= 0,
    decreases s.len() - k,
{
    assert(s.take(k).drop_last() =~= s.take(k - 1));
    if k < s.len() {
        lemma_services_space_prefix(s, k + 1);
    } else {
        assert(s.take(k) =~= s);
    }
}

pub proof fn lemma_first_service_unique(s: Seq<SubscriptionService>, id: u64, k: int)
    requires
        first_with_id(s, id, k),
    ensures
        forall|k2: int| #[trigger] first_with_id(s, id, k2) ==> k2 == k,
{
    assert forall|k2: int| #[trigger] first_with_id(s, id, k2) implies k2 == k by {
        if k2 < k {
            assert(s[k2].id != id);
        } else if k2 > k {
            assert(s[k].id != id);
        }
    }
}

} // verus!
