//! The certificate registry: non-transferable certificates that record a
//! completed commitment, issued by authorized issuers and revocable by the admin.
use crate::common::{texts_equal, AccountId, Text};
use vstd::prelude::*;

verus! {

broadcast use vstd::std_specs::hash::group_hash_axioms;

/// Seconds in a (non-leap) year.
pub const SECONDS_IN_YEAR: u64 = 31_536_000;
/// How many years ahead a registered certificate may expire at most.
pub const MAX_EXPIRY_YEARS: u64 = 50;
/// How many years a certificate issued for a completed contract holds.
pub const ISSUED_VALIDITY_YEARS: u64 = 365;

/// Why the registry refused a request. A refused request changes nothing.
#[derive(Clone, Copy, Debug, PartialEq, Eq, Structural)]
pub enum CertError {
    AlreadyInitialized,
    /// The admin has not been set.
    NotInitialized,
    /// The map of authorized issuers has never been written.
    IssuersNotSet,
    UnauthorizedIssuer,
    AlreadyExists,
    InvalidSuccessRate,
    IssueDateInFuture,
    ExpiryBeforeIssue,
    ExpiryTooFar,
    ReasonRequired,
    NotFound,
    AlreadyRevoked,
    /// A figure would leave its integer range.
    Overflow,
}

/// A certificate as the registry keeps it.
pub struct CertOnChain {
    pub holder: AccountId,
    pub counterparty: AccountId,
    pub issue_date: u64,
    pub expiry_date: u64,
    pub revoked: bool,
    pub revocation_reason: Option<Text>,
    pub imprint: Text,
}

/// What an issuer submits to register a certificate.
pub struct CertData {
    pub holder: AccountId,
    pub counterparty: AccountId,
    pub holder_name: Text,
    pub certificate_type: Text,
    pub issue_date: u64,
    pub expiry_date: u64,
    pub success_rate: u32,
    pub data_hash: Text,
    pub imprint_text: Text,
}

/// A stored certificate together with its identifier.
pub struct CertRecord {
    pub id: Text,
    pub cert: CertOnChain,
}

/// The certificates that a list of records holds, by identifier; a later record for the
/// same identifier takes the place of an earlier one.
pub open spec fn certs_view(s: Seq<CertRecord>) -> Map<Seq<u8>, CertOnChain>
    decreases s.len(),
{
    if s.len() == 0 {
        Map::empty()
    } else {
        certs_view(s.drop_last()).insert(s.last().id@, s.last().cert)
    }
}

/// No record of `s` has the identifier `k`.
pub open spec fn no_record(s: Seq<CertRecord>, k: Seq<u8>) -> bool {
    forall|j: int| 0 <= j < s.len() ==> (#[trigger] s[j]).id@ != k
}

/// `i` is the last record of `s` with the identifier `k`.
pub open spec fn last_record(s: Seq<CertRecord>, k: Seq<u8>, i: int) -> bool {
    &&& 0 <= i < s.len()
    &&& s[i].id@ == k
    &&& forall|j: int| i < j < s.len() ==> (#[trigger] s[j]).id@ != k
}

proof fn lemma_absent(s: Seq<CertRecord>, k: Seq<u8>)
    requires
        no_record(s, k),
    ensures
        !certs_view(s).contains_key(k),
    decreases s.len(),
{
    if s.len() > 0 {
        assert(s.drop_last().len() < s.len());
        assert forall|j: int| 0 <= j < s.drop_last().len() implies (#[trigger] s.drop_last()[j]).id@
            != k by {
            assert(s.drop_last()[j] == s[j]);
        }
        lemma_absent(s.drop_last(), k);
        assert(s.last() == s[s.len() - 1]);
    }
}

proof fn lemma_last(s: Seq<CertRecord>, k: Seq<u8>, i: int)
    requires
        last_record(s, k, i),
    ensures
        certs_view(s).contains_key(k),
        certs_view(s)[k] == s[i].cert,
    decreases s.len(),
{
    if i < s.len() - 1 {
        let t = s.drop_last();
        assert(s.last() == s[s.len() - 1]);
        assert forall|j: int| i < j < t.len() implies (#[trigger] t[j]).id@ != k by {
            assert(t[j] == s[j]);
        }
        assert(t[i] == s[i]);
        lemma_last(t, k, i);
    }
}

proof fn lemma_update(s: Seq<CertRecord>, k: Seq<u8>, i: int, r: CertRecord)
    requires
        last_record(s, k, i),
        r.id@ == k,
    ensures
        certs_view(s.update(i, r)) == certs_view(s).insert(k, r.cert),
    decreases s.len(),
{
    let u = s.update(i, r);
    if i == s.len() - 1 {
        assert(u.drop_last() =~= s.drop_last());
        assert(u.last() == r);
        assert(certs_view(u) == certs_view(s.drop_last()).insert(k, r.cert));
        assert(certs_view(s) == certs_view(s.drop_last()).insert(k, s.last().cert));
        assert(certs_view(u) =~= certs_view(s).insert(k, r.cert));
    } else {
        let t = s.drop_last();
        assert(s.last() == s[s.len() - 1]);
        assert forall|j: int| i < j < t.len() implies (#[trigger] t[j]).id@ != k by {
            assert(t[j] == s[j]);
        }
        assert(t[i] == s[i]);
        lemma_update(t, k, i, r);
        assert(u.drop_last() =~= t.update(i, r));
        assert(u.last() == s.last());
        assert(s.last().id@ != k);
        assert(certs_view(u) =~= certs_view(s).insert(k, r.cert));
    }
}

/// The registry's stored state.
pub struct CertificateRegistry {
    pub admin: Option<AccountId>,
    /// Authorized issuers; absent until the registry is initialized.
    pub issuers: Option<std::collections::HashMap<AccountId, bool>>,
    pub certificates: Vec<CertRecord>,
}

/// The lowercase hexadecimal digit of `n` (`n < 16`), as an ASCII byte.
pub open spec fn hex_digit(n: int) -> u8 {
    if n < 10 {
        (48 + n) as u8
    } else {
        (87 + n) as u8
    }
}

/// The lowercase hexadecimal spelling of `bytes`: two digits per byte, high nibble first.
pub open spec fn hex_of(bytes: Seq<u8>) -> Seq<u8> {
    Seq::new(
        2 * bytes.len(),
        |i: int|
            if i % 2 == 0 {
                hex_digit(bytes[i / 2] as int / 16)
            } else {
                hex_digit(bytes[i / 2] as int % 16)
            },
    )
}

fn hex_digit_of(n: u8) -> (d: u8)
    requires
        n < 16,
    ensures
        d == hex_digit(n as int),
{
    if n < 10 {
        48 + n
    } else {
        87 + n
    }
}

/// Spells a 32-byte identifier in lowercase hexadecimal.
pub fn bytes32_to_string(bytes: &[u8; 32]) -> (s: Text)
    ensures
        s@ == hex_of(bytes@),
{
    let mut buf: Vec<u8> = Vec::new();
    let mut i: usize = 0;
    while i < 32
        invariant
            i <= 32,
            bytes@.len() == 32,
            buf@.len() == 2 * i,
            forall|j: int| 0 <= j < 2 * i ==> buf@[j] == hex_of(bytes@)[j],
        decreases 32 - i,
    {
        let byte = bytes[i];
        assert(byte >> 4u8 == byte / 16 && byte & 0xfu8 == byte % 16) by (bit_vector);
        let high = byte >> 4u8;
        let low = byte & 0xfu8;
        buf.push(hex_digit_of(high));
        buf.push(hex_digit_of(low));
        assert(buf@[2 * i as int] == hex_of(bytes@)[2 * i as int]);
        assert(buf@[2 * i + 1] == hex_of(bytes@)[2 * i + 1]);
        i = i + 1;
    }
    assert(buf@ =~= hex_of(bytes@));
    buf
}

impl CertificateRegistry {
    /// The authorized issuers: none until the map is written.
    pub open spec fn issuer_map(&self) -> Map<AccountId, bool> {
        match self.issuers {
            Some(m) => m@,
            None => Map::empty(),
        }
    }

    /// Whether `issuer` is authorized.
    pub open spec fn authorized(&self, issuer: AccountId) -> bool {
        self.issuer_map().contains_key(issuer) && self.issuer_map()[issuer]
    }

    /// The stored certificates by identifier.
    pub open spec fn certs(&self) -> Map<Seq<u8>, CertOnChain> {
        certs_view(self.certificates@)
    }

    /// A registry whose storage holds nothing yet.
    pub fn new() -> (r: CertificateRegistry)
        ensures
            r.admin is None,
            r.issuers is None,
            r.certs() == Map::<Seq<u8>, CertOnChain>::empty(),
    {
        let r = CertificateRegistry { admin: None, issuers: None, certificates: Vec::new() };
        assert(r.certificates@.len() == 0);
        r
    }

    fn find(&self, id: &Text) -> (r: Option<usize>)
        ensures
            match r {
                Some(i) => last_record(self.certificates@, id@, i as int),
                None => no_record(self.certificates@, id@),
            },
    {
        let mut i = self.certificates.len();
        while i > 0
            invariant
                i <= self.certificates@.len(),
                forall|j: int| i <= j < self.certificates@.len() ==> (
                #[trigger] self.certificates@[j]).id@ != id@,
            decreases i,
        {
            i = i - 1;
            if texts_equal(&self.certificates[i].id, id) {
                return Some(i);
            }
        }
        None
    }

    fn lookup(&self, id: &Text) -> (r: Option<usize>)
        ensures
            match r {
                Some(i) => i < self.certificates@.len() && self.certs().contains_key(id@)
                    && self.certs()[id@] == self.certificates@[i as int].cert,
                None => !self.certs().contains_key(id@),
            },
    {
        let r = self.find(id);
        proof {
            match r {
                Some(i) => lemma_last(self.certificates@, id@, i as int),
                None => lemma_absent(self.certificates@, id@),
            }
        }
        r
    }

    fn is_issuer(&self, issuer: AccountId) -> (b: bool)
        ensures
            b == self.authorized(issuer),
    {
        match &self.issuers {
            Some(m) => match m.get(&issuer) {
                Some(v) => *v,
                None => false,
            },
            None => false,
        }
    }

    /// Sets the admin, who becomes the only authorized issuer.
    pub fn initialize(&mut self, admin: AccountId) -> (res: Result<(), CertError>)
        ensures
            old(self).admin is Some ==> res == Err::<(), CertError>(CertError::AlreadyInitialized)
                && *final(self) == *old(self),
            old(self).admin is None ==> {
                &&& res == Ok::<(), CertError>(())
                &&& final(self).admin == Some(admin)
                &&& final(self).issuers is Some
                &&& final(self).issuer_map() == Map::<AccountId, bool>::empty().insert(admin, true)
                &&& final(self).certificates == old(self).certificates
            },
    {
        if self.admin.is_some() {
            return Err(CertError::AlreadyInitialized);
        }
        self.admin = Some(admin);
        let mut issuers: std::collections::HashMap<AccountId, bool> =
            std::collections::HashMap::new();
        issuers.insert(admin, true);
        self.issuers = Some(issuers);
        Ok(())
    }

    /// The certificate that a registration stores.
    pub open spec fn registered(data: CertData) -> CertOnChain {
        CertOnChain {
            holder: data.holder,
            counterparty: data.counterparty,
            issue_date: data.issue_date,
            expiry_date: data.expiry_date,
            revoked: false,
            revocation_reason: None,
            imprint: data.imprint_text,
        }
    }

    /// The first check that a registration fails.
    pub open spec fn register_error(&self, issuer: AccountId, certificate_id: Seq<u8>, data: CertData, now: u64) -> Option<
        CertError,
    > {
        if self.issuers is None {
            Some(CertError::IssuersNotSet)
        } else if !self.authorized(issuer) {
            Some(CertError::UnauthorizedIssuer)
        } else if self.certs().contains_key(certificate_id) {
            Some(CertError::AlreadyExists)
        } else if data.success_rate > 100 {
            Some(CertError::InvalidSuccessRate)
        } else if data.issue_date > now {
            Some(CertError::IssueDateInFuture)
        } else if data.expiry_date <= data.issue_date {
            Some(CertError::ExpiryBeforeIssue)
        } else if now + MAX_EXPIRY_YEARS * SECONDS_IN_YEAR > u64::MAX {
            Some(CertError::Overflow)
        } else if data.expiry_date > now + MAX_EXPIRY_YEARS * SECONDS_IN_YEAR {
            Some(CertError::ExpiryTooFar)
        } else {
            None
        }
    }

    /// An authorized issuer registers a certificate under a new identifier.
    pub fn register_certificate(
        &mut self,
        issuer: AccountId,
        certificate_id: Text,
        data: CertData,
        now: u64,
    ) -> (res: Result<bool, CertError>)
        ensures
            match old(self).register_error(issuer, certificate_id@, data, now) {
                Some(e) => res == Err::<bool, CertError>(e) && *final(self) == *old(self),
                None => {
                    &&& res == Ok::<bool, CertError>(true)
                    &&& final(self).certs() == old(self).certs().insert(
                        certificate_id@,
                        Self::registered(data),
                    )
                    &&& final(self).admin == old(self).admin
                    &&& final(self).issuers == old(self).issuers
                },
            },
    {
        if self.issuers.is_none() {
            return Err(CertError::IssuersNotSet);
        }
        if !self.is_issuer(issuer) {
            return Err(CertError::UnauthorizedIssuer);
        }
        if self.lookup(&certificate_id).is_some() {
            return Err(CertError::AlreadyExists);
        }
        if data.success_rate > 100 {
            return Err(CertError::InvalidSuccessRate);
        }
        if data.issue_date > now {
            return Err(CertError::IssueDateInFuture);
        }
        if data.expiry_date <= data.issue_date {
            return Err(CertError::ExpiryBeforeIssue);
        }
        let latest = match now.checked_add(MAX_EXPIRY_YEARS * SECONDS_IN_YEAR) {
            Some(x) => x,
            None => {
                return Err(CertError::Overflow);
            },
        };
        if data.expiry_date > latest {
            return Err(CertError::ExpiryTooFar);
        }
        let cert = CertOnChain {
            holder: data.holder,
            counterparty: data.counterparty,
            issue_date: data.issue_date,
            expiry_date: data.expiry_date,
            revoked: false,
            revocation_reason: None,
            imprint: data.imprint_text,
        };
        let ghost before = self.certificates@;
        self.certificates.push(CertRecord { id: certificate_id, cert });
        proof {
            assert(self.certificates@.drop_last() =~= before);
        }
        Ok(true)
    }

    /// The first check that issuing a certificate for a completed contract fails.
    pub open spec fn issue_error(&self, issuer: AccountId, certificate_id: Seq<u8>, now: u64) -> Option<
        CertError,
    > {
        if self.issuers is None {
            Some(CertError::IssuersNotSet)
        } else if !self.authorized(issuer) {
            Some(CertError::UnauthorizedIssuer)
        } else if self.certs().contains_key(hex_of(certificate_id)) {
            Some(CertError::AlreadyExists)
        } else if now + ISSUED_VALIDITY_YEARS * SECONDS_IN_YEAR > u64::MAX {
            Some(CertError::Overflow)
        } else {
            None
        }
    }

    /// An authorized issuer (the escrow contract) issues a certificate for a completed
    /// contract. It is stored under the hexadecimal spelling of `certificate_id`, issued now
    /// and valid for the issued validity period.
    pub fn issue_certificate(
        &mut self,
        issuer: AccountId,
        certificate_id: &[u8; 32],
        holder: AccountId,
        counterparty: AccountId,
        imprint_text: Text,
        now: u64,
    ) -> (res: Result<bool, CertError>)
        ensures
            match old(self).issue_error(issuer, certificate_id@, now) {
                Some(e) => res == Err::<bool, CertError>(e) && *final(self) == *old(self),
                None => {
                    &&& res == Ok::<bool, CertError>(true)
                    &&& final(self).certs() == old(self).certs().insert(
                        hex_of(certificate_id@),
                        CertOnChain {
                            holder,
                            counterparty,
                            issue_date: now,
                            expiry_date: (now + ISSUED_VALIDITY_YEARS * SECONDS_IN_YEAR) as u64,
                            revoked: false,
                            revocation_reason: None,
                            imprint: imprint_text,
                        },
                    )
                    &&& final(self).admin == old(self).admin
                    &&& final(self).issuers == old(self).issuers
                },
            },
    {
        if self.issuers.is_none() {
            return Err(CertError::IssuersNotSet);
        }
        if !self.is_issuer(issuer) {
            return Err(CertError::UnauthorizedIssuer);
        }
        let id = bytes32_to_string(certificate_id);
        if self.lookup(&id).is_some() {
            return Err(CertError::AlreadyExists);
        }
        let expiry = match now.checked_add(ISSUED_VALIDITY_YEARS * SECONDS_IN_YEAR) {
            Some(x) => x,
            None => {
                return Err(CertError::Overflow);
            },
        };
        let cert = CertOnChain {
            holder,
            counterparty,
            issue_date: now,
            expiry_date: expiry,
            revoked: false,
            revocation_reason: None,
            imprint: imprint_text,
        };
        let ghost before = self.certificates@;
        self.certificates.push(CertRecord { id, cert });
        proof {
            assert(self.certificates@.drop_last() =~= before);
        }
        Ok(true)
    }

    /// Whether `issuer` may issue certificates.
    pub fn is_authorized_issuer(&self, issuer: AccountId) -> (b: bool)
        ensures
            b == self.authorized(issuer),
    {
        self.is_issuer(issuer)
    }

    /// The first check that a revocation fails.
    pub open spec fn revoke_error(&self, certificate_id: Seq<u8>, reason: Seq<u8>) -> Option<
        CertError,
    > {
        if self.admin is None {
            Some(CertError::NotInitialized)
        } else if reason.len() == 0 {
            Some(CertError::ReasonRequired)
        } else if !self.certs().contains_key(certificate_id) {
            Some(CertError::NotFound)
        } else if self.certs()[certificate_id].revoked {
            Some(CertError::AlreadyRevoked)
        } else {
            None
        }
    }

    /// The admin revokes a certificate, recording why.
    pub fn revoke_certificate(&mut self, certificate_id: &Text, reason: Text) -> (res: Result<
        (),
        CertError,
    >)
        ensures
            match old(self).revoke_error(certificate_id@, reason@) {
                Some(e) => res == Err::<(), CertError>(e) && *final(self) == *old(self),
                None => {
                    let c = old(self).certs()[certificate_id@];
                    &&& res == Ok::<(), CertError>(())
                    &&& final(self).certs().dom() == old(self).certs().dom()
                    &&& final(self).certs() == old(self).certs().insert(
                        certificate_id@,
                        CertOnChain { revoked: true, revocation_reason: Some(reason), ..c },
                    )
                    &&& final(self).admin == old(self).admin
                    &&& final(self).issuers == old(self).issuers
                },
            },
    {
        if self.admin.is_none() {
            return Err(CertError::NotInitialized);
        }
        if reason.len() == 0 {
            return Err(CertError::ReasonRequired);
        }
        let i = match self.find(certificate_id) {
            Some(i) => i,
            None => {
                proof {
                    lemma_absent(self.certificates@, certificate_id@);
                }
                return Err(CertError::NotFound);
            },
        };
        proof {
            lemma_last(self.certificates@, certificate_id@, i as int);
        }
        if self.certificates[i].cert.revoked {
            return Err(CertError::AlreadyRevoked);
        }
        let ghost before = self.certificates@;
        let record = self.certificates.remove(i);
        let CertRecord { id, cert } = record;
        let updated = CertRecord {
            id,
            cert: CertOnChain { revoked: true, revocation_reason: Some(reason), ..cert },
        };
        let ghost r = updated;
        self.certificates.insert(i, updated);
        proof {
            assert(self.certificates@ =~= before.update(i as int, r));
            lemma_update(before, certificate_id@, i as int, r);
        }
        Ok(())
    }

    /// Whether a certificate holds at time `now` (it exists, is not revoked and has not
    /// expired), together with the certificate when it exists.
    pub fn verify_certificate(&self, certificate_id: &Text, now: u64) -> (r: (bool, Option<&CertOnChain>))
        ensures
            self.certs().contains_key(certificate_id@) ==> {
                let c = self.certs()[certificate_id@];
                &&& r.1 == Some(&c)
                &&& r.0 == (!c.revoked && now <= c.expiry_date)
            },
            !self.certs().contains_key(certificate_id@) ==> r.0 == false && r.1 is None,
    {
        match self.lookup(certificate_id) {
            Some(i) => {
                let c = &self.certificates[i].cert;
                (!c.revoked && now <= c.expiry_date, Some(c))
            },
            None => (false, None),
        }
    }

    /// The admin authorizes another issuer.
    pub fn add_issuer(&mut self, new_issuer: AccountId) -> (res: Result<(), CertError>)
        ensures
            old(self).admin is None ==> res == Err::<(), CertError>(CertError::NotInitialized)
                && *final(self) == *old(self),
            old(self).admin is Some ==> {
                &&& res == Ok::<(), CertError>(())
                &&& final(self).issuers is Some
                &&& final(self).issuer_map() == old(self).issuer_map().insert(new_issuer, true)
                &&& final(self).admin == old(self).admin
                &&& final(self).certificates == old(self).certificates
            },
    {
        if self.admin.is_none() {
            return Err(CertError::NotInitialized);
        }
        let mut issuers = match self.issuers.take() {
            Some(m) => m,
            None => std::collections::HashMap::new(),
        };
        issuers.insert(new_issuer, true);
        self.issuers = Some(issuers);
        Ok(())
    }

    /// The admin withdraws an issuer's authorization.
    pub fn remove_issuer(&mut self, issuer_to_remove: AccountId) -> (res: Result<(), CertError>)
        ensures
            old(self).admin is None ==> res == Err::<(), CertError>(CertError::NotInitialized)
                && *final(self) == *old(self),
            old(self).admin is Some ==> {
                &&& res == Ok::<(), CertError>(())
                &&& final(self).issuers is Some
                &&& final(self).issuer_map() == old(self).issuer_map().remove(issuer_to_remove)
                &&& final(self).admin == old(self).admin
                &&& final(self).certificates == old(self).certificates
            },
    {
        if self.admin.is_none() {
            return Err(CertError::NotInitialized);
        }
        let mut issuers = match self.issuers.take() {
            Some(m) => m,
            None => std::collections::HashMap::new(),
        };
        issuers.remove(&issuer_to_remove);
        self.issuers = Some(issuers);
        Ok(())
    }

    /// The admin hands over the admin role; the new admin replaces the old one as issuer.
    pub fn transfer_admin(&mut self, new_admin: AccountId) -> (res: Result<(), CertError>)
        ensures
            old(self).admin is None ==> res == Err::<(), CertError>(CertError::NotInitialized)
                && *final(self) == *old(self),
            old(self).admin is Some ==> {
                &&& res == Ok::<(), CertError>(())
                &&& final(self).admin == Some(new_admin)
                &&& final(self).issuers is Some
                &&& final(self).issuer_map() == old(self).issuer_map().remove(
                    old(self).admin.unwrap(),
                ).insert(new_admin, true)
                &&& final(self).certificates == old(self).certificates
            },
    {
        let admin = match self.admin {
            Some(a) => a,
            None => {
                return Err(CertError::NotInitialized);
            },
        };
        let mut issuers = match self.issuers.take() {
            Some(m) => m,
            None => std::collections::HashMap::new(),
        };
        issuers.remove(&admin);
        issuers.insert(new_admin, true);
        self.issuers = Some(issuers);
        self.admin = Some(new_admin);
        Ok(())
    }

    /// The admin, once set.
    pub fn get_admin(&self) -> (r: Option<AccountId>)
        ensures
            r == self.admin,
    {
        self.admin
    }
}

/// Distinct identifiers have distinct hexadecimal spellings, so issued certificates never
/// collide unless their identifiers do.
pub proof fn law_hex_injective(a: Seq<u8>, b: Seq<u8>)
    requires
        a.len() == b.len(),
        hex_of(a) == hex_of(b),
    ensures
        a == b,
{
    assert forall|i: int| 0 <= i < a.len() implies a[i] == b[i] by {
        assert((2 * i) / 2 == i && (2 * i) % 2 == 0);
        assert((2 * i + 1) / 2 == i && (2 * i + 1) % 2 == 1);
        assert(hex_of(a)[2 * i] == hex_digit(a[i] as int / 16));
        assert(hex_of(b)[2 * i] == hex_digit(b[i] as int / 16));
        assert(hex_of(a)[2 * i + 1] == hex_digit(a[i] as int % 16));
        assert(hex_of(b)[2 * i + 1] == hex_digit(b[i] as int % 16));
        lemma_hex_digit_injective(a[i] as int / 16, b[i] as int / 16);
        lemma_hex_digit_injective(a[i] as int % 16, b[i] as int % 16);
        assert(a[i] as int == (a[i] as int / 16) * 16 + a[i] as int % 16);
        assert(b[i] as int == (b[i] as int / 16) * 16 + b[i] as int % 16);
    }
    assert(a =~= b);
}

proof fn lemma_hex_digit_injective(x: int, y: int)
    requires
        0 <= x < 16,
        0 <= y < 16,
        hex_digit(x) == hex_digit(y),
    ensures
        x == y,
{
}

/// A stored certificate is never replaced: registering or issuing under its identifier is
/// refused, and once revoked it stays revoked, so it never verifies again.
pub proof fn law_certificates_are_permanent(
    r: CertificateRegistry,
    id: Seq<u8>,
    issuer: AccountId,
    data: CertData,
    reason: Seq<u8>,
    now: u64,
)
    requires
        r.certs().contains_key(id),
    ensures
        r.register_error(issuer, id, data, now) is Some,
        r.certs()[id].revoked && r.admin is Some && reason.len() > 0 ==> r.revoke_error(id, reason)
            == Some(CertError::AlreadyRevoked),
{
}

/// A certificate issued for a completed contract is stored under the hexadecimal spelling of
/// its identifier and holds for the whole validity period, starting now.
pub proof fn law_issued_certificate_holds(
    r: CertificateRegistry,
    r2: CertificateRegistry,
    issuer: AccountId,
    certificate_id: Seq<u8>,
    holder: AccountId,
    counterparty: AccountId,
    imprint_text: Text,
    now: u64,
    later: u64,
)
    requires
        r.issue_error(issuer, certificate_id, now) is None,
        r2.certs() == r.certs().insert(
            hex_of(certificate_id),
            CertOnChain {
                holder,
                counterparty,
                issue_date: now,
                expiry_date: (now + ISSUED_VALIDITY_YEARS * SECONDS_IN_YEAR) as u64,
                revoked: false,
                revocation_reason: None,
                imprint: imprint_text,
            },
        ),
        now <= later <= now + ISSUED_VALIDITY_YEARS * SECONDS_IN_YEAR,
    ensures
        r2.certs().contains_key(hex_of(certificate_id)),
        !r2.certs()[hex_of(certificate_id)].revoked && later
            <= r2.certs()[hex_of(certificate_id)].expiry_date,
{
}

} // verus!
