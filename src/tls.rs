use vstd::prelude::*;
use vstd::string::StringSliceAdditionalSpecFns;
use vstd::utf8::encode_utf8;

verus! {

/// The newest certificate installed for `host` among `entries`, if any.
pub open spec fn find_cert(entries: Seq<(String, Vec<u8>)>, host: Seq<char>) -> Option<Seq<u8>>
    decreases entries.len(),
{
    if entries.len() == 0 {
        None
    } else if entries.last().0@ == host {
        Some(entries.last().1@)
    } else {
        find_cert(entries.drop_last(), host)
    }
}

/// `i` is the position of the first dot of `s`.
pub open spec fn is_first_dot(s: Seq<char>, i: int) -> bool {
    0 <= i < s.len() && s[i] == '.' && forall|j: int| 0 <= j < i ==> s[j] != '.'
}

/// The wildcard name that covers `s`: `*` followed by everything from the
/// first dot of `s` on (`*.example.com` for `api.example.com`).
pub open spec fn wildcard_parent(s: Seq<char>) -> Option<Seq<char>> {
    if exists|i: int| is_first_dot(s, i) {
        let i = choose|i: int| is_first_dot(s, i);
        Some(seq!['*'] + s.subrange(i, s.len() as int))
    } else {
        None
    }
}

/// Certificates by server name: PEM chain and private key of each name, and a
/// default one.
#[derive(Debug)]
pub struct CertResolver {
    entries: Vec<(String, Vec<u8>)>,
    default: Option<Vec<u8>>,
}

impl CertResolver {
    /// The certificate installed for `host`, if any.
    pub closed spec fn cert_for(&self, host: Seq<char>) -> Option<Seq<u8>> {
        find_cert(self.entries@, host)
    }

    pub closed spec fn default_cert(&self) -> Option<Seq<u8>> {
        match self.default {
            Some(d) => Some(d@),
            None => None,
        }
    }

    /// What `resolve` gives for `sni`.
    /// The one installed for that very name, else the one of its wildcard
    /// parent, else the default.
    pub open spec fn resolve_spec(&self, sni: Seq<char>) -> Option<Seq<u8>> {
        match self.cert_for(sni) {
            Some(c) => Some(c),
            None => match wildcard_parent(sni) {
                Some(w) => match self.cert_for(w) {
                    Some(c) => Some(c),
                    None => self.default_cert(),
                },
                None => self.default_cert(),
            },
        }
    }

    /// A resolver without any certificate.
    pub fn new() -> (r: CertResolver)
        ensures
            forall|h: Seq<char>| r.cert_for(h) is None,
            r.default_cert() is None,
    {
        CertResolver { entries: Vec::new(), default: None }
    }

    /// Installs `pem` (chain followed by private key) for `host`; it replaces
    /// what was installed for that name before.
    pub fn serve_pem(&mut self, host: &str, pem: Vec<u8>)
        ensures
            final(self).cert_for(host@) == Some(pem@),
            final(self).resolve_spec(host@) == Some(pem@),
            forall|h: Seq<char>| h != host@ ==> final(self).cert_for(h) == old(self).cert_for(h),
            final(self).default_cert() == old(self).default_cert(),
    {
        let ghost before = self.entries@;
        self.entries.push((String::from_str(host), pem));
        assert(self.entries@.drop_last() == before);
    }

    /// Sets the certificate presented when no installed name matches.
    pub fn serve_default(&mut self, pem: Vec<u8>)
        ensures
            final(self).default_cert() == Some(pem@),
            forall|h: Seq<char>| final(self).cert_for(h) == old(self).cert_for(h),
    {
        self.default = Some(pem);
    }

    /// The newest certificate installed for exactly `host`.
    fn find(&self, host: &String) -> (r: Option<&Vec<u8>>)
        ensures
            match r {
                Some(c) => self.cert_for(host@) == Some(c@),
                None => self.cert_for(host@) is None,
            },
    {
        let mut j: usize = self.entries.len();
        assert(self.entries@.subrange(0, j as int) == self.entries@);
        while j > 0
            invariant
                j <= self.entries@.len(),
                find_cert(self.entries@, host@) == find_cert(
                    self.entries@.subrange(0, j as int),
                    host@,
                ),
            decreases j,
        {
            let ghost pre = self.entries@.subrange(0, j as int);
            assert(pre.drop_last() == self.entries@.subrange(0, j - 1));
            if self.entries[j - 1].0 == *host {
                return Some(&self.entries[j - 1].1);
            }
            j = j - 1;
        }
        None
    }

    /// The certificate to present for `sni`: exact name, then wildcard
    /// parent, then the default.
    pub fn resolve(&self, sni: &str) -> (r: Option<Vec<u8>>)
        ensures
            match r {
                Some(c) => self.resolve_spec(sni@) == Some(c@),
                None => self.resolve_spec(sni@) is None,
            },
    {
        let exact = String::from_str(sni);
        if let Some(c) = self.find(&exact) {
            return Some(c.clone());
        }
        match wildcard_name(sni) {
            Some(w) => {
                if let Some(c) = self.find(&w) {
                    return Some(c.clone());
                }
            },
            None => {},
        }
        match &self.default {
            Some(d) => Some(d.clone()),
            None => None,
        }
    }
}

/// The wildcard name that covers `s`, if `s` has a dot.
pub fn wildcard_name(s: &str) -> (r: Option<String>)
    ensures
        match r {
            Some(w) => wildcard_parent(s@) == Some(w@),
            None => wildcard_parent(s@) is None,
        },
{
    let n = s.unicode_len();
    let mut i: usize = 0;
    while i < n
        invariant
            n == s@.len(),
            i <= n,
            forall|j: int| 0 <= j < i ==> s@[j] != '.',
        decreases n - i,
    {
        if s.get_char(i) == '.' {
            let mut w = String::from_str("*");
            w.append(s.substring_char(i, n));
            proof {
                reveal_strlit("*");
                assert(is_first_dot(s@, i as int));
                let k = choose|k: int| is_first_dot(s@, k);
                assert(k == i);
            }
            return Some(w);
        }
        i = i + 1;
    }
    None
}

/// The bytes of a PEM bundle: the certificate chain followed by the private
/// key.
pub fn pem_bundle(chain: &str, private_key: &str) -> (r: Vec<u8>)
    ensures
        r@ == chain.spec_bytes() + private_key.spec_bytes(),
{
    let mut buf: Vec<u8> = Vec::new();
    push_bytes(&mut buf, chain.as_bytes());
    push_bytes(&mut buf, private_key.as_bytes());
    buf
}

fn push_bytes(buf: &mut Vec<u8>, b: &[u8])
    ensures
        final(buf)@ == old(buf)@ + b@,
{
    let mut i: usize = 0;
    while i < b.len()
        invariant
            i <= b@.len(),
            buf@ == old(buf)@ + b@.subrange(0, i as int),
        decreases b@.len() - i,
    {
        buf.push(b[i]);
        i = i + 1;
        assert(buf@ == old(buf)@ + b@.subrange(0, i as int));
    }
    assert(b@.subrange(0, b@.len() as int) == b@);
}

/// The ACME challenge used to prove control of a name.
#[derive(Clone, Copy, Debug, PartialEq, Eq, Structural)]
pub enum Challenge {
    Dns01,
    Http01,
}

/// Whether `id` is a wildcard identifier (it starts with `*.`).
pub open spec fn is_wildcard(id: Seq<char>) -> bool {
    id.len() >= 2 && id[0] == '*' && id[1] == '.'
}

/// The challenge for an identifier: DNS-01, the only one that wildcard
/// identifiers admit, for those; HTTP-01 for the others.
pub fn challenge_for(identifier: &str) -> (r: Challenge)
    ensures
        r == (if is_wildcard(identifier@) { Challenge::Dns01 } else { Challenge::Http01 }),
{
    let n = identifier.unicode_len();
    if n >= 2 && identifier.get_char(0) == '*' && identifier.get_char(1) == '.' {
        Challenge::Dns01
    } else {
        Challenge::Http01
    }
}

/// The identifier of the certificate for every name under `fqdn`.
pub fn wildcard_identifier(fqdn: &str) -> (r: String)
    ensures
        r@ == seq!['*', '.'] + fqdn@,
        is_wildcard(r@),
{
    let mut r = String::from_str("*.");
    proof {
        reveal_strlit("*.");
    }
    r.append(fqdn);
    r
}

/// How the gateway gets the certificate for its own names.
#[derive(Clone, Copy, Debug, PartialEq, Eq, Structural)]
pub enum CertPlan {
    /// Use the valid certificate stored on disk.
    UseCached,
    /// Issue a wildcard certificate with the stored ACME account.
    Issue,
    /// No valid certificate and no ACME account: startup cannot go on.
    MissingCredentials,
}

/// Chooses how to obtain the gateway's own certificate.
pub fn plan_certificate(cached_valid: bool, credentials_present: bool) -> (r: CertPlan)
    ensures
        cached_valid ==> r == CertPlan::UseCached,
        !cached_valid && credentials_present ==> r == CertPlan::Issue,
        !cached_valid && !credentials_present ==> r == CertPlan::MissingCredentials,
{
    if cached_valid {
        CertPlan::UseCached
    } else if credentials_present {
        CertPlan::Issue
    } else {
        CertPlan::MissingCredentials
    }
}

/// A name with a certificate installed for it resolves to that very
/// certificate, whatever wildcard or default is installed too.
pub proof fn lemma_installed_name_resolves(r: CertResolver, host: Seq<char>, pem: Seq<u8>)
    requires
        r.cert_for(host) == Some(pem),
    ensures
        r.resolve_spec(host) == Some(pem),
{
}

/// A custom domain of a project, with the certificate it is served with.
#[derive(Clone, Debug, PartialEq, Eq)]
pub struct CustomDomain {
    pub fqdn: String,
    pub project_name: String,
    /// PEM-encoded certificate chain.
    pub certificate: String,
    /// PEM-encoded private key.
    pub private_key: String,
}

/// The PEM bundle a custom domain is served with.
pub open spec fn bundle_of(d: CustomDomain) -> Seq<u8> {
    encode_utf8(d.certificate@) + encode_utf8(d.private_key@)
}

/// The bundle of the last of `domains` named `host`, if any.
pub open spec fn last_domain_cert(domains: Seq<CustomDomain>, host: Seq<char>) -> Option<Seq<u8>>
    decreases domains.len(),
{
    if domains.len() == 0 {
        None
    } else if domains.last().fqdn@ == host {
        Some(bundle_of(domains.last()))
    } else {
        last_domain_cert(domains.drop_last(), host)
    }
}

impl CertResolver {
    /// Installs the certificate of each custom domain under its name; where
    /// a name comes more than once, the last one stays.
    pub fn serve_custom_domains(&mut self, domains: &Vec<CustomDomain>)
        ensures
            forall|h: Seq<char>|
                #![trigger final(self).cert_for(h)]
                final(self).cert_for(h) == match last_domain_cert(domains@, h) {
                    Some(c) => Some(c),
                    None => old(self).cert_for(h),
                },
            final(self).default_cert() == old(self).default_cert(),
    {
        let mut i: usize = 0;
        while i < domains.len()
            invariant
                i <= domains@.len(),
                self.default_cert() == old(self).default_cert(),
                forall|h: Seq<char>|
                    #![trigger self.cert_for(h)]
                    self.cert_for(h) == match last_domain_cert(domains@.subrange(0, i as int), h) {
                        Some(c) => Some(c),
                        None => old(self).cert_for(h),
                    },
            decreases domains@.len() - i,
        {
            let d = &domains[i];
            let pem = pem_bundle(d.certificate.as_str(), d.private_key.as_str());
            let ghost before = *self;
            self.serve_pem(d.fqdn.as_str(), pem);
            proof {
                let pre = domains@.subrange(0, i as int);
                let post = domains@.subrange(0, i + 1);
                assert(post.drop_last() == pre);
                assert(post.last() == domains@[i as int]);
                assert forall|h: Seq<char>| #![trigger self.cert_for(h)]
                    self.cert_for(h) == match last_domain_cert(post, h) {
                        Some(c) => Some(c),
                        None => old(self).cert_for(h),
                    } by {
                    if h == d.fqdn@ {
                    } else {
                        assert(self.cert_for(h) == before.cert_for(h));
                    }
                }
            }
            i = i + 1;
        }
        assert(domains@.subrange(0, domains@.len() as int) == domains@);
    }
}

} // verus!
