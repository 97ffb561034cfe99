//! Destination keys for the per-destination sub-client cache, and the rule
//! that keeps a failed sub-client out of it.
use vstd::prelude::*;
use vstd::string::*;

verus! {

/// Number of `'.'` characters in `s`.
pub open spec fn dot_count(s: Seq<char>) -> nat
    decreases s.len(),
{
    if s.len() == 0 {
        0
    } else {
        (if s[0] == '.' { 1nat } else { 0nat }) + dot_count(s.subrange(1, s.len() as int))
    }
}

/// The last two dot-separated labels of `s`: its longest suffix that holds
/// at most one dot.
pub open spec fn last_two_levels(s: Seq<char>) -> Seq<char>
    decreases s.len(),
{
    if s.len() == 0 || dot_count(s) <= 1 {
        s
    } else {
        last_two_levels(s.subrange(1, s.len() as int))
    }
}

/// The cache key of a destination host: an IP literal keys itself, a DNS
/// name is keyed by its last two labels.
pub open spec fn key_of(host: Seq<char>, ip_literal: bool) -> Seq<char> {
    if ip_literal {
        host
    } else {
        last_two_levels(host)
    }
}

proof fn lemma_dot_count_step(s: Seq<char>, i: int)
    requires
        0 <= i < s.len(),
    ensures
        dot_count(s.subrange(i, s.len() as int)) == (if s[i] == '.' { 1nat } else { 0nat })
            + dot_count(s.subrange(i + 1, s.len() as int)),
{
    let t = s.subrange(i, s.len() as int);
    assert(t.subrange(1, t.len() as int) =~= s.subrange(i + 1, s.len() as int));
}

proof fn lemma_dot_count_suffix(s: Seq<char>, k: int)
    requires
        0 <= k <= s.len(),
    ensures
        dot_count(s.subrange(k, s.len() as int)) <= dot_count(s),
    decreases k,
{
    if k == 0 {
        assert(s.subrange(0, s.len() as int) =~= s);
    } else {
        let t = s.subrange(1, s.len() as int);
        lemma_dot_count_suffix(t, k - 1);
        assert(t.subrange(k - 1, t.len() as int) =~= s.subrange(k, s.len() as int));
    }
}

proof fn lemma_dot_count_concat(a: Seq<char>, b: Seq<char>)
    ensures
        dot_count(a + b) == dot_count(a) + dot_count(b),
    decreases a.len(),
{
    if a.len() > 0 {
        let ab = a + b;
        lemma_dot_count_concat(a.subrange(1, a.len() as int), b);
        assert(ab.subrange(1, ab.len() as int) =~= a.subrange(1, a.len() as int) + b);
    } else {
        assert(a + b =~= b);
    }
}

/// Dropping leading characters that still leave two dots behind does not
/// change the last two labels.
proof fn lemma_skip_prefix(s: Seq<char>, i: int)
    requires
        0 < i <= s.len(),
        dot_count(s.subrange(i - 1, s.len() as int)) >= 2,
    ensures
        last_two_levels(s) == last_two_levels(s.subrange(i, s.len() as int)),
    decreases i,
{
    lemma_dot_count_suffix(s, i - 1);
    let t = s.subrange(1, s.len() as int);
    if i > 1 {
        assert(t.subrange(i - 2, t.len() as int) =~= s.subrange(i - 1, s.len() as int));
        assert(t.subrange(i - 1, t.len() as int) =~= s.subrange(i, s.len() as int));
        lemma_skip_prefix(t, i - 1);
    }
}

/// The last two dot-separated labels of `domain`, in their order
/// (`a.b.example.com` gives `example.com`); a name with at most one dot is
/// returned whole.
pub fn dns_last_two_levels(domain: &str) -> (r: String)
    ensures
        r@ == last_two_levels(domain@),
{
    let n = domain.unicode_len();
    let mut i: usize = n;
    let mut dots: usize = 0;
    while i > 0
        invariant
            i <= n,
            n == domain@.len(),
            dots as nat == dot_count(domain@.subrange(i as int, n as int)),
            dots <= 1,
        decreases i,
    {
        let c = domain.get_char(i - 1);
        proof {
            lemma_dot_count_step(domain@, i - 1);
        }
        if c == '.' {
            if dots == 1 {
                proof {
                    lemma_skip_prefix(domain@, i as int);
                }
                let tail = domain.substring_char(i, n);
                return String::from_str(tail);
            }
            dots = 1;
        }
        i = i - 1;
    }
    proof {
        assert(domain@.subrange(0, n as int) =~= domain@);
    }
    String::from_str(domain)
}

/// The cache key under which the sub-client for `host` is kept;
/// `ip_literal` tells whether `host` is written as an IP address.
pub fn destination_key(host: &str, ip_literal: bool) -> (r: String)
    ensures
        r@ == key_of(host@, ip_literal),
{
    if ip_literal {
        String::from_str(host)
    } else {
        dns_last_two_levels(host)
    }
}

/// A name with at most one dot is its own key, as is an IP literal.
pub proof fn lemma_registrable_name_keys_itself(host: Seq<char>, ip_literal: bool)
    requires
        ip_literal || dot_count(host) <= 1,
    ensures
        key_of(host, ip_literal) == host,
{
}

/// Every subdomain of a DNS name that has a dot shares that name's key:
/// `key(p.d) == key(d)`.
pub proof fn lemma_subdomain_shares_key(prefix: Seq<char>, domain: Seq<char>)
    requires
        dot_count(domain) >= 1,
    ensures
        key_of(prefix + seq!['.'] + domain, false) == key_of(domain, false),
    decreases prefix.len(),
{
    let s = prefix + seq!['.'] + domain;
    lemma_dot_count_concat(prefix + seq!['.'], domain);
    lemma_dot_count_concat(prefix, seq!['.']);
    assert(dot_count(seq!['.']) == 1) by {
        let dot = seq!['.'];
        assert(dot[0] == '.');
        assert(dot_count(dot.subrange(1, 1)) == 0);
    }
    assert(s.len() > 0);
    if prefix.len() == 0 {
        assert(s.subrange(1, s.len() as int) =~= domain);
    } else {
        let p = prefix.subrange(1, prefix.len() as int);
        assert(s.subrange(1, s.len() as int) =~= p + seq!['.'] + domain);
        lemma_subdomain_shares_key(p, domain);
    }
}

/// What a failed or successful stream attempt does to the sub-client cache.
#[derive(Debug, PartialEq, Eq)]
pub enum CacheAction {
    /// The cached sub-client stays.
    Keep,
    /// The entry under this key is invalidated.
    Invalidate(String),
}

/// A stream attempt to one host: the cache key it uses and what becomes of
/// that key once the attempt is over.
pub struct ConnectPlan {
    pub key: String,
}

impl ConnectPlan {
    /// Plans an attempt to `host`.
    pub fn new(host: &str, ip_literal: bool) -> (r: ConnectPlan)
        ensures
            r.key@ == key_of(host@, ip_literal),
    {
        ConnectPlan { key: destination_key(host, ip_literal) }
    }

    /// A failed attempt evicts its key, so that the next attempt derives a
    /// fresh sub-client; a successful one keeps it.
    pub fn on_outcome(self, connected: bool) -> (r: CacheAction)
        ensures
            connected ==> r == CacheAction::Keep,
            !connected ==> (r matches CacheAction::Invalidate(k) && k@ == self.key@),
    {
        if connected {
            CacheAction::Keep
        } else {
            CacheAction::Invalidate(self.key)
        }
    }
}

} // verus!
