//! Discovery of inverters on the local network: the decisions taken on each mDNS answer.
//!
//! The mDNS browsing itself happens outside this library; each resolved service is handed
//! to [`Discovery::on_service_resolved`], which decides whether it is an inverter and
//! whether enough inverters have been found.
use vstd::prelude::*;

verus! {

/// The mDNS service type that SolarEdge inverters announce.
pub const SOLAREDGE_INVERTER_SERVICE_TYPE: &'static str = "_solaredge-modbus._tcp.local.";

/// Whether no text occurs twice in `s`.
pub open spec fn distinct_texts(s: Seq<String>) -> bool {
    forall|i: int, j: int| 0 <= i < j < s.len() ==> #[trigger] s[i]@ != #[trigger] s[j]@
}

/// An inverter found on the network.
#[derive(Debug, Clone, PartialEq, Eq)]
pub struct SolaredgeHostInfo {
    pub hostname: String,
    /// The inverter's IP addresses, in textual form, each once.
    pub addresses: Vec<String>,
    pub port: u16,
    pub modbus_id: u8,
}

impl SolaredgeHostInfo {
    /// The first IP address if available or hostname otherwise.
    pub open spec fn spec_address(&self) -> Seq<char> {
        if self.addresses@.len() > 0 {
            self.addresses@[0]@
        } else {
            self.hostname@
        }
    }

    /// Returns the first IP address if available or hostname otherwise.
    pub fn address(&self) -> (r: String)
        ensures
            r@ == self.spec_address(),
    {
        if self.addresses.len() > 0 {
            self.addresses[0].clone()
        } else {
            self.hostname.clone()
        }
    }
}

/// Whether every character is an ASCII decimal digit.
pub open spec fn all_decimal_digits(d: Seq<char>) -> bool {
    forall|i: int| 0 <= i < d.len() ==> '0' <= #[trigger] d[i] <= '9'
}

/// The number that a string of decimal digits spells.
pub open spec fn decimal_value(d: Seq<char>) -> int
    decreases d.len(),
{
    if d.len() == 0 {
        0
    } else {
        decimal_value(d.drop_last()) * 10 + (d.last() as int - '0' as int)
    }
}

/// What `str::parse::<u8>` gives: an optional `+`, then one or more decimal digits whose
/// value is at most 255.
pub open spec fn spec_parse_u8(s: Seq<char>) -> Option<u8> {
    let d = if s.len() > 0 && s[0] == '+' {
        s.drop_first()
    } else {
        s
    };
    if d.len() > 0 && all_decimal_digits(d) && decimal_value(d) <= 255 {
        Some(decimal_value(d) as u8)
    } else {
        None
    }
}

proof fn lemma_decimal_value_nonneg(d: Seq<char>)
    requires
        all_decimal_digits(d),
    ensures
        decimal_value(d) >= 0,
    decreases d.len(),
{
    if d.len() > 0 {
        assert(all_decimal_digits(d.drop_last())) by {
            assert forall|i: int| 0 <= i < d.drop_last().len() implies '0' <= #[trigger] d.drop_last()[i] <= '9' by {
                assert(d.drop_last()[i] == d[i]);
            }
        }
        lemma_decimal_value_nonneg(d.drop_last());
        assert('0' <= d[d.len() - 1] <= '9');
    }
}

/// A longer string of digits spells a number at least as large as any prefix.
proof fn lemma_decimal_value_prefix(d: Seq<char>, k: int)
    requires
        all_decimal_digits(d),
        0 <= k <= d.len(),
    ensures
        decimal_value(d.take(k)) <= decimal_value(d),
    decreases d.len(),
{
    if k < d.len() {
        let e = d.drop_last();
        assert(all_decimal_digits(e)) by {
            assert forall|i: int| 0 <= i < e.len() implies '0' <= #[trigger] e[i] <= '9' by {
                assert(e[i] == d[i]);
            }
        }
        lemma_decimal_value_prefix(e, k);
        assert(e.take(k) =~= d.take(k));
        lemma_decimal_value_nonneg(e);
        assert('0' <= d[d.len() - 1] <= '9');
    } else {
        assert(d.take(k) =~= d);
    }
}

/// Parses a decimal `u8` as `str::parse::<u8>` does.
pub fn parse_u8(s: &str) -> (r: Option<u8>)
    ensures
        r == spec_parse_u8(s@),
{
    let n = s.unicode_len();
    let start: usize = if n > 0 && s.get_char(0) == '+' {
        1
    } else {
        0
    };
    let ghost d = if s@.len() > 0 && s@[0] == '+' {
        s@.drop_first()
    } else {
        s@
    };
    assert(d =~= s@.subrange(start as int, n as int));
    if start == n {
        return None;
    }
    let mut acc: u32 = 0;
    let mut i: usize = start;
    while i < n
        invariant
            n == s@.len(),
            start <= i <= n,
            start < n,
            d == s@.subrange(start as int, n as int),
            d == (if s@.len() > 0 && s@[0] == '+' {
                s@.drop_first()
            } else {
                s@
            }),
            all_decimal_digits(d.take(i - start)),
            acc as int == decimal_value(d.take(i - start)),
            acc <= 255,
        decreases n - i,
    {
        let c = s.get_char(i);
        assert(c == d[i - start]);
        if !('0' <= c && c <= '9') {
            proof {
                assert(!all_decimal_digits(d));
            }
            return None;
        }
        let ghost prefix = d.take(i - start + 1);
        assert(prefix.drop_last() =~= d.take(i - start));
        assert(all_decimal_digits(prefix)) by {
            assert forall|j: int| 0 <= j < prefix.len() implies '0' <= #[trigger] prefix[j] <= '9' by {
                if j < prefix.len() - 1 {
                    assert(prefix[j] == d.take(i - start)[j]);
                }
            }
        }
        acc = acc * 10 + (c as u32 - '0' as u32);
        if acc > 255 {
            proof {
                if all_decimal_digits(d) {
                    lemma_decimal_value_prefix(d, i - start + 1);
                }
            }
            return None;
        }
        i = i + 1;
    }
    assert(d.take(n - start) =~= d);
    Some(acc as u8)
}

/// The Modbus unit id that a service's `MODBUS_ID` property announces, if it parses.
pub fn parse_modbus_id(property: Option<&str>) -> (r: Option<u8>)
    ensures
        r == (match property {
            Some(s) => spec_parse_u8(s@),
            None => None,
        }),
{
    match property {
        Some(s) => parse_u8(s),
        None => None,
    }
}

/// What discovery does after a resolved service.
#[derive(Clone, Copy, Debug, PartialEq, Eq, Structural)]
pub enum DiscoveryStep {
    /// The service was recorded; keep listening.
    Continue,
    /// The service was recorded and enough inverters have been found.
    Stop,
    /// The service's `MODBUS_ID` property was missing or not a number from 0 to 255; it
    /// was skipped.
    InvalidModbusId,
}

/// The inverters found so far, and how many are wanted.
pub struct Discovery {
    found: Vec<SolaredgeHostInfo>,
    max_hosts: usize,
}

impl Discovery {
    #[verifier::type_invariant]
    spec fn well_formed(self) -> bool {
        &&& self.found@.len() <= self.max_hosts
        &&& forall|i: int| 0 <= i < self.found@.len() ==> distinct_texts(#[trigger] self.found@[i].addresses@)
    }

    /// The inverters found so far.
    pub closed spec fn spec_found(self) -> Seq<SolaredgeHostInfo> {
        self.found@
    }

    /// How many inverters end the discovery.
    pub closed spec fn spec_limit(self) -> usize {
        self.max_hosts
    }

    /// Starts a discovery that stops after `max_hosts` inverters, or collects as many as
    /// possible when `max_hosts` is 0.
    pub fn new(max_hosts: usize) -> (r: Discovery)
        ensures
            r.spec_found() == Seq::<SolaredgeHostInfo>::empty(),
            r.spec_limit() == (if max_hosts == 0 {
                usize::MAX
            } else {
                max_hosts
            }),
    {
        let max_hosts = if max_hosts == 0 {
            usize::MAX
        } else {
            max_hosts
        };
        Discovery { found: Vec::new(), max_hosts }
    }

    /// Handles one resolved service: records it when its `MODBUS_ID` property parses as
    /// a `u8`, and says whether the wanted number of inverters has been reached.  The
    /// service's addresses are a set: none occurs twice.  Discovery ends at
    /// [`DiscoveryStep::Stop`]: no service is handled once the wanted number is reached.
    pub fn on_service_resolved(
        &mut self,
        hostname: String,
        addresses: Vec<String>,
        port: u16,
        modbus_id_property: Option<&str>,
    ) -> (r: DiscoveryStep)
        requires
            distinct_texts(addresses@),
            old(self).spec_found().len() < old(self).spec_limit(),
        ensures
            final(self).spec_limit() == old(self).spec_limit(),
            match parse_modbus_id_spec(modbus_id_property) {
                Some(id) => {
                    &&& final(self).spec_found() == old(self).spec_found().push(
                        SolaredgeHostInfo { hostname, addresses, port, modbus_id: id },
                    )
                    &&& r == (if final(self).spec_found().len() >= old(self).spec_limit() {
                        DiscoveryStep::Stop
                    } else {
                        DiscoveryStep::Continue
                    })
                },
                None => {
                    &&& final(self).spec_found() == old(self).spec_found()
                    &&& r == DiscoveryStep::InvalidModbusId
                },
            },
    {
        proof {
            use_type_invariant(&*self);
        }
        match parse_modbus_id(modbus_id_property) {
            Some(modbus_id) => {
                let mut found = Vec::new();
                std::mem::swap(&mut found, &mut self.found);
                found.push(SolaredgeHostInfo { hostname, addresses, port, modbus_id });
                self.found = found;
                if self.found.len() >= self.max_hosts {
                    DiscoveryStep::Stop
                } else {
                    DiscoveryStep::Continue
                }
            },
            None => DiscoveryStep::InvalidModbusId,
        }
    }

    /// Whether fewer inverters than wanted have been found, so that discovery goes on.
    pub fn wants_more(&self) -> (r: bool)
        ensures
            r == (self.spec_found().len() < self.spec_limit()),
    {
        self.found.len() < self.max_hosts
    }

    /// The inverters found, in the order they were announced, no more than wanted; none
    /// lists an address twice.
    pub fn into_hosts(self) -> (r: Vec<SolaredgeHostInfo>)
        ensures
            r@ == self.spec_found(),
            r@.len() <= self.spec_limit(),
            forall|i: int| 0 <= i < r@.len() ==> distinct_texts(#[trigger] r@[i].addresses@),
    {
        proof {
            use_type_invariant(&self);
        }
        self.found
    }
}

/// The Modbus unit id that a service's `MODBUS_ID` property announces, if it parses.
pub open spec fn parse_modbus_id_spec(property: Option<&str>) -> Option<u8> {
    match property {
        Some(s) => spec_parse_u8(s@),
        None => None,
    }
}

} // verus!
