use vstd::prelude::*;

verus! {

/// One route: requests whose path equals `path` go to `target_service`
/// on `target_port`.
#[derive(Clone, Debug)]
pub struct ServiceConfig {
    pub path: String,
    pub target_service: String,
    pub target_port: String,
}

/// The gateway's whole configuration; `services` is the routing table,
/// in declaration order.
#[derive(Clone, Debug)]
pub struct GatewayConfig {
    pub authorization_api_url: String,
    pub gateway_port: String,
    pub services: Vec<ServiceConfig>,
}

pub open spec fn is_digit(c: char) -> bool {
    '0' <= c && c <= '9'
}

/// The value of a string of decimal digits, most significant first.
pub open spec fn decimal_value(s: Seq<char>) -> int
    decreases s.len(),
{
    if s.len() == 0 {
        0
    } else {
        decimal_value(s.drop_last()) * 10 + (s.last() as int - '0' as int)
    }
}

/// `s` is a port number: one or more decimal digits, of value at most 65535.
pub open spec fn is_port_number(s: Seq<char>) -> bool {
    &&& s.len() > 0
    &&& forall|i: int| 0 <= i < s.len() ==> is_digit(#[trigger] s[i])
    &&& decimal_value(s) <= 65535
}

proof fn lemma_decimal_nonneg(s: Seq<char>)
    requires
        forall|i: int| 0 <= i < s.len() ==> is_digit(#[trigger] s[i]),
    ensures
        decimal_value(s) >= 0,
    decreases s.len(),
{
    if s.len() > 0 {
        lemma_decimal_nonneg(s.drop_last());
    }
}

/// Appending digits never lowers the value.
proof fn lemma_decimal_prefix_le(s: Seq<char>, k: int)
    requires
        0 <= k <= s.len(),
        forall|i: int| 0 <= i < s.len() ==> is_digit(#[trigger] s[i]),
    ensures
        decimal_value(s.subrange(0, k)) <= decimal_value(s),
    decreases s.len(),
{
    if k < s.len() {
        let t = s.drop_last();
        assert(s.subrange(0, k) =~= t.subrange(0, k));
        lemma_decimal_prefix_le(t, k);
        lemma_decimal_nonneg(t);
    } else {
        assert(s.subrange(0, k) =~= s);
    }
}

impl GatewayConfig {
    /// The port the gateway listens on, read from `gateway_port`; `None`
    /// when that is not a port number.
    pub fn get_port(&self) -> (r: Option<u16>)
        ensures
            match r {
                Some(p) => is_port_number(self.gateway_port@) && p as int == decimal_value(
                    self.gateway_port@,
                ),
                None => !is_port_number(self.gateway_port@),
            },
    {
        let s = self.gateway_port.as_str();
        let n = s.unicode_len();
        if n == 0 {
            return None;
        }
        let mut value: u32 = 0;
        let mut i: usize = 0;
        while i < n
            invariant
                n == s@.len(),
                s@ == self.gateway_port@,
                0 <= i <= n,
                forall|j: int| 0 <= j < i ==> is_digit(#[trigger] s@[j]),
                value as int == decimal_value(s@.subrange(0, i as int)),
                value <= 65535,
            decreases n - i,
        {
            let c = s.get_char(i);
            if !('0' <= c && c <= '9') {
                return None;
            }
            let next: u32 = value * 10 + (c as u32 - '0' as u32);
            proof {
                let p = s@.subrange(0, i as int + 1);
                assert(p.drop_last() =~= s@.subrange(0, i as int));
                assert(p.last() == c);
            }
            if next > 65535 {
                proof {
                    if forall|j: int| 0 <= j < s@.len() ==> is_digit(#[trigger] s@[j]) {
                        lemma_decimal_prefix_le(s@, i as int + 1);
                    }
                }
                return None;
            }
            value = next;
            i = i + 1;
        }
        proof {
            assert(s@.subrange(0, n as int) =~= s@);
        }
        Some(value as u16)
    }
}

} // verus!
