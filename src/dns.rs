//! Grouping resolved addresses into records by address family.
use vstd::prelude::*;
use vstd::string::StringExecFns;

verus! {

/// The addresses of one family that a name resolved to.
#[derive(Clone, Debug, PartialEq, Eq)]
pub struct DnsResolution {
    pub hostname: String,
    pub ip_addresses: Vec<String>,
    /// `A` for IPv4 addresses, `AAAA` for IPv6 ones.
    pub record_type: String,
    /// Not known from the platform resolver.
    pub ttl: Option<u32>,
}

#[derive(Clone, Debug, PartialEq, Eq)]
pub enum DnsError {
    /// The name resolved to no address at all.
    NotFound(String),
}

/// The addresses of the given family (`v6` or not), in the order resolved.
pub open spec fn family_addrs(addrs: Seq<(bool, String)>, v6: bool) -> Seq<Seq<char>>
    decreases addrs.len(),
{
    if addrs.len() == 0 {
        Seq::empty()
    } else {
        let rest = family_addrs(addrs.drop_last(), v6);
        if addrs.last().0 == v6 {
            rest.push(addrs.last().1@)
        } else {
            rest
        }
    }
}

pub open spec fn texts(v: Seq<String>) -> Seq<Seq<char>> {
    v.map_values(|s: String| s@)
}

/// The record of one family, as it is reported.
pub open spec fn is_record(r: DnsResolution, host: Seq<char>, kind: Seq<char>, ips: Seq<Seq<char>>) -> bool {
    &&& r.hostname@ == host
    &&& r.record_type@ == kind
    &&& texts(r.ip_addresses@) == ips
    &&& r.ttl is None
}

fn family(addrs: &Vec<(bool, String)>, v6: bool) -> (r: Vec<String>)
    ensures
        texts(r@) == family_addrs(addrs@, v6),
{
    let mut out: Vec<String> = Vec::new();
    let mut i: usize = 0;
    while i < addrs.len()
        invariant
            0 <= i <= addrs.len(),
            texts(out@) == family_addrs(addrs@.take(i as int), v6),
        decreases addrs.len() - i,
    {
        assert(addrs@.take(i + 1).drop_last() =~= addrs@.take(i as int));
        if addrs[i].0 == v6 {
            out.push(addrs[i].1.clone());
            assert(texts(out@) =~= texts(out@.drop_last()).push(addrs@[i as int].1@));
        }
        i = i + 1;
    }
    assert(addrs@.take(addrs.len() as int) =~= addrs@);
    out
}

/// Groups resolved addresses, each marked with whether it is IPv6, into an
/// `A` record and an `AAAA` record, leaving out a family with no address.
/// No address at all is reported as not found.
pub fn dns_records(hostname: &String, addrs: &Vec<(bool, String)>) -> (r: Result<
    Vec<DnsResolution>,
    DnsError,
>)
    ensures
        ({
            let v4 = family_addrs(addrs@, false);
            let v6 = family_addrs(addrs@, true);
            match r {
                Err(DnsError::NotFound(h)) => h == hostname && v4.len() == 0 && v6.len() == 0,
                Ok(rs) => {
                    &&& v4.len() > 0 || v6.len() > 0
                    &&& rs.len() == (if v4.len() > 0 { 1int } else { 0int }) + (if v6.len() > 0 {
                        1int
                    } else {
                        0int
                    })
                    &&& v4.len() > 0 ==> is_record(rs[0], hostname@, "A"@, v4)
                    &&& v6.len() > 0 ==> is_record(rs[rs.len() - 1], hostname@, "AAAA"@, v6)
                },
            }
        }),
{
    let v4 = family(addrs, false);
    let v6 = family(addrs, true);
    let mut results: Vec<DnsResolution> = Vec::new();
    if v4.len() > 0 {
        results.push(
            DnsResolution {
                hostname: hostname.clone(),
                ip_addresses: v4,
                record_type: String::from_str("A"),
                ttl: None,
            },
        );
    }
    if v6.len() > 0 {
        results.push(
            DnsResolution {
                hostname: hostname.clone(),
                ip_addresses: v6,
                record_type: String::from_str("AAAA"),
                ttl: None,
            },
        );
    }
    if results.len() == 0 {
        return Err(DnsError::NotFound(hostname.clone()));
    }
    Ok(results)
}

} // verus!
