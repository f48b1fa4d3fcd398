use vstd::prelude::*;

verus! {

/// The DNS record types the reconciler can manage.
#[derive(Clone, Copy, PartialEq, Eq, Structural, Debug)]
pub enum RecordType {
    A,
    Aaaa,
    Cname,
    Mx,
    Ns,
    Srv,
    Txt,
}

/// The name under which the provider's API knows each record type.
pub open spec fn wire_name(t: RecordType) -> Seq<char> {
    match t {
        RecordType::A => "A"@,
        RecordType::Aaaa => "AAAA"@,
        RecordType::Cname => "CNAME"@,
        RecordType::Mx => "MX"@,
        RecordType::Ns => "NS"@,
        RecordType::Srv => "SRV"@,
        RecordType::Txt => "TXT"@,
    }
}

/// The record type named by a provider-side type string, if it is one the
/// reconciler manages.
pub open spec fn parse_wire_name(s: Seq<char>) -> Option<RecordType> {
    if s == "A"@ {
        Some(RecordType::A)
    } else if s == "AAAA"@ {
        Some(RecordType::Aaaa)
    } else if s == "CNAME"@ {
        Some(RecordType::Cname)
    } else if s == "MX"@ {
        Some(RecordType::Mx)
    } else if s == "NS"@ {
        Some(RecordType::Ns)
    } else if s == "SRV"@ {
        Some(RecordType::Srv)
    } else if s == "TXT"@ {
        Some(RecordType::Txt)
    } else {
        None
    }
}

impl RecordType {
    /// The type's name on the provider's wire format.
    pub fn name(&self) -> (r: &'static str)
        ensures
            r@ == wire_name(*self),
    {
        match self {
            RecordType::A => "A",
            RecordType::Aaaa => "AAAA",
            RecordType::Cname => "CNAME",
            RecordType::Mx => "MX",
            RecordType::Ns => "NS",
            RecordType::Srv => "SRV",
            RecordType::Txt => "TXT",
        }
    }

    /// Parses a provider-side type string back into a record type.
    pub fn from_name(s: &String) -> (t: Option<RecordType>)
        ensures
            t == parse_wire_name(s@),
    {
        let lit_a: String = "A".to_owned();
        if *s == lit_a {
            return Some(RecordType::A);
        }
        let lit_aaaa: String = "AAAA".to_owned();
        if *s == lit_aaaa {
            return Some(RecordType::Aaaa);
        }
        let lit_cname: String = "CNAME".to_owned();
        if *s == lit_cname {
            return Some(RecordType::Cname);
        }
        let lit_mx: String = "MX".to_owned();
        if *s == lit_mx {
            return Some(RecordType::Mx);
        }
        let lit_ns: String = "NS".to_owned();
        if *s == lit_ns {
            return Some(RecordType::Ns);
        }
        let lit_srv: String = "SRV".to_owned();
        if *s == lit_srv {
            return Some(RecordType::Srv);
        }
        let lit_txt: String = "TXT".to_owned();
        if *s == lit_txt {
            return Some(RecordType::Txt);
        }
        None
    }
}

/// The two directions of the wire naming agree: parsing a type's own name
/// yields that type back.
pub proof fn lemma_wire_name_round_trip(t: RecordType)
    ensures
        parse_wire_name(wire_name(t)) == Some(t),
{
    reveal_strlit("A");
    reveal_strlit("AAAA");
    reveal_strlit("CNAME");
    reveal_strlit("MX");
    reveal_strlit("NS");
    reveal_strlit("SRV");
    reveal_strlit("TXT");
    assert("A"@.len() == 1);
    assert("AAAA"@.len() == 4);
    assert("CNAME"@.len() == 5);
    assert("MX"@.len() == 2);
    assert("NS"@.len() == 2);
    assert("SRV"@.len() == 3);
    assert("TXT"@.len() == 3);
    assert("NS"@[0] == 'N' && "MX"@[0] == 'M');
    assert("TXT"@[0] == 'T' && "SRV"@[0] == 'S');
    assert("NS"@ != "MX"@);
    assert("TXT"@ != "SRV"@);
}

/// A record as the provider stores it: `id` is the provider-assigned, stable
/// identity; `(name, type_)` is the matching key used to pair it with a
/// desired record.
#[derive(Debug)]
pub struct DnsRecord {
    pub id: String,
    pub zone_id: String,
    pub type_: RecordType,
    pub name: String,
    pub value: String,
    pub ttl: u64,
}

impl Clone for DnsRecord {
    fn clone(&self) -> (res: Self)
        ensures
            res == *self,
    {
        DnsRecord {
            id: self.id.clone(),
            zone_id: self.zone_id.clone(),
            type_: self.type_,
            name: self.name.clone(),
            value: self.value.clone(),
            ttl: self.ttl,
        }
    }
}

/// The provider's input for record creation; the provider assigns the `id`.
#[derive(Debug)]
pub struct DnsRecordCreate {
    pub zone_id: String,
    pub type_: RecordType,
    pub name: String,
    pub value: String,
    pub ttl: u64,
}

/// The record the caller wants to exist, as the service registry reports it.
#[derive(Debug)]
pub struct DesiredRecord {
    pub hostname: String,
    pub type_: RecordType,
    pub value: String,
    pub ttl: u64,
}

/// The payload of the provider's record-listing response.
pub struct RecordsWrapper {
    pub records: Vec<DnsRecord>,
}

impl RecordsWrapper {
    /// The listed records, in the provider's list order.
    pub fn into_records(self) -> (r: Vec<DnsRecord>)
        ensures
            r@ == self.records@,
    {
        self.records
    }
}

/// The zone and authentication context for one DNS provider account.
pub struct HetznerConfig {
    pub api_url: String,
    pub dns_zone_id: String,
    pub dns_token: String,
}

/// A DNS provider client bound to one zone.
pub struct HetznerDns {
    pub config: HetznerConfig,
}

} // verus!
