//! Company and fund profiles, built from the provider's quote summary.
use vstd::prelude::*;
use vstd::string::StringExecFns;

use crate::error::{Error, InnerError};

verus! {

/// The company part of the provider's quote summary.
#[derive(Debug, Clone, PartialEq)]
pub struct CompanyProfile {
    pub address1: Option<String>,
    pub address2: Option<String>,
    pub city: Option<String>,
    pub state: Option<String>,
    pub country: Option<String>,
    pub zip: Option<String>,
    pub employees: Option<u32>,
    pub sector: Option<String>,
    pub industry: Option<String>,
    pub summary: Option<String>,
    pub website: Option<String>,
}

/// The fund part of the provider's quote summary.
#[derive(Debug, Clone, PartialEq)]
pub struct FundProfile {
    pub kind: String,
    pub family: Option<String>,
}

/// The name and security type of the provider's quote summary.
#[derive(Debug, Clone, PartialEq)]
pub struct SecurityInfo {
    pub name: String,
    pub kind: String,
}

/// The provider's quote summary of one symbol.
#[derive(Debug, Clone, PartialEq)]
pub struct QuoteSummaryStore {
    pub fund_profile: Option<FundProfile>,
    pub company_profile: Option<CompanyProfile>,
    pub quote_type: SecurityInfo,
}

/// Symbols which represent a company can have an address associated with
/// them. This is usually the company headquarters.
#[derive(Debug, Clone, PartialEq)]
pub struct Address {
    pub street1: Option<String>,
    pub street2: Option<String>,
    pub city: Option<String>,
    pub state: Option<String>,
    pub country: Option<String>,
    pub zip: Option<String>,
}

#[derive(Debug, Clone, PartialEq)]
pub struct Company {
    /// Optional address on file for the symbol - typically the HQ for
    /// publicly traded companies.
    pub address: Option<Address>,
    /// The industry, according to the provider, e.g. 'Gold'.
    pub industry: Option<String>,
    /// The common name for the symbol.
    pub name: String,
    /// The sector, according to the provider, e.g. 'Basic Materials'.
    pub sector: Option<String>,
    /// A summary description for the symbol.
    pub summary: Option<String>,
    /// A website with more information - generally a corporate home page.
    pub website: Option<String>,
}

#[derive(Debug, Clone, PartialEq)]
pub struct Fund {
    pub name: String,
    pub family: Option<String>,
    pub kind: String,
}

#[derive(Debug, Clone, PartialEq)]
pub enum Profile {
    Company(Company),
    Fund(Fund),
}

/// A copy of an optional string.
fn copy_text(o: &Option<String>) -> (r: Option<String>)
    ensures
        r == *o,
{
    match o {
        Some(s) => Some(s.clone()),
        None => None,
    }
}

/// The security type of an equity: its profile is a company's.
pub open spec fn equity_kind() -> Seq<char> {
    seq!['E', 'Q', 'U', 'I', 'T', 'Y']
}

/// The security type of an exchange-traded fund: its profile is a fund's.
pub open spec fn etf_kind() -> Seq<char> {
    seq!['E', 'T', 'F']
}

/// `c` is the company profile that summary `data` describes.
pub open spec fn company_of(data: QuoteSummaryStore, c: Company) -> bool {
    &&& data.company_profile matches Some(p)
    &&& c.name == data.quote_type.name
    &&& c.summary == p.summary
    &&& c.industry == p.industry
    &&& c.sector == p.sector
    &&& c.website == p.website
    &&& c.address matches Some(a) && a == Address {
        street1: p.address1,
        street2: p.address2,
        city: p.city,
        state: p.state,
        country: p.country,
        zip: p.zip,
    }
}

/// `f` is the fund profile that summary `data` describes.
pub open spec fn fund_of(data: QuoteSummaryStore, f: Fund) -> bool {
    &&& data.fund_profile matches Some(p)
    &&& f == Fund { name: data.quote_type.name, kind: p.kind, family: p.family }
}

impl Address {
    /// The address on file in a company profile.
    pub fn new(data: &CompanyProfile) -> (r: Address)
        ensures
            r == (Address {
                street1: data.address1,
                street2: data.address2,
                city: data.city,
                state: data.state,
                country: data.country,
                zip: data.zip,
            }),
    {
        Address {
            street1: copy_text(&data.address1),
            street2: copy_text(&data.address2),
            city: copy_text(&data.city),
            state: copy_text(&data.state),
            country: copy_text(&data.country),
            zip: copy_text(&data.zip),
        }
    }
}

impl Company {
    /// The company profile of a summary; `MissingData` where the summary
    /// holds no company part.
    pub fn new(data: QuoteSummaryStore) -> (r: Result<Company, Error>)
        ensures
            data.company_profile is Some <==> r is Ok,
            r matches Ok(c) ==> company_of(data, c),
            r matches Err(e) ==> e.0 is MissingData,
    {
        let profile = match data.company_profile {
            Some(p) => p,
            None => {
                return Err(Error(InnerError::MissingData { reason: String::from_str("no company profile") }));
            },
        };
        let address = Some(Address::new(&profile));
        Ok(
            Company {
                name: data.quote_type.name,
                summary: profile.summary,
                address,
                industry: profile.industry,
                sector: profile.sector,
                website: profile.website,
            },
        )
    }
}

impl Fund {
    /// The fund profile of a summary; `MissingData` where the summary holds
    /// no fund part.
    pub fn new(data: QuoteSummaryStore) -> (r: Result<Fund, Error>)
        ensures
            data.fund_profile is Some <==> r is Ok,
            r matches Ok(f) ==> fund_of(data, f),
            r matches Err(e) ==> e.0 is MissingData,
    {
        let profile = match data.fund_profile {
            Some(p) => p,
            None => {
                return Err(Error(InnerError::MissingData { reason: String::from_str("no fund profile") }));
            },
        };
        Ok(Fund { name: data.quote_type.name, kind: profile.kind, family: profile.family })
    }
}

impl Profile {
    /// The profile that a summary describes: a company for an equity, a
    /// fund for an exchange-traded fund; any other security type is
    /// `UnsupportedSecurity`.
    pub fn from_summary(data: QuoteSummaryStore) -> (r: Result<Profile, Error>)
        ensures
            data.quote_type.kind@ == equity_kind() ==> match r {
                Ok(Profile::Company(c)) => company_of(data, c),
                Ok(_) => false,
                Err(e) => data.company_profile is None && e.0 is MissingData,
            },
            data.quote_type.kind@ == etf_kind() ==> match r {
                Ok(Profile::Fund(f)) => fund_of(data, f),
                Ok(_) => false,
                Err(e) => data.fund_profile is None && e.0 is MissingData,
            },
            data.quote_type.kind@ != equity_kind() && data.quote_type.kind@ != etf_kind() ==> r
                == Err::<Profile, Error>(
                Error(InnerError::UnsupportedSecurity { kind: data.quote_type.kind }),
            ),
    {
        let equity = String::from_str("EQUITY");
        let etf = String::from_str("ETF");
        proof {
            reveal_strlit("EQUITY");
            reveal_strlit("ETF");
            assert(equity@ =~= equity_kind());
            assert(etf@ =~= etf_kind());
        }
        if data.quote_type.kind.eq(&equity) {
            match Company::new(data) {
                Ok(c) => Ok(Profile::Company(c)),
                Err(e) => Err(e),
            }
        } else if data.quote_type.kind.eq(&etf) {
            match Fund::new(data) {
                Ok(f) => Ok(Profile::Fund(f)),
                Err(e) => Err(e),
            }
        } else {
            Err(Error(InnerError::UnsupportedSecurity { kind: data.quote_type.kind }))
        }
    }
}

} // verus!
