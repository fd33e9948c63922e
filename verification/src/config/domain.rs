//! Dynamic domains: the server addresses that the domain service hands out
//! per licence.
//!
//! The service's answer is a map from keys (a licence such as `TBNZ`,
//! `{LICENSE}-QUOTE` for a licence's quote gateway, or `COMMON`) to base
//! addresses; only text values are addresses, so the map is held as the
//! `Properties` of its text values.

use vstd::prelude::*;
use crate::config::config_parser::{entries_map, insert_entry, Entries, Properties};
use crate::text::owned;

verus! {

/// Address of the domain service.
pub open spec fn domain_garden_address() -> Seq<char> {
    "https://cg.play-analytics.com"@
}

/// The address the domain service is asked at: the service's address, with
/// `?appName=tradeup` for the `TBUS` licence.
pub open spec fn domain_query_url_spec(license: Option<Seq<char>>) -> Seq<char> {
    if license == Some("TBUS"@) {
        domain_garden_address() + "?appName=tradeup"@
    } else {
        domain_garden_address()
    }
}

/// The view of an optional text.
pub open spec fn opt_text(s: Option<&str>) -> Option<Seq<char>> {
    match s {
        Some(t) => Some(t@),
        None => None,
    }
}

/// The address the domain service is asked at for `license`.
pub fn domain_query_url(license: Option<&str>) -> (url: String)
    ensures
        url@ == domain_query_url_spec(opt_text(license)),
{
    let mut url = String::from_str("https://cg.play-analytics.com");
    let tbus = match license {
        Some(l) => crate::text::str_eq(l, "TBUS"),
        None => false,
    };
    if tbus {
        url.append("?appName=tradeup");
    }
    url
}

/// `url` followed by the gateway path.
pub open spec fn gateway(url: Seq<char>) -> Seq<char> {
    url + "/gateway"@
}

/// The quote gateway for `license`: the `{LICENSE}-QUOTE` entry, else the
/// `COMMON` entry; none from an empty map or when neither is there.
pub open spec fn quote_server_spec(
    conf: Map<Seq<char>, Seq<char>>,
    empty: bool,
    license: Option<Seq<char>>,
) -> Option<Seq<char>> {
    if empty {
        None
    } else if license is Some && conf.contains_key(license.unwrap() + "-QUOTE"@) {
        Some(gateway(conf[license.unwrap() + "-QUOTE"@]))
    } else if conf.contains_key("COMMON"@) {
        Some(gateway(conf["COMMON"@]))
    } else {
        None
    }
}

/// The trade gateway for `license`: the licence's entry (the `COMMON` entry
/// without a licence), else the `COMMON` entry; none from an empty map or
/// when neither is there.
pub open spec fn trade_server_spec(
    conf: Map<Seq<char>, Seq<char>>,
    empty: bool,
    license: Option<Seq<char>>,
) -> Option<Seq<char>> {
    let key = match license {
        Some(l) => l,
        None => "COMMON"@,
    };
    if empty {
        None
    } else if conf.contains_key(key) {
        Some(gateway(conf[key]))
    } else if conf.contains_key("COMMON"@) {
        Some(gateway(conf["COMMON"@]))
    } else {
        None
    }
}

/// `base` followed by the gateway path.
fn with_gateway(base: &String) -> (r: String)
    ensures
        r@ == gateway(base@),
{
    let mut r = base.clone();
    r.append("/gateway");
    r
}

/// The quote server address from the dynamic domains for `license`.
pub fn resolve_dynamic_quote_server_url(domain_conf: &Properties, license: Option<&str>) -> (r:
    Option<String>)
    ensures
        r.is_some() == quote_server_spec(
            entries_map(domain_conf@),
            domain_conf@.len() == 0,
            opt_text(license),
        ).is_some(),
        r matches Some(u) ==> u@ == quote_server_spec(
            entries_map(domain_conf@),
            domain_conf@.len() == 0,
            opt_text(license),
        ).unwrap(),
{
    if domain_conf.is_empty() {
        return None;
    }
    if let Some(lic) = license {
        let mut key = owned(lic);
        key.append("-QUOTE");
        if let Some(url) = domain_conf.get(key.as_str()) {
            return Some(with_gateway(url));
        }
    }
    if let Some(url) = domain_conf.get("COMMON") {
        return Some(with_gateway(url));
    }
    None
}

/// The trade server address from the dynamic domains for `license`.
pub fn resolve_dynamic_server_url(domain_conf: &Properties, license: Option<&str>) -> (r: Option<
    String,
>)
    ensures
        r.is_some() == trade_server_spec(
            entries_map(domain_conf@),
            domain_conf@.len() == 0,
            opt_text(license),
        ).is_some(),
        r matches Some(u) ==> u@ == trade_server_spec(
            entries_map(domain_conf@),
            domain_conf@.len() == 0,
            opt_text(license),
        ).unwrap(),
{
    if domain_conf.is_empty() {
        return None;
    }
    let key: &str = match license {
        Some(l) => l,
        None => "COMMON",
    };
    if let Some(url) = domain_conf.get(key) {
        return Some(with_gateway(url));
    }
    if let Some(url) = domain_conf.get("COMMON") {
        return Some(with_gateway(url));
    }
    None
}


/// One entry of the domain service's `openapi` map: its key, and its value
/// when that is text.
pub open spec fn domain_entry_view(e: (String, Option<String>)) -> (Seq<char>, Option<Seq<char>>) {
    (e.0@, match e.1 {
        Some(v) => Some(v@),
        None => None,
    })
}

/// Name for what serde_json finds in the domain service's reply `body`: the
/// entries of `items[0].openapi` (key, and the value when it is text) in
/// the map's order, or none when the body is no JSON or has no such map.
pub uninterp spec fn domain_reply_entries(body: Seq<u8>) -> Option<Seq<(Seq<char>, Option<Seq<char>>)>>;

/// Reads the domain service's reply with serde_json (`from_slice` into a
/// `Value`, then `items[0].openapi` as an object): its entries, each value
/// kept only when it is text. The result is named: `domain_reply_entries`
/// of the body.
#[verifier::external_body]
fn read_domain_reply(body: &[u8]) -> (r: Option<Vec<(String, Option<String>)>>)
    ensures
        match domain_reply_entries(body@) {
            None => r is None,
            Some(es) => r matches Some(v) && v@.map_values(|e: (String, Option<String>)| domain_entry_view(e)) == es,
        },
{
    let v: serde_json::Value = serde_json::from_slice(body).ok()?;
    let first = v.get("items")?.as_array()?.first()?;
    let map = first.get("openapi")?.as_object()?;
    Some(map.iter().map(|(k, x)| (k.clone(), x.as_str().map(|t| t.to_string()))).collect())
}

/// The text entries of a list of domain entries, inserted in order.
pub open spec fn text_entries(es: Seq<(Seq<char>, Option<Seq<char>>)>) -> Entries
    decreases es.len(),
{
    if es.len() == 0 {
        Seq::empty()
    } else {
        let prev = text_entries(es.drop_last());
        match es.last().1 {
            Some(v) => insert_entry(prev, es.last().0, v),
            None => prev,
        }
    }
}

/// The addresses in the domain service's reply: the text entries of its
/// `items[0].openapi` map, or nothing when the reply has none.
pub fn domain_conf_from_body(body: &[u8]) -> (p: Properties)
    ensures
        p@ == match domain_reply_entries(body@) {
            Some(es) => text_entries(es),
            None => Seq::empty(),
        },
{
    let mut p = Properties::new();
    let read = read_domain_reply(body);
    match read {
        None => p,
        Some(v) => {
            let ghost es = v@.map_values(|e: (String, Option<String>)| domain_entry_view(e));
            let mut i: usize = 0;
            while i < v.len()
                invariant
                    i <= v@.len(),
                    es == v@.map_values(|e: (String, Option<String>)| domain_entry_view(e)),
                    p@ == text_entries(es.take(i as int)),
                decreases v@.len() - i,
            {
                assert(es.take(i as int + 1).drop_last() =~= es.take(i as int));
                let (k, x) = (&v[i].0, &v[i].1);
                match x {
                    Some(t) => p.insert(k.clone(), t.clone()),
                    None => {},
                }
                i = i + 1;
            }
            assert(es.take(v@.len() as int) =~= es);
            p
        },
    }
}

} // verus!
