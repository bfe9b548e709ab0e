//! The client's public address information, read from an `ipinfo.io` JSON reply.
use vstd::prelude::*;
use super::result::IpInfo;

verus! {

/// What `serde_json::from_slice::<serde_json::Value>` reads from `body`, asked for the given
/// member names: `None` where the body is no JSON text, else, per name, the member's text
/// where the body is an object whose member of that name is a JSON string.
pub uninterp spec fn json_string_members(body: Seq<u8>, keys: Seq<Seq<char>>) -> Option<Seq<Option<Seq<char>>>>;

pub open spec fn opt_texts(v: Seq<Option<String>>) -> Seq<Option<Seq<char>>> {
    v.map_values(
        |o: Option<String>|
            match o {
                Some(s) => Some(s@),
                None => None,
            },
    )
}

pub open spec fn str_texts(v: Seq<&str>) -> Seq<Seq<char>> {
    v.map_values(|s: &str| s@)
}

/// Parse `body` with `serde_json` and read the string members named by `keys`
/// (`Value::get` then `Value::as_str`, one result per key).
#[verifier::external_body]
fn read_string_members(body: &[u8], keys: &Vec<&str>) -> (r: Option<Vec<Option<String>>>)
    ensures
        r matches Some(v) ==> v@.len() == keys@.len(),
        (match r {
            Some(v) => Some(opt_texts(v@)),
            None => None,
        }) == json_string_members(body@, str_texts(keys@)),
{
    let value: serde_json::Value = serde_json::from_slice(body).ok()?;
    Some(keys.iter().map(|k| value.get(*k).and_then(|f| f.as_str()).map(|s| s.to_string())).collect())
}

/// The member names read from the reply, in the order of the `IpInfo` fields.
pub open spec fn ipinfo_keys() -> Seq<Seq<char>> {
    seq!["ip"@, "city"@, "region"@, "country"@, "loc"@, "org"@, "postal"@, "timezone"@]
}

pub open spec fn or_empty(o: Option<Seq<char>>) -> Seq<char> {
    match o {
        Some(s) => s,
        None => Seq::empty(),
    }
}

/// The text of member `i` of the looked-up members: empty where it is missing or no string.
pub open spec fn member_text(v: Seq<Option<Seq<char>>>, i: int) -> Seq<char> {
    if 0 <= i < v.len() {
        or_empty(v[i])
    } else {
        Seq::empty()
    }
}

/// The address information for the members looked up in a reply, in the order of
/// `ipinfo_keys` (`None`: the reply is no JSON).
pub open spec fn ipinfo_of_members(members: Option<Seq<Option<Seq<char>>>>, r: Option<IpInfo>) -> bool {
    match members {
        None => r is None,
        Some(v) => r matches Some(info) && {
            &&& info.ip@ == member_text(v, 0)
            &&& info.city@ == member_text(v, 1)
            &&& info.region@ == member_text(v, 2)
            &&& info.country@ == member_text(v, 3)
            &&& info.loc@ == member_text(v, 4)
            &&& info.org@ == member_text(v, 5)
            &&& info.postal@ == member_text(v, 6)
            &&& info.timezone@ == member_text(v, 7)
        },
    }
}

/// The address information in an `ipinfo.io` reply: `None` where the reply is no JSON; a
/// member that is missing or no string gives empty text.
pub open spec fn ipinfo_spec(body: Seq<u8>, r: Option<IpInfo>) -> bool {
    ipinfo_of_members(json_string_members(body, ipinfo_keys()), r)
}

fn member(v: &Vec<Option<String>>, i: usize) -> (r: String)
    ensures
        r@ == member_text(opt_texts(v@), i as int),
{
    if i < v.len() {
        match &v[i] {
            Some(s) => s.clone(),
            None => String::new(),
        }
    } else {
        String::new()
    }
}

/// The address information from the string members `ip`, `city`, `region`, `country`,
/// `loc`, `org`, `postal` and `timezone` of a reply, in that order (`None`: no JSON reply).
pub fn ipinfo_from_members(members: Option<Vec<Option<String>>>) -> (r: Option<IpInfo>)
    ensures
        ipinfo_of_members(
            match members {
                Some(v) => Some(opt_texts(v@)),
                None => None,
            },
            r,
        ),
{
    let v = match members {
        Some(v) => v,
        None => return None,
    };
    Some(IpInfo {
        ip: member(&v, 0),
        city: member(&v, 1),
        region: member(&v, 2),
        country: member(&v, 3),
        loc: member(&v, 4),
        org: member(&v, 5),
        postal: member(&v, 6),
        timezone: member(&v, 7),
    })
}

/// The client address information in an `ipinfo.io` JSON reply.
pub fn ipinfo_from_json(body: &[u8]) -> (r: Option<IpInfo>)
    ensures
        ipinfo_spec(body@, r),
{
    let keys: Vec<&str> = vec!["ip", "city", "region", "country", "loc", "org", "postal", "timezone"];
    assert(str_texts(keys@) =~= ipinfo_keys());
    ipinfo_from_members(read_string_members(body, &keys))
}

} // verus!
