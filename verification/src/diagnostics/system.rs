//! System checks: proxy configuration, hosts-file overrides and clock skew.
use vstd::prelude::*;
use super::calendar::{
    civil_of, days_before_month, days_before_year, is_civil_date, is_leap, iso8601_text, iso_text,
    month_days, month_length, unix_time_secs,
};
use super::result::{opt_text, ProxyInfo, Severity, Status, SystemDetails, SystemModule};
use super::text::{
    chars_of, i64_to_text, owned, parse_i64, parse_i64_spec, seq_contains, seq_find, signed_decimal,
    split_char, split_on, split_whitespace, trim, trim_chars, ws_tokens,
};

verus! {

/// The number of an English three-letter month abbreviation.
pub open spec fn month_number(name: Seq<char>) -> Option<int> {
    if name == seq!['J', 'a', 'n'] {
        Some(1)
    } else if name == seq!['F', 'e', 'b'] {
        Some(2)
    } else if name == seq!['M', 'a', 'r'] {
        Some(3)
    } else if name == seq!['A', 'p', 'r'] {
        Some(4)
    } else if name == seq!['M', 'a', 'y'] {
        Some(5)
    } else if name == seq!['J', 'u', 'n'] {
        Some(6)
    } else if name == seq!['J', 'u', 'l'] {
        Some(7)
    } else if name == seq!['A', 'u', 'g'] {
        Some(8)
    } else if name == seq!['S', 'e', 'p'] {
        Some(9)
    } else if name == seq!['O', 'c', 't'] {
        Some(10)
    } else if name == seq!['N', 'o', 'v'] {
        Some(11)
    } else if name == seq!['D', 'e', 'c'] {
        Some(12)
    } else {
        None
    }
}

/// The fields of an HTTP date `Day, DD Mon YYYY HH:MM:SS GMT`, as
/// (day, month, year, hour, minute, second). Only the second to fifth words are read:
/// the text needs at least six words, a known month name, integer day and year, and a
/// time of exactly three `:`-separated integers. No field is range-checked.
pub open spec fn http_date_fields(date: Seq<char>) -> Option<(int, int, int, int, int, int)> {
    let parts = ws_tokens(date);
    if parts.len() < 6 {
        None
    } else {
        let time = split_on(parts[4], ':');
        match (parse_i64_spec(parts[1]), month_number(parts[2]), parse_i64_spec(parts[3])) {
            (Some(day), Some(month), Some(year)) => if time.len() != 3 {
                None
            } else {
                match (
                    parse_i64_spec(time[0]),
                    parse_i64_spec(time[1]),
                    parse_i64_spec(time[2]),
                ) {
                    (Some(h), Some(mi), Some(s)) => Some(
                        (day as int, month, year as int, h as int, mi as int, s as int),
                    ),
                    _ => None,
                }
            },
            _ => None,
        }
    }
}

/// Days from 1970-01-01 to the given date; the day may lie outside its month.
pub open spec fn date_days(day: int, month: int, year: int) -> int {
    days_before_year(year) + days_before_month(year, month) + (day - 1)
}

/// Unix time of the given date and time of day.
pub open spec fn date_seconds(day: int, month: int, year: int, h: int, mi: int, s: int) -> int {
    date_days(day, month, year) * 86400 + h * 3600 + mi * 60 + s
}

pub open spec fn fits_i64(x: int) -> bool {
    i64::MIN <= x <= i64::MAX
}

/// Every intermediate value of the 64-bit timestamp arithmetic fits in an `i64`.
pub open spec fn date_arith_fits(day: int, month: int, year: int, h: int, mi: int, s: int) -> bool {
    let before = days_before_year(year) + days_before_month(year, month);
    let days = before + (day - 1);
    &&& fits_i64(before)
    &&& fits_i64(day - 1)
    &&& fits_i64(days)
    &&& fits_i64(days * 86400)
    &&& fits_i64(h * 3600)
    &&& fits_i64(mi * 60)
    &&& fits_i64(days * 86400 + h * 3600)
    &&& fits_i64(days * 86400 + h * 3600 + mi * 60)
    &&& fits_i64(days * 86400 + h * 3600 + mi * 60 + s)
}

/// The Unix time of an HTTP date can be computed in 64-bit arithmetic (or the text is no date).
pub open spec fn http_date_in_i64(date: Seq<char>) -> bool {
    match http_date_fields(date) {
        Some(f) => date_arith_fits(f.0, f.1, f.2, f.3, f.4, f.5),
        None => true,
    }
}

/// The Unix time of an HTTP date, or `None` where the text is no date.
pub open spec fn http_date_value(date: Seq<char>) -> Option<int> {
    match http_date_fields(date) {
        Some(f) => Some(date_seconds(f.0, f.1, f.2, f.3, f.4, f.5)),
        None => None,
    }
}

fn month_of(name: &Vec<char>) -> (r: Option<i64>)
    ensures
        r == (match month_number(name@) {
            Some(m) => Some(m as i64),
            None => None,
        }),
{
    if name.len() != 3 {
        return None;
    }
    let (a, b, c) = (name[0], name[1], name[2]);
    assert(name@ =~= seq![a, b, c]);
    if a == 'J' && b == 'a' && c == 'n' {
        Some(1)
    } else if a == 'F' && b == 'e' && c == 'b' {
        Some(2)
    } else if a == 'M' && b == 'a' && c == 'r' {
        Some(3)
    } else if a == 'A' && b == 'p' && c == 'r' {
        Some(4)
    } else if a == 'M' && b == 'a' && c == 'y' {
        Some(5)
    } else if a == 'J' && b == 'u' && c == 'n' {
        Some(6)
    } else if a == 'J' && b == 'u' && c == 'l' {
        Some(7)
    } else if a == 'A' && b == 'u' && c == 'g' {
        Some(8)
    } else if a == 'S' && b == 'e' && c == 'p' {
        Some(9)
    } else if a == 'O' && b == 'c' && c == 't' {
        Some(10)
    } else if a == 'N' && b == 'o' && c == 'v' {
        Some(11)
    } else if a == 'D' && b == 'e' && c == 'c' {
        Some(12)
    } else {
        None
    }
}

/// The fields of an HTTP date, read as `http_date_fields` describes.
fn read_http_date(date: &str) -> (r: Option<(i64, i64, i64, i64, i64, i64)>)
    ensures
        r matches Some(f) ==> 1 <= f.1 <= 12,
        http_date_fields(date@) == (match r {
            Some(f) => Some((f.0 as int, f.1 as int, f.2 as int, f.3 as int, f.4 as int, f.5 as int)),
            None => None,
        }),
{
    let chars = chars_of(date);
    let parts = split_whitespace(&chars);
    if parts.len() < 6 {
        return None;
    }
    let ghost tokens = ws_tokens(date@);
    assert(tokens[1] == parts[1]@ && tokens[2] == parts[2]@ && tokens[3] == parts[3]@ && tokens[4] == parts[4]@);
    let day = match parse_i64(&parts[1]) {
        Some(v) => v,
        None => return None,
    };
    let month = match month_of(&parts[2]) {
        Some(v) => v,
        None => return None,
    };
    let year = match parse_i64(&parts[3]) {
        Some(v) => v,
        None => return None,
    };
    let time = split_char(&parts[4], ':');
    if time.len() != 3 {
        return None;
    }
    let ghost tp = split_on(tokens[4], ':');
    assert(tp[0] == time[0]@ && tp[1] == time[1]@ && tp[2] == time[2]@);
    let hour = match parse_i64(&time[0]) {
        Some(v) => v,
        None => return None,
    };
    let minute = match parse_i64(&time[1]) {
        Some(v) => v,
        None => return None,
    };
    let second = match parse_i64(&time[2]) {
        Some(v) => v,
        None => return None,
    };
    Some((day, month, year, hour, minute, second))
}


/// The Unix time of the given date and time, `Err` where the 64-bit arithmetic overflows.
fn date_seconds_i64(day: i64, month: i64, year: i64, h: i64, mi: i64, s: i64) -> (r: Result<i64, ()>)
    requires
        1 <= month <= 12,
    ensures
        r matches Ok(v) ==> date_arith_fits(day as int, month as int, year as int, h as int, mi as int, s as int)
            && v == date_seconds(day as int, month as int, year as int, h as int, mi as int, s as int),
        r is Err ==> !date_arith_fits(day as int, month as int, year as int, h as int, mi as int, s as int),
{
    let ghost before = days_before_year(year as int) + days_before_month(year as int, month as int);
    let mut total: i64 = 0;
    let mut y: i64 = 1970;
    if year > 1970 {
        while y < year
            invariant
                1970 <= y <= year,
                1 <= month <= 12,
                total == days_before_year(y as int),
            decreases year - y,
        {
            let diy: i64 = if is_leap(y) { 366 } else { 365 };
            assert(days_before_year(y + 1) == days_before_year(y as int) + diy);
            if total > i64::MAX - diy {
                proof {
                    super::calendar::lemma_days_before_year_monotone(y + 1, year as int);
                    super::calendar::lemma_days_before_month_monotone(year as int, 1, month as int);
                    assert(days_before_month(year as int, 1) == 0);
                }
                return Err(());
            }
            total = total + diy;
            y = y + 1;
        }
    }
    assert(total == days_before_year(year as int));
    proof {
        if year > 1970 {
            super::calendar::lemma_days_before_year_monotone(1970, year as int);
        }
    }
    let mut m: i64 = 1;
    while m < month
        invariant
            1 <= m <= month <= 12,
            total == days_before_year(year as int) + days_before_month(year as int, m as int),
            0 <= days_before_year(year as int) <= i64::MAX,
            total <= i64::MAX,
        decreases month - m,
    {
        let md = month_days(year, m as u32);
        assert(days_before_month(year as int, m + 1) == days_before_month(year as int, m as int) + md);
        if total > i64::MAX - md {
            proof {
                super::calendar::lemma_days_before_month_monotone(year as int, m + 1, month as int);
            }
            return Err(());
        }
        total = total + md;
        m = m + 1;
    }
    assert(total == before);
    if day == i64::MIN {
        return Err(());
    }
    let days: i128 = total as i128 + (day - 1) as i128;
    let secs: i128 = days * 86400;
    let hs: i128 = h as i128 * 3600;
    let ms: i128 = mi as i128 * 60;
    let a: i128 = secs + hs;
    let b: i128 = a + ms;
    let c: i128 = b + s as i128;
    let lo: i128 = i64::MIN as i128;
    let hi: i128 = i64::MAX as i128;
    if days < lo || days > hi || secs < lo || secs > hi || hs < lo || hs > hi || ms < lo || ms > hi
        || a < lo || a > hi || b < lo || b > hi || c < lo || c > hi {
        return Err(());
    }
    Ok(c as i64)
}

/// Whether the Unix time of an HTTP date fits the 64-bit arithmetic that computes it
/// (true for text that is no date).
pub fn http_date_in_range(date: &str) -> (r: bool)
    ensures
        r == http_date_in_i64(date@),
{
    match read_http_date(date) {
        Some((d, mo, y, h, mi, s)) => date_seconds_i64(d, mo, y, h, mi, s).is_ok(),
        None => true,
    }
}

/// Parse an HTTP `Date` header (RFC 7231, `Thu, 03 Apr 2026 00:30:00 GMT`) into Unix time.
pub fn parse_http_date(date: &str) -> (r: Option<i64>)
    requires
        http_date_in_i64(date@),
    ensures
        r == (match http_date_value(date@) {
            Some(v) => Some(v as i64),
            None => None,
        }),
        r matches Some(v) ==> http_date_value(date@) == Some(v as int),
{
    match read_http_date(date) {
        Some((d, mo, y, h, mi, s)) => match date_seconds_i64(d, mo, y, h, mi, s) {
            Ok(v) => Some(v),
            Err(_) => None,
        },
        None => None,
    }
}


/// Law: Unix time computed from an HTTP date and rendered back as an ISO 8601 timestamp
/// shows the same calendar fields, for every valid date and time of day from 1970 on.
pub proof fn lemma_http_date_renders_back(day: int, month: int, year: int, h: int, mi: int, s: int)
    requires
        1970 <= year,
        1 <= month <= 12,
        1 <= day <= month_length(year, month),
        0 <= h < 24,
        0 <= mi < 60,
        0 <= s < 60,
    ensures
        date_seconds(day, month, year, h, mi, s) >= 0,
        iso8601_text(date_seconds(day, month, year, h, mi, s) as nat) == iso_text(
            year as nat,
            month as nat,
            day as nat,
            h as nat,
            mi as nat,
            s as nat,
        ),
{
    let days = date_days(day, month, year);
    super::calendar::lemma_days_before_year_monotone(1970, year);
    super::calendar::lemma_days_before_month_monotone(year, 1, month);
    assert(days_before_month(year, 1) == 0);
    assert(days >= 0);
    assert(is_civil_date(days, year, month, day));
    let tod = h * 3600 + mi * 60 + s;
    let secs = days * 86400 + tod;
    assert(0 <= tod < 86400);
    assert(secs >= 0) by (nonlinear_arith)
        requires
            days >= 0,
            tod >= 0,
            secs == days * 86400 + tod,
    ;
    assert(secs / 86400 == days && secs % 86400 == tod) by (nonlinear_arith)
        requires
            days >= 0,
            0 <= tod < 86400,
            secs == days * 86400 + tod,
    ;
    assert(tod / 3600 == h && (tod % 3600) / 60 == mi && tod % 60 == s) by (nonlinear_arith)
        requires
            0 <= h < 24,
            0 <= mi < 60,
            0 <= s < 60,
            tod == h * 3600 + mi * 60 + s,
    ;
    super::calendar::lemma_civil_of(days as nat);
    let c = civil_of(days as nat);
    super::calendar::lemma_civil_unique(days, year, month, day, c.0, c.1, c.2);
}

/// Clock skew between the local clock `now` and a server `Date` header:
/// whether it exceeds 120 seconds, and the offset in seconds (local minus server).
/// A missing or unparseable header gives no skew and no offset.
pub open spec fn clock_skew_spec(server_date: Option<Seq<char>>, now: int) -> (bool, Option<int>) {
    match server_date {
        None => (false, None),
        Some(d) => match http_date_value(d) {
            None => (false, None),
            Some(v) => (now - v > 120 || v - now > 120, Some(now - v)),
        },
    }
}

pub open spec fn header_in_i64(server_date: Option<Seq<char>>) -> bool {
    match server_date {
        Some(d) => http_date_in_i64(d),
        None => true,
    }
}

pub open spec fn opt_view(s: Option<&str>) -> Option<Seq<char>> {
    match s {
        Some(t) => Some(t@),
        None => None,
    }
}

/// Clock skew of the local time `now` against a server `Date` header.
pub fn clock_skew_at(server_date: Option<&str>, now: i64) -> (r: (bool, Option<i64>))
    requires
        header_in_i64(opt_view(server_date)),
        clock_skew_spec(opt_view(server_date), now as int).1 matches Some(off) ==> fits_i64(off),
    ensures
        r.0 == clock_skew_spec(opt_view(server_date), now as int).0,
        r.1 == (match clock_skew_spec(opt_view(server_date), now as int).1 {
            Some(off) => Some(off as i64),
            None => None,
        }),
{
    let date = match server_date {
        Some(d) => d,
        None => return (false, None),
    };
    let server_ts = match parse_http_date(date) {
        Some(ts) => ts,
        None => return (false, None),
    };
    let offset = now - server_ts;
    let skewed = offset > 120 || offset < -120;
    (skewed, Some(offset))
}

/// The clock-skew check at local Unix time `now`: the skew and offset of `clock_skew_spec`,
/// except that an offset beyond the 64-bit range is not compared (no skew, no offset).
pub open spec fn clock_skew_reading(server_date: Option<Seq<char>>, now: int) -> (bool, Option<i64>) {
    match clock_skew_spec(server_date, now) {
        (skewed, Some(off)) => if fits_i64(off) {
            (skewed, Some(off as i64))
        } else {
            (false, None)
        },
        (skewed, None) => (skewed, None),
    }
}

/// Check clock skew by comparing the local clock with a server `Date` header
/// (threshold: 120 seconds). Returns whether the clock is skewed and the offset in seconds.
pub fn check_clock_skew(server_date: Option<&str>) -> (r: (bool, Option<i64>))
    requires
        header_in_i64(opt_view(server_date)),
    ensures
        exists|now: i64| r == #[trigger] clock_skew_reading(opt_view(server_date), now as int),
        clock_skew_spec(opt_view(server_date), 0).1 is None ==> r == (false, None::<i64>),
        r.1 is None ==> !r.0,
        r.1 matches Some(off) ==> r.0 == (off > 120 || off < -120) && exists|now: int|
            clock_skew_spec(opt_view(server_date), now) == (r.0, Some(off as int)),
{
    let date = match server_date {
        Some(d) => d,
        None => {
            assert((false, None::<i64>) == clock_skew_reading(opt_view(server_date), 0i64 as int));
            return (false, None);
        },
    };
    let server_ts = match parse_http_date(date) {
        Some(ts) => ts,
        None => {
            assert((false, None::<i64>) == clock_skew_reading(opt_view(server_date), 0i64 as int));
            return (false, None);
        },
    };
    let local_ts = unix_time_secs() as i64;
    // An offset beyond the 64-bit range cannot be represented; such a clock is not compared.
    if (server_ts > 0 && local_ts < i64::MIN + server_ts) || (server_ts < 0 && local_ts > i64::MAX + server_ts) {
        assert((false, None::<i64>) == clock_skew_reading(opt_view(server_date), local_ts as int));
        return (false, None);
    }
    let r = clock_skew_at(server_date, local_ts);
    assert(r == clock_skew_reading(opt_view(server_date), local_ts as int));
    assert(clock_skew_spec(opt_view(server_date), local_ts as int) == (r.0, Some(r.1.unwrap() as int)));
    r
}


/// The operating system the diagnosis runs on, as far as the proxy checks care.
#[derive(Debug, Clone, Copy, PartialEq, Eq, Structural)]
pub enum Platform {
    Windows,
    MacOs,
    Other,
}

pub open spec fn settings_uri_spec(platform: Platform) -> Option<Seq<char>> {
    match platform {
        Platform::Windows => Some("ms-settings:network-proxy"@),
        Platform::MacOs => Some("x-apple.systempreferences:com.apple.Network-Settings.extension"@),
        Platform::Other => None,
    }
}

/// The URI that opens the system proxy settings, where the platform has one.
pub fn proxy_settings_uri(platform: Platform) -> (r: Option<String>)
    ensures
        opt_text(r) == settings_uri_spec(platform),
{
    match platform {
        Platform::Windows => Some(owned("ms-settings:network-proxy")),
        Platform::MacOs => Some(owned("x-apple.systempreferences:com.apple.Network-Settings.extension")),
        Platform::Other => None,
    }
}

/// The `Internet Settings` registry values that the Windows proxy check reads;
/// a value that could not be read is `None`.
#[derive(Debug, Clone)]
pub struct RegistryProxySettings {
    pub proxy_enable: Option<u32>,
    pub proxy_server: Option<String>,
    pub auto_config_url: Option<String>,
}

/// The proxy environment variables, each `None` where it is unset or not Unicode.
#[derive(Debug, Clone)]
pub struct ProxyEnv {
    pub https_proxy: Option<String>,
    pub https_proxy_upper: Option<String>,
    pub http_proxy: Option<String>,
    pub http_proxy_upper: Option<String>,
}

/// `p` has exactly the given fields.
pub open spec fn proxy_is(
    p: ProxyInfo,
    enabled: bool,
    proxy_type: Option<Seq<char>>,
    address: Option<Seq<char>>,
    pac_url: Option<Seq<char>>,
    env_var: Option<Seq<char>>,
    settings_uri: Option<Seq<char>>,
) -> bool {
    &&& p.enabled == enabled
    &&& opt_text(p.proxy_type) == proxy_type
    &&& opt_text(p.address) == address
    &&& opt_text(p.pac_url) == pac_url
    &&& opt_text(p.env_var) == env_var
    &&& opt_text(p.settings_uri) == settings_uri
}

pub open spec fn text_or_empty(o: Option<String>) -> Seq<char> {
    match o {
        Some(s) => s@,
        None => Seq::empty(),
    }
}

/// The Windows proxy as the registry describes it: a PAC URL, where one is set, takes
/// precedence; otherwise `ProxyEnable == 1` enables the `system` proxy at `ProxyServer`.
/// Without the `Internet Settings` key no proxy is enabled.
pub open spec fn registry_proxy_spec(
    settings: Option<RegistryProxySettings>,
    uri: Option<Seq<char>>,
    p: ProxyInfo,
) -> bool {
    match settings {
        None => proxy_is(p, false, None, None, None, None, uri),
        Some(s) => {
            let enabled = match s.proxy_enable {
                Some(v) => v == 1,
                None => false,
            };
            let server = text_or_empty(s.proxy_server);
            let pac = text_or_empty(s.auto_config_url);
            if pac.len() > 0 {
                proxy_is(p, true, Some("pac"@), None, Some(pac), None, uri)
            } else {
                proxy_is(
                    p,
                    enabled,
                    if enabled {
                        Some("system"@)
                    } else {
                        None
                    },
                    if server.len() == 0 {
                        None
                    } else {
                        Some(server)
                    },
                    None,
                    None,
                    uri,
                )
            }
        },
    }
}

fn string_or_empty(o: Option<String>) -> (r: String)
    ensures
        r@ == text_or_empty(o),
{
    match o {
        Some(s) => s,
        None => String::new(),
    }
}

/// The Windows proxy configuration from the `Internet Settings` registry values.
pub fn proxy_from_registry(settings: Option<RegistryProxySettings>, settings_uri: Option<String>) -> (r: ProxyInfo)
    ensures
        registry_proxy_spec(settings, opt_text(settings_uri), r),
{
    let s = match settings {
        Some(s) => s,
        None => {
            return ProxyInfo {
                enabled: false,
                proxy_type: None,
                address: None,
                pac_url: None,
                env_var: None,
                settings_uri,
            };
        },
    };
    let enabled = match s.proxy_enable {
        Some(v) => v == 1,
        None => false,
    };
    let server = string_or_empty(s.proxy_server);
    let auto_config_url = string_or_empty(s.auto_config_url);
    if auto_config_url.unicode_len() > 0 {
        return ProxyInfo {
            enabled: true,
            proxy_type: Some(owned("pac")),
            address: None,
            pac_url: Some(auto_config_url),
            env_var: None,
            settings_uri,
        };
    }
    ProxyInfo {
        enabled,
        proxy_type: if enabled {
            Some(owned("system"))
        } else {
            None
        },
        address: if server.unicode_len() == 0 {
            None
        } else {
            Some(server)
        },
        pac_url: None,
        env_var: None,
        settings_uri,
    }
}

pub open spec fn first_set(a: Option<String>, b: Option<String>) -> Option<String> {
    match a {
        Some(x) => Some(x),
        None => b,
    }
}

/// The variable a proxy is taken from: `https_proxy`, else `HTTPS_PROXY`, else `http_proxy`,
/// else `HTTP_PROXY`.
pub open spec fn env_proxy_server(env: ProxyEnv) -> Option<String> {
    first_set(
        first_set(env.https_proxy, env.https_proxy_upper),
        first_set(env.http_proxy, env.http_proxy_upper),
    )
}

fn or_else(a: Option<String>, b: Option<String>) -> (r: Option<String>)
    ensures
        r == first_set(a, b),
{
    match a {
        Some(x) => Some(x),
        None => b,
    }
}

/// The proxy configuration from the proxy environment variables.
pub fn proxy_from_env(env: ProxyEnv, settings_uri: Option<String>) -> (r: ProxyInfo)
    ensures
        ({
            let server = opt_text(env_proxy_server(env));
            proxy_is(
                r,
                server is Some,
                if server is Some {
                    Some("env"@)
                } else {
                    None
                },
                server,
                None,
                server,
                opt_text(settings_uri),
            )
        }),
{
    let https = or_else(env.https_proxy, env.https_proxy_upper);
    let http = or_else(env.http_proxy, env.http_proxy_upper);
    let server = or_else(https, http);
    let address = match &server {
        Some(s) => Some(s.clone()),
        None => None,
    };
    ProxyInfo {
        enabled: server.is_some(),
        proxy_type: if server.is_some() {
            Some(owned("env"))
        } else {
            None
        },
        address,
        pac_url: None,
        env_var: server,
        settings_uri,
    }
}

/// The proxy configuration: on Windows from the registry, elsewhere from the environment.
pub fn detect_proxy(platform: Platform, registry: Option<RegistryProxySettings>, env: ProxyEnv) -> (r: ProxyInfo)
    ensures
        opt_text(r.settings_uri) == settings_uri_spec(platform),
        r.settings_uri matches Some(u) ==> u@.len() > 0,
        platform == Platform::Windows ==> registry_proxy_spec(registry, settings_uri_spec(platform), r),
        platform != Platform::Windows ==> ({
            let server = opt_text(env_proxy_server(env));
            proxy_is(
                r,
                server is Some,
                if server is Some {
                    Some("env"@)
                } else {
                    None
                },
                server,
                None,
                server,
                settings_uri_spec(platform),
            )
        }),
{
    proof {
        reveal_strlit("ms-settings:network-proxy");
        reveal_strlit("x-apple.systempreferences:com.apple.Network-Settings.extension");
    }
    let uri = proxy_settings_uri(platform);
    if platform == Platform::Windows {
        proxy_from_registry(registry, uri)
    } else {
        proxy_from_env(env, uri)
    }
}

/// Law: a detected proxy is always enabled together with its kind.
pub proof fn lemma_enabled_proxy_has_type(
    platform: Platform,
    registry: Option<RegistryProxySettings>,
    env: ProxyEnv,
    r: ProxyInfo,
)
    requires
        platform == Platform::Windows ==> registry_proxy_spec(registry, settings_uri_spec(platform), r),
        platform != Platform::Windows ==> ({
            let server = opt_text(env_proxy_server(env));
            proxy_is(
                r,
                server is Some,
                if server is Some {
                    Some("env"@)
                } else {
                    None
                },
                server,
                None,
                server,
                settings_uri_spec(platform),
            )
        }),
    ensures
        r.enabled ==> r.proxy_type is Some,
{
}

/// A hosts-file line that maps a name other than the stock `localhost`/`broadcasthost` entries.
pub open spec fn hosts_line_overrides(line: Seq<char>) -> bool {
    let t = trim(line);
    &&& t.len() > 0
    &&& t[0] != '#'
    &&& !seq_contains(t, "localhost"@)
    &&& !seq_contains(t, "broadcasthost"@)
}

/// The hosts file holds a custom entry on some line.
pub open spec fn hosts_overridden(content: Seq<char>) -> bool {
    exists|i: int| 0 <= i < split_on(content, '\n').len() && hosts_line_overrides(#[trigger] split_on(content, '\n')[i])
}

/// Whether the hosts file (`None`: it could not be read) holds a custom entry.
pub fn check_hosts_override(content: Option<&str>) -> (r: bool)
    ensures
        r == (match content {
            Some(c) => hosts_overridden(c@),
            None => false,
        }),
{
    let c = match content {
        Some(c) => c,
        None => return false,
    };
    let lines = split_char(&chars_of(c), '\n');
    let localhost = chars_of("localhost");
    let broadcasthost = chars_of("broadcasthost");
    let ghost all = split_on(c@, '\n');
    let mut i: usize = 0;
    while i < lines.len()
        invariant
            i <= lines.len(),
            all == super::text::deep(lines@),
            all == split_on(c@, '\n'),
            content == Some(c),
            localhost@ == "localhost"@,
            broadcasthost@ == "broadcasthost"@,
            forall|k: int| 0 <= k < i ==> !hosts_line_overrides(#[trigger] all[k]),
        decreases lines.len() - i,
    {
        let t = trim_chars(&lines[i]);
        assert(all[i as int] == lines[i as int]@);
        if t.len() > 0 && t[0] != '#' && !seq_find(&t, &localhost) && !seq_find(&t, &broadcasthost) {
            assert(hosts_line_overrides(all[i as int]));
            assert(all.len() == lines.len());
            assert(0 <= i < split_on(c@, '\n').len() && hosts_line_overrides(split_on(c@, '\n')[i as int]));
            return true;
        }
        i = i + 1;
    }
    assert(all.len() == lines.len());
    false
}

/// The system phase result from its findings.
pub open spec fn system_module_spec(
    proxy: ProxyInfo,
    hosts_override: bool,
    clock_skewed: bool,
    clock_offset_sec: Option<i64>,
    duration_ms: u64,
    r: SystemModule,
) -> bool {
    let warn = proxy.enabled || clock_skewed || hosts_override;
    &&& r.status == if warn {
        Status::Warn
    } else {
        Status::Pass
    }
    &&& r.severity == if warn {
        Severity::Warn
    } else {
        Severity::Info
    }
    &&& r.duration_ms == duration_ms
    &&& opt_text(r.error) == if clock_skewed {
        Some(
            "系统时钟偏差 "@ + signed_decimal(
                match clock_offset_sec {
                    Some(o) => o as int,
                    None => 0,
                },
            ) + " 秒，可能导致 TLS 证书验证失败"@,
        )
    } else {
        None
    }
    &&& r.details.proxy == proxy
    &&& r.details.clock_skewed == clock_skewed
    &&& r.details.clock_offset_sec == clock_offset_sec
    &&& r.details.hosts_override == hosts_override
}

/// Assemble the system phase result: it warns when a proxy is on, the clock is skewed or the
/// hosts file is overridden.
pub fn system_module(
    proxy: ProxyInfo,
    hosts_override: bool,
    clock_skewed: bool,
    clock_offset_sec: Option<i64>,
    duration_ms: u64,
) -> (r: SystemModule)
    ensures
        system_module_spec(proxy, hosts_override, clock_skewed, clock_offset_sec, duration_ms, r),
{
    let has_warning = proxy.enabled || clock_skewed || hosts_override;
    let status = if has_warning {
        Status::Warn
    } else {
        Status::Pass
    };
    let severity = if has_warning {
        Severity::Warn
    } else {
        Severity::Info
    };
    let error = if clock_skewed {
        let offset = match clock_offset_sec {
            Some(o) => o,
            None => 0,
        };
        let mut msg = owned("系统时钟偏差 ");
        msg.append(i64_to_text(offset).as_str());
        msg.append(" 秒，可能导致 TLS 证书验证失败");
        Some(msg)
    } else {
        None
    };
    SystemModule {
        status,
        severity,
        duration_ms,
        error,
        details: SystemDetails { proxy, clock_skewed, clock_offset_sec, hosts_override },
    }
}

/// Diagnose the system network configuration from the detected proxy, the hosts file text
/// (`None`: unreadable) and the server `Date` header from the HTTP phase, if any.
/// `duration_ms` is the time spent gathering these inputs.
pub fn diagnose(
    server_date_header: Option<&str>,
    proxy: ProxyInfo,
    hosts_content: Option<&str>,
    duration_ms: u64,
) -> (r: SystemModule)
    requires
        header_in_i64(opt_view(server_date_header)),
    ensures
        ({
            let clock = clock_skew_spec(opt_view(server_date_header), 0);
            clock.1 is None ==> !r.details.clock_skewed && r.details.clock_offset_sec is None
        }),
        r.details.clock_offset_sec is None ==> !r.details.clock_skewed,
        r.details.clock_offset_sec matches Some(off) ==> r.details.clock_skewed == (off > 120 || off
            < -120),
        exists|now: i64|
            (r.details.clock_skewed, r.details.clock_offset_sec) == #[trigger] clock_skew_reading(
                opt_view(server_date_header),
                now as int,
            ),
        system_module_spec(
            proxy,
            match hosts_content {
                Some(c) => hosts_overridden(c@),
                None => false,
            },
            r.details.clock_skewed,
            r.details.clock_offset_sec,
            duration_ms,
            r,
        ),
{
    let hosts_override = check_hosts_override(hosts_content);
    let (clock_skewed, clock_offset_sec) = check_clock_skew(server_date_header);
    system_module(proxy, hosts_override, clock_skewed, clock_offset_sec, duration_ms)
}

} // verus!
